//! Challenge-response login: a wallet proves itself by signing the message
//! that embeds its live nonce.
use vstd::prelude::*;
use crate::address::{hex_digit, hex_text, WalletAddress};
use crate::nonce::{
    entry_of, fresh_nonce, is_live, NonceChallengeStore, NonceState, NONCE_TTL,
};
use crate::signature::{recover_signer, recovery, signer_matches, SignatureError};

verus! {

/// Seconds for which a session granted at login stays valid.
pub const SESSION_TTL: u64 = 86400;

/// Fixed-width lowercase hex text of `v`: its `n` lowest hex digits, most
/// significant first.
pub open spec fn hex_fixed(v: nat, n: nat) -> Seq<u8>
    decreases n,
{
    if n == 0 {
        Seq::empty()
    } else {
        hex_fixed(v / 16, (n - 1) as nat).push(hex_digit(v % 16))
    }
}

/// "Sign in to the marketplace with wallet " in ASCII.
pub open spec fn challenge_intro() -> Seq<u8> {
    seq![83u8, 105u8, 103u8, 110u8, 32u8, 105u8, 110u8, 32u8, 116u8, 111u8, 32u8, 116u8, 104u8, 101u8, 32u8, 109u8, 97u8, 114u8, 107u8, 101u8, 116u8, 112u8, 108u8, 97u8, 99u8, 101u8, 32u8, 119u8, 105u8, 116u8, 104u8, 32u8, 119u8, 97u8, 108u8, 108u8, 101u8, 116u8, 32u8]
}

/// "\nNonce: " in ASCII.
pub open spec fn nonce_label() -> Seq<u8> {
    seq![10u8, 78u8, 111u8, 110u8, 99u8, 101u8, 58u8, 32u8]
}

/// "\nExpires at: " in ASCII.
pub open spec fn expiry_label() -> Seq<u8> {
    seq![10u8, 69u8, 120u8, 112u8, 105u8, 114u8, 101u8, 115u8, 32u8, 97u8, 116u8, 58u8, 32u8]
}

/// The message a wallet signs to answer the challenge `nonce`: the intent,
/// the address as `0x` and lowercase hex, the token as 32 hex digits and the
/// expiry time as 16 hex digits.
pub open spec fn challenge_message(address: Seq<u8>, nonce: NonceState) -> Seq<u8> {
    challenge_intro() + seq![48u8, 120u8] + hex_text(address) + nonce_label() + hex_fixed(
        nonce.value as nat,
        32,
    ) + expiry_label() + hex_fixed(nonce.expires_at as nat, 16)
}

fn push_all(out: &mut Vec<u8>, b: Vec<u8>)
    ensures
        final(out)@ == old(out)@ + b@,
{
    let mut b = b;
    out.append(&mut b);
}

fn push_hex_fixed(out: &mut Vec<u8>, v: u128, n: usize)
    ensures
        final(out)@ == old(out)@ + hex_fixed(v as nat, n as nat),
    decreases n,
{
    if n > 0 {
        push_hex_fixed(out, v / 16, n - 1);
        let d = (v % 16) as u8;
        let c: u8 = if d < 10 { 48 + d } else { 87 + d };
        out.push(c);
        assert(hex_fixed(v as nat, n as nat) == hex_fixed((v / 16) as nat, (n - 1) as nat).push(c));
    }
}

/// The challenge message for `nonce` held for `address`.
pub fn challenge_message_for(address: &WalletAddress, nonce: &NonceState) -> (r: Vec<u8>)
    ensures
        r@ == challenge_message(address@, *nonce),
{
    let mut out: Vec<u8> = vec![83u8, 105u8, 103u8, 110u8, 32u8, 105u8, 110u8, 32u8, 116u8, 111u8, 32u8, 116u8, 104u8, 101u8, 32u8, 109u8, 97u8, 114u8, 107u8, 101u8, 116u8, 112u8, 108u8, 97u8, 99u8, 101u8, 32u8, 119u8, 105u8, 116u8, 104u8, 32u8, 119u8, 97u8, 108u8, 108u8, 101u8, 116u8, 32u8];
    assert(out@ == challenge_intro());
    push_all(&mut out, address.to_lower_hex());
    push_all(&mut out, vec![10u8, 78u8, 111u8, 110u8, 99u8, 101u8, 58u8, 32u8]);
    push_hex_fixed(&mut out, nonce.value, 32);
    push_all(&mut out, vec![10u8, 69u8, 120u8, 112u8, 105u8, 114u8, 101u8, 115u8, 32u8, 97u8, 116u8, 58u8, 32u8]);
    push_hex_fixed(&mut out, nonce.expires_at as u128, 16);
    assert(out@ == challenge_message(address@, *nonce));
    out
}

/// An authenticated wallet and the time span of its session.
#[derive(Debug, Clone, PartialEq, Eq)]
pub struct Session {
    pub address: WalletAddress,
    pub created_at: u64,
    pub expires_at: u64,
}

impl Session {
    /// Whether the session still stands at time `now`.
    pub fn is_valid_at(&self, now: u64) -> (r: bool)
        ensures
            r == (self.created_at <= now && now <= self.expires_at),
    {
        self.created_at <= now && now <= self.expires_at
    }
}

/// Why a login was refused.
#[derive(Debug, Clone, Copy, PartialEq, Eq, Structural)]
pub enum AuthError {
    /// The signature is not the address's signature of the live challenge;
    /// the challenge stays live.
    AuthenticationFailed,
    /// No live challenge: none issued, already consumed, or past its expiry.
    ChallengeExpired,
}

/// The outcome of a login attempt at `now`, where `signed` tells whether the
/// presented signature is the address's signature of its challenge message.
pub open spec fn login_outcome(m: Map<Seq<u8>, NonceState>, a: Seq<u8>, signed: bool, now: u64) -> Result<(), AuthError> {
    match entry_of(m, a) {
        Some(s) => if !is_live(s, now) {
            Err(AuthError::ChallengeExpired)
        } else if signed {
            Ok(())
        } else {
            Err(AuthError::AuthenticationFailed)
        },
        None => Err(AuthError::ChallengeExpired),
    }
}

/// The nonces after a login attempt: the challenge is consumed on success
/// and untouched otherwise.
pub open spec fn after_login(m: Map<Seq<u8>, NonceState>, a: Seq<u8>, signed: bool, now: u64) -> Map<Seq<u8>, NonceState> {
    if login_outcome(m, a, signed, now) is Ok {
        m.insert(a, NonceState { consumed: true, ..m[a] })
    } else {
        m
    }
}

/// Whether `signature` recovers to `a` over the challenge message of the
/// nonce held for `a`.
pub open spec fn signs_challenge(m: Map<Seq<u8>, NonceState>, a: Seq<u8>, signature: Seq<u8>) -> bool {
    match entry_of(m, a) {
        Some(s) => recovery(challenge_message(a, s), signature) == Ok::<Seq<u8>, SignatureError>(a),
        None => false,
    }
}

/// Issues challenges and turns correctly signed answers into sessions.
pub struct WalletAuthenticator {
    store: NonceChallengeStore,
}

impl View for WalletAuthenticator {
    type V = Map<Seq<u8>, NonceState>;

    closed spec fn view(&self) -> Map<Seq<u8>, NonceState> {
        self.store@
    }
}

impl WalletAuthenticator {
    pub closed spec fn wf(&self) -> bool {
        self.store.wf()
    }

    /// An authenticator with no challenge issued.
    pub fn new() -> (r: WalletAuthenticator)
        ensures
            r.wf(),
            r@ == Map::<Seq<u8>, NonceState>::empty(),
    {
        WalletAuthenticator { store: NonceChallengeStore::new() }
    }

    /// The nonce held for `address`, if any.
    pub fn challenge_of(&self, address: &WalletAddress) -> (r: Option<NonceState>)
        requires
            self.wf(),
        ensures
            r == entry_of(self@, address@),
    {
        self.store.lookup(address)
    }

    /// Issues a fresh challenge for `address` with the random token `value`,
    /// superseding any earlier one, and returns the message to sign.
    pub fn start_login(&mut self, address: &WalletAddress, value: u128, now: u64) -> (r: Vec<u8>)
        requires
            old(self).wf(),
            now <= u64::MAX - NONCE_TTL,
        ensures
            final(self).wf(),
            final(self)@ == old(self)@.insert(address@, fresh_nonce(value, now)),
            r@ == challenge_message(address@, fresh_nonce(value, now)),
    {
        let nonce = self.store.issue(address, value, now);
        challenge_message_for(address, &nonce)
    }

    /// Settles a login attempt at `now` given what was recovered from the
    /// signature over the live challenge message of `address`.
    pub fn finish_login(
        &mut self,
        address: &WalletAddress,
        recovered: &Result<WalletAddress, SignatureError>,
        now: u64,
    ) -> (r: Result<Session, AuthError>)
        requires
            old(self).wf(),
            now <= u64::MAX - SESSION_TTL,
        ensures
            final(self).wf(),
            ({
                let signed = recovered matches Ok(x) && x@ == address@;
                &&& final(self)@ == after_login(old(self)@, address@, signed, now)
                &&& match r {
                    Ok(s) => login_outcome(old(self)@, address@, signed, now) is Ok && s.address@ == address@
                        && s.created_at == now && s.expires_at == now + SESSION_TTL,
                    Err(e) => login_outcome(old(self)@, address@, signed, now) == Err::<(), AuthError>(e),
                }
            }),
    {
        let live = self.store.live_nonce(address, now);
        match live {
            None => Err(AuthError::ChallengeExpired),
            Some(nonce) => {
                if !signer_matches(recovered, address) {
                    return Err(AuthError::AuthenticationFailed);
                }
                let consumed = self.store.consume(address, nonce.value, now);
                assert(consumed is Ok);
                Ok(Session { address: address.duplicate(), created_at: now, expires_at: now + SESSION_TTL })
            },
        }
    }

    /// Answers the live challenge of `address` with `signature`. Only a
    /// signature by `address` of the live challenge message consumes it and
    /// grants a session; a wrong signature leaves the challenge live.
    pub fn complete_login(&mut self, address: &WalletAddress, signature: &Vec<u8>, now: u64) -> (r: Result<Session, AuthError>)
        requires
            old(self).wf(),
            now <= u64::MAX - SESSION_TTL,
        ensures
            final(self).wf(),
            ({
                let signed = signs_challenge(old(self)@, address@, signature@);
                &&& final(self)@ == after_login(old(self)@, address@, signed, now)
                &&& match r {
                    Ok(s) => login_outcome(old(self)@, address@, signed, now) is Ok && s.address@ == address@
                        && s.created_at == now && s.expires_at == now + SESSION_TTL,
                    Err(e) => login_outcome(old(self)@, address@, signed, now) == Err::<(), AuthError>(e),
                }
            }),
    {
        match self.store.live_nonce(address, now) {
            None => Err(AuthError::ChallengeExpired),
            Some(nonce) => {
                let message = challenge_message_for(address, &nonce);
                let recovered = recover_signer(&message, signature);
                self.finish_login(address, &recovered, now)
            },
        }
    }
}

/// A correct answer to a live challenge logs in exactly once: the first
/// attempt succeeds and any later attempt with the same signature finds no
/// live challenge.
pub proof fn login_succeeds_once(m: Map<Seq<u8>, NonceState>, a: Seq<u8>, signature: Seq<u8>, now: u64, later: u64)
    requires
        entry_of(m, a) matches Some(s) && is_live(s, now),
        signs_challenge(m, a, signature),
    ensures
        login_outcome(m, a, signs_challenge(m, a, signature), now) is Ok,
        ({
            let m2 = after_login(m, a, signs_challenge(m, a, signature), now);
            login_outcome(m2, a, signs_challenge(m2, a, signature), later) == Err::<(), AuthError>(
                AuthError::ChallengeExpired,
            )
        }),
{
}

/// Sixteen to the power `n`.
pub open spec fn pow16(n: nat) -> nat
    decreases n,
{
    if n == 0 {
        1
    } else {
        16 * pow16((n - 1) as nat)
    }
}

proof fn hex_fixed_len(v: nat, n: nat)
    ensures
        hex_fixed(v, n).len() == n,
    decreases n,
{
    if n > 0 {
        hex_fixed_len(v / 16, (n - 1) as nat);
    }
}

proof fn hex_fixed_injective(v: nat, w: nat, n: nat)
    requires
        v < pow16(n),
        w < pow16(n),
        hex_fixed(v, n) == hex_fixed(w, n),
    ensures
        v == w,
    decreases n,
{
    if n > 0 {
        let m = (n - 1) as nat;
        let p = pow16(m);
        assert(hex_fixed(v, n).last() == hex_digit(v % 16));
        assert(hex_fixed(w, n).last() == hex_digit(w % 16));
        assert(v % 16 == w % 16);
        assert(hex_fixed(v / 16, m) == hex_fixed(v, n).drop_last());
        assert(hex_fixed(w / 16, m) == hex_fixed(w, n).drop_last());
        assert(v / 16 < p) by (nonlinear_arith)
            requires
                v < 16 * p,
        ;
        assert(w / 16 < p) by (nonlinear_arith)
            requires
                w < 16 * p,
        ;
        hex_fixed_injective(v / 16, w / 16, m);
    }
}

/// Issuing a new challenge with a different token changes the message to
/// be signed, so an answer to the old message is an answer to another
/// message; after the new issue the login checks the new message alone.
pub proof fn new_challenge_changes_message(
    m: Map<Seq<u8>, NonceState>,
    a: Seq<u8>,
    old_value: u128,
    value: u128,
    old_expiry: u64,
    now: u64,
    signature: Seq<u8>,
)
    requires
        old_value != value,
        now <= u64::MAX - NONCE_TTL,
    ensures
        challenge_message(a, NonceState { value: old_value, issued_at: 0, expires_at: old_expiry, consumed: false })
            != challenge_message(a, fresh_nonce(value, now)),
        signs_challenge(m.insert(a, fresh_nonce(value, now)), a, signature) == (recovery(
            challenge_message(a, fresh_nonce(value, now)),
            signature,
        ) == Ok::<Seq<u8>, SignatureError>(a)),
{
    let n1 = NonceState { value: old_value, issued_at: 0, expires_at: old_expiry, consumed: false };
    let n2 = fresh_nonce(value, now);
    let pre = challenge_intro() + seq![48u8, 120u8] + hex_text(a) + nonce_label();
    let k = pre.len() as int;
    hex_fixed_len(old_value as nat, 32);
    hex_fixed_len(value as nat, 32);
    let m1 = challenge_message(a, n1);
    let m2 = challenge_message(a, n2);
    assert(m1.subrange(k, k + 32) =~= hex_fixed(old_value as nat, 32));
    assert(m2.subrange(k, k + 32) =~= hex_fixed(value as nat, 32));
    assert(pow16(32) == 0x1_0000_0000_0000_0000_0000_0000_0000_0000) by {
        reveal_with_fuel(pow16, 33);
    }
    if m1 == m2 {
        hex_fixed_injective(old_value as nat, value as nat, 32);
    }
}

/// An answer that comes after the challenge expired is refused as expired,
/// whatever the signature, and the challenge is left unconsumed.
pub proof fn expired_challenge_stays_unconsumed(m: Map<Seq<u8>, NonceState>, a: Seq<u8>, signed: bool, now: u64)
    requires
        entry_of(m, a) matches Some(s) && !s.consumed && now > s.expires_at,
    ensures
        login_outcome(m, a, signed, now) == Err::<(), AuthError>(AuthError::ChallengeExpired),
        after_login(m, a, signed, now) == m,
{
}

} // verus!
