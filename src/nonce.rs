//! Single-use, time-bounded login challenges, one per wallet address.
use vstd::prelude::*;
use crate::address::WalletAddress;

verus! {

/// Seconds for which an issued nonce can be consumed.
pub const NONCE_TTL: u64 = 300;

/// The challenge state held for one address.
#[derive(Debug, Clone, Copy, PartialEq, Eq, Structural)]
pub struct NonceState {
    /// The random token embedded in the challenge message.
    pub value: u128,
    pub issued_at: u64,
    pub expires_at: u64,
    pub consumed: bool,
}

/// Why a nonce could not be consumed.
#[derive(Debug, Clone, Copy, PartialEq, Eq, Structural)]
pub enum ChallengeError {
    NoActiveChallenge,
    AlreadyConsumed,
    Expired,
    Mismatch,
}

/// A nonce that can still be consumed at time `now`.
pub open spec fn is_live(s: NonceState, now: u64) -> bool {
    !s.consumed && now <= s.expires_at
}

/// The nonce issued at `now` with the given token.
pub open spec fn fresh_nonce(value: u128, now: u64) -> NonceState {
    NonceState { value, issued_at: now, expires_at: (now + NONCE_TTL) as u64, consumed: false }
}

/// The result of presenting `presented` at time `now` against the state held
/// for an address.
pub open spec fn consume_outcome(entry: Option<NonceState>, presented: u128, now: u64) -> Result<(), ChallengeError> {
    match entry {
        None => Err(ChallengeError::NoActiveChallenge),
        Some(s) => if s.consumed {
            Err(ChallengeError::AlreadyConsumed)
        } else if now > s.expires_at {
            Err(ChallengeError::Expired)
        } else if s.value != presented {
            Err(ChallengeError::Mismatch)
        } else {
            Ok(())
        },
    }
}

/// The state held for `a` in a store model.
pub open spec fn entry_of(m: Map<Seq<u8>, NonceState>, a: Seq<u8>) -> Option<NonceState> {
    if m.contains_key(a) {
        Some(m[a])
    } else {
        None
    }
}

/// The store after a consumption attempt: marked consumed on success,
/// untouched otherwise.
pub open spec fn after_consume(m: Map<Seq<u8>, NonceState>, a: Seq<u8>, presented: u128, now: u64) -> Map<Seq<u8>, NonceState> {
    if consume_outcome(entry_of(m, a), presented, now) is Ok {
        m.insert(a, NonceState { consumed: true, ..m[a] })
    } else {
        m
    }
}

/// Nonces keyed by address; at most one per address.
pub struct NonceChallengeStore {
    addresses: Vec<WalletAddress>,
    states: Vec<NonceState>,
    model: Ghost<Map<Seq<u8>, NonceState>>,
}

impl View for NonceChallengeStore {
    type V = Map<Seq<u8>, NonceState>;

    closed spec fn view(&self) -> Map<Seq<u8>, NonceState> {
        self.model@
    }
}

impl NonceChallengeStore {
    /// The two vectors run in parallel, hold each address once, and agree
    /// with the model.
    pub closed spec fn wf(&self) -> bool {
        &&& self.addresses@.len() == self.states@.len()
        &&& forall|i: int| 0 <= i < self.addresses@.len() ==> {
            &&& #[trigger] self.model@.contains_key(self.addresses@[i]@)
            &&& self.model@[self.addresses@[i]@] == self.states@[i]
        }
        &&& forall|a: Seq<u8>| #[trigger] self.model@.contains_key(a) ==> exists|i: int|
            0 <= i < self.addresses@.len() && #[trigger] self.addresses@[i]@ == a
        &&& forall|i: int, j: int|
            0 <= i < j < self.addresses@.len() ==> #[trigger] self.addresses@[i]@ != #[trigger] self.addresses@[j]@
    }

    /// An empty store.
    pub fn new() -> (r: NonceChallengeStore)
        ensures
            r.wf(),
            r@ == Map::<Seq<u8>, NonceState>::empty(),
    {
        NonceChallengeStore { addresses: Vec::new(), states: Vec::new(), model: Ghost(Map::empty()) }
    }

    fn position(&self, address: &WalletAddress) -> (r: Option<usize>)
        requires
            self.wf(),
        ensures
            r matches Some(i) ==> i < self.addresses@.len() && self.addresses@[i as int]@ == address@,
            r is None ==> !self@.contains_key(address@),
    {
        let mut i: usize = 0;
        while i < self.addresses.len()
            invariant
                self.wf(),
                0 <= i <= self.addresses@.len(),
                forall|j: int| 0 <= j < i ==> #[trigger] self.addresses@[j]@ != address@,
            decreases self.addresses@.len() - i,
        {
            if self.addresses[i].equals(address) {
                return Some(i);
            }
            i = i + 1;
        }
        None
    }

    /// The state held for `address`, consumed or expired ones included.
    pub fn lookup(&self, address: &WalletAddress) -> (r: Option<NonceState>)
        requires
            self.wf(),
        ensures
            r == entry_of(self@, address@),
    {
        match self.position(address) {
            Some(i) => Some(self.states[i]),
            None => None,
        }
    }

    /// The nonce of `address` that can still be consumed at `now`, if any.
    pub fn live_nonce(&self, address: &WalletAddress, now: u64) -> (r: Option<NonceState>)
        requires
            self.wf(),
        ensures
            r == (match entry_of(self@, address@) {
                Some(s) => if is_live(s, now) { Some(s) } else { None },
                None => None,
            }),
    {
        match self.lookup(address) {
            Some(s) => if !s.consumed && now <= s.expires_at { Some(s) } else { None },
            None => None,
        }
    }

    /// Issues a nonce for `address` with the random token `value`, replacing
    /// whatever was held for it before.
    pub fn issue(&mut self, address: &WalletAddress, value: u128, now: u64) -> (r: NonceState)
        requires
            old(self).wf(),
            now <= u64::MAX - NONCE_TTL,
        ensures
            final(self).wf(),
            r == fresh_nonce(value, now),
            final(self)@ == old(self)@.insert(address@, r),
    {
        let state = NonceState { value, issued_at: now, expires_at: now + NONCE_TTL, consumed: false };
        self.put(address, state);
        state
    }

    fn put(&mut self, address: &WalletAddress, state: NonceState)
        requires
            old(self).wf(),
        ensures
            final(self).wf(),
            final(self)@ == old(self)@.insert(address@, state),
    {
        match self.position(address) {
            Some(i) => {
                self.states.set(i, state);
                self.model = Ghost(self.model@.insert(address@, state));
                assert forall|k: int| 0 <= k < self.addresses@.len() implies {
                    &&& #[trigger] self.model@.contains_key(self.addresses@[k]@)
                    &&& self.model@[self.addresses@[k]@] == self.states@[k]
                } by {
                    if k != i {
                        if k < i {
                            assert(old(self).addresses@[k]@ != old(self).addresses@[i as int]@);
                        } else {
                            assert(old(self).addresses@[i as int]@ != old(self).addresses@[k]@);
                        }
                        assert(old(self).model@.contains_key(old(self).addresses@[k]@));
                    }
                }
                assert forall|a: Seq<u8>| #[trigger] self.model@.contains_key(a) implies exists|j: int|
                    0 <= j < self.addresses@.len() && #[trigger] self.addresses@[j]@ == a by {
                    if a != address@ {
                        assert(old(self).model@.contains_key(a));
                        let j = choose|j: int| 0 <= j < old(self).addresses@.len() && #[trigger] old(self).addresses@[j]@ == a;
                        assert(self.addresses@[j]@ == a);
                    } else {
                        assert(self.addresses@[i as int]@ == a);
                    }
                }
            },
            None => {
                self.addresses.push(address.duplicate());
                self.states.push(state);
                self.model = Ghost(self.model@.insert(address@, state));
                let ghost n = self.addresses@.len() - 1;
                assert(self.addresses@[n]@ == address@);
                assert forall|k: int| 0 <= k < self.addresses@.len() implies {
                    &&& #[trigger] self.model@.contains_key(self.addresses@[k]@)
                    &&& self.model@[self.addresses@[k]@] == self.states@[k]
                } by {
                    if k != n {
                        assert(old(self).model@.contains_key(old(self).addresses@[k]@));
                    }
                }
                assert forall|a: Seq<u8>| #[trigger] self.model@.contains_key(a) implies exists|j: int|
                    0 <= j < self.addresses@.len() && #[trigger] self.addresses@[j]@ == a by {
                    if a != address@ {
                        assert(old(self).model@.contains_key(a));
                        let j = choose|j: int| 0 <= j < old(self).addresses@.len() && #[trigger] old(self).addresses@[j]@ == a;
                        assert(self.addresses@[j]@ == a);
                    }
                }
                assert forall|j: int, k: int| 0 <= j < k < self.addresses@.len() implies
                    #[trigger] self.addresses@[j]@ != #[trigger] self.addresses@[k]@ by {
                    if k == n {
                        assert(old(self).model@.contains_key(old(self).addresses@[j]@));
                    }
                }
            },
        }
    }

    /// Consumes the nonce of `address` if it is live at `now` and its token
    /// is `presented`; on any failure the store is left as it was.
    pub fn consume(&mut self, address: &WalletAddress, presented: u128, now: u64) -> (r: Result<(), ChallengeError>)
        requires
            old(self).wf(),
        ensures
            final(self).wf(),
            r == consume_outcome(entry_of(old(self)@, address@), presented, now),
            final(self)@ == after_consume(old(self)@, address@, presented, now),
    {
        match self.lookup(address) {
            None => Err(ChallengeError::NoActiveChallenge),
            Some(s) => {
                if s.consumed {
                    Err(ChallengeError::AlreadyConsumed)
                } else if now > s.expires_at {
                    Err(ChallengeError::Expired)
                } else if s.value != presented {
                    Err(ChallengeError::Mismatch)
                } else {
                    self.put(address, NonceState { consumed: true, ..s });
                    Ok(())
                }
            },
        }
    }
}

/// A store holds at most one nonce per address, and issuing a nonce replaces
/// the previous one: afterwards only the new token can be consumed, and the
/// old token, if different, is refused.
pub proof fn issue_supersedes(m: Map<Seq<u8>, NonceState>, a: Seq<u8>, old_value: u128, value: u128, now: u64, later: u64)
    requires
        now <= u64::MAX - NONCE_TTL,
        old_value != value,
    ensures
        entry_of(m.insert(a, fresh_nonce(value, now)), a) == Some(fresh_nonce(value, now)),
        consume_outcome(entry_of(m.insert(a, fresh_nonce(value, now)), a), old_value, later) != Ok::<(), ChallengeError>(()),
{
}

} // verus!
