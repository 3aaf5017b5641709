use ethers::signers::{LocalWallet, Signer};
use ethers::utils::hash_message;
use quay_market::address::{parse_hex_bytes, AddressError, WalletAddress};
use quay_market::auth::{challenge_message_for, AuthError, WalletAuthenticator, SESSION_TTL};
use quay_market::nonce::{ChallengeError, NonceChallengeStore, NonceState, NONCE_TTL};
use quay_market::signature::{recover_signer, signer_matches, verify, SignatureError};

const KEY_A: &str = "0123456789012345678901234567890123456789012345678901234567890123";
const KEY_B: &str = "4c0883a69102937d6231471b5dbb6204fe5129617082792ae468d01a3f362318";

fn wallet(key: &str) -> LocalWallet {
    key.parse().unwrap()
}

fn address_of(w: &LocalWallet) -> WalletAddress {
    WalletAddress::from_bytes(&w.address().as_bytes().to_vec()).unwrap()
}

fn sign(w: &LocalWallet, message: &[u8]) -> Vec<u8> {
    w.sign_hash(hash_message(message)).unwrap().to_vec()
}

#[test]
fn normalize_accepts_prefixed_and_bare_text() {
    let a = WalletAddress::normalize("0x5aAeb6053F3E94C9b9A09f33669435E7Ef1BeAed").unwrap();
    let b = WalletAddress::normalize("5AAEB6053F3E94C9B9A09F33669435E7EF1BEAED").unwrap();
    assert!(a.equals(&b));
    assert_eq!(a.to_bytes()[0], 0x5a);
    assert_eq!(a.to_bytes()[19], 0xed);
    assert_eq!(a.to_bytes().len(), 20);
}

#[test]
fn normalize_rejects_bad_text() {
    assert_eq!(WalletAddress::normalize("0x1234"), Err(AddressError::MalformedAddress));
    assert_eq!(
        WalletAddress::normalize("0x5aAeb6053F3E94C9b9A09f33669435E7Ef1BeAeZ"),
        Err(AddressError::MalformedAddress)
    );
    assert_eq!(
        WalletAddress::normalize("0x5aAeb6053F3E94C9b9A09f33669435E7Ef1BeAed00"),
        Err(AddressError::MalformedAddress)
    );
    assert_eq!(WalletAddress::normalize(""), Err(AddressError::MalformedAddress));
}

#[test]
fn checksummed_text_is_canonical() {
    let a = WalletAddress::normalize("0x5aaeb6053f3e94c9b9a09f33669435e7ef1beaed").unwrap();
    assert_eq!(a.checksummed(), "0x5aAeb6053F3E94C9b9A09f33669435E7Ef1BeAed");
    let lower = String::from_utf8(a.to_lower_hex()).unwrap();
    assert_eq!(lower, "0x5aaeb6053f3e94c9b9a09f33669435e7ef1beaed");
}

#[test]
fn recover_signer_finds_the_signing_wallet() {
    let w = wallet(KEY_A);
    let message = b"hello marketplace".to_vec();
    let sig = sign(&w, &message);
    let who = recover_signer(&message, &sig).unwrap();
    assert!(who.equals(&address_of(&w)));
    assert!(verify(&message, &sig, &address_of(&w)));
    assert!(!verify(&message, &sig, &address_of(&wallet(KEY_B))));
}

#[test]
fn recover_signer_is_deterministic_and_bit_flips_change_signer() {
    let w = wallet(KEY_A);
    let message = b"determinism".to_vec();
    let sig = sign(&w, &message);
    assert_eq!(recover_signer(&message, &sig), recover_signer(&message, &sig));
    let mut flipped = sig.clone();
    flipped[10] ^= 1;
    match recover_signer(&message, &flipped) {
        Ok(a) => assert!(!a.equals(&address_of(&w))),
        Err(e) => assert_eq!(e, SignatureError::RecoveryFailed),
    }
}

#[test]
fn recover_signer_rejects_bad_format() {
    let message = b"x".to_vec();
    assert_eq!(recover_signer(&message, &vec![0u8; 64]), Err(SignatureError::InvalidSignatureFormat));
    let mut sig = sign(&wallet(KEY_A), &message);
    sig[64] = 5;
    assert_eq!(recover_signer(&message, &sig), Err(SignatureError::InvalidSignatureFormat));
    assert!(!verify(&message, &sig, &address_of(&wallet(KEY_A))));
}

#[test]
fn nonce_store_consumes_once() {
    let a = address_of(&wallet(KEY_A));
    let mut store = NonceChallengeStore::new();
    assert_eq!(store.consume(&a, 7, 1000), Err(ChallengeError::NoActiveChallenge));
    let n = store.issue(&a, 7, 1000);
    assert_eq!(n, NonceState { value: 7, issued_at: 1000, expires_at: 1000 + NONCE_TTL, consumed: false });
    assert_eq!(store.consume(&a, 8, 1001), Err(ChallengeError::Mismatch));
    assert_eq!(store.consume(&a, 7, 1001), Ok(()));
    assert_eq!(store.consume(&a, 7, 1002), Err(ChallengeError::AlreadyConsumed));
    assert!(store.lookup(&a).unwrap().consumed);
    assert_eq!(store.live_nonce(&a, 1002), None);
}

#[test]
fn nonce_store_expires_and_supersedes() {
    let a = address_of(&wallet(KEY_A));
    let b = address_of(&wallet(KEY_B));
    let mut store = NonceChallengeStore::new();
    store.issue(&a, 1, 100);
    store.issue(&b, 2, 100);
    assert_eq!(store.consume(&a, 1, 100 + NONCE_TTL + 1), Err(ChallengeError::Expired));
    assert!(!store.lookup(&a).unwrap().consumed);
    store.issue(&a, 3, 200);
    assert_eq!(store.consume(&a, 1, 201), Err(ChallengeError::Mismatch));
    assert_eq!(store.live_nonce(&a, 201).unwrap().value, 3);
    assert_eq!(store.live_nonce(&b, 201).unwrap().value, 2);
    assert_eq!(store.consume(&a, 3, 201), Ok(()));
}

#[test]
fn challenge_message_has_fixed_template() {
    let a = WalletAddress::normalize("0x5aaeb6053f3e94c9b9a09f33669435e7ef1beaed").unwrap();
    let n = NonceState { value: 0xabc, issued_at: 10, expires_at: 310, consumed: false };
    let text = String::from_utf8(challenge_message_for(&a, &n)).unwrap();
    assert_eq!(
        text,
        "Sign in to the marketplace with wallet 0x5aaeb6053f3e94c9b9a09f33669435e7ef1beaed\n\
         Nonce: 00000000000000000000000000000abc\n\
         Expires at: 0000000000000136"
    );
}

#[test]
fn login_grants_session_for_same_address() {
    let w = wallet(KEY_A);
    let a = address_of(&w);
    let mut auth = WalletAuthenticator::new();
    let message = auth.start_login(&a, 0x1234_5678_9abc_def0_1234_5678_9abc_def0, 5000);
    let sig = sign(&w, &message);
    let session = auth.complete_login(&a, &sig, 5010).unwrap();
    assert!(session.address.equals(&a));
    assert_eq!(session.address.checksummed(), a.checksummed());
    assert_eq!(session.created_at, 5010);
    assert_eq!(session.expires_at, 5010 + SESSION_TTL);
}

#[test]
fn login_succeeds_exactly_once() {
    let w = wallet(KEY_A);
    let a = address_of(&w);
    let mut auth = WalletAuthenticator::new();
    let message = auth.start_login(&a, 99, 5000);
    let sig = sign(&w, &message);
    assert!(auth.complete_login(&a, &sig, 5001).is_ok());
    assert_eq!(auth.complete_login(&a, &sig, 5002), Err(AuthError::ChallengeExpired));
    assert!(auth.challenge_of(&a).unwrap().consumed);
}

#[test]
fn wrong_signature_keeps_challenge_live() {
    let w = wallet(KEY_A);
    let a = address_of(&w);
    let mut auth = WalletAuthenticator::new();
    let message = auth.start_login(&a, 99, 5000);
    let other = sign(&wallet(KEY_B), &message);
    assert_eq!(auth.complete_login(&a, &other, 5001), Err(AuthError::AuthenticationFailed));
    assert!(!auth.challenge_of(&a).unwrap().consumed);
    let sig = sign(&w, &message);
    assert!(auth.complete_login(&a, &sig, 5002).is_ok());
}

#[test]
fn new_challenge_invalidates_old_signature() {
    let w = wallet(KEY_A);
    let a = address_of(&w);
    let mut auth = WalletAuthenticator::new();
    let first = auth.start_login(&a, 1, 5000);
    let old_sig = sign(&w, &first);
    let second = auth.start_login(&a, 2, 5001);
    assert_ne!(first, second);
    assert_eq!(auth.complete_login(&a, &old_sig, 5002), Err(AuthError::AuthenticationFailed));
    let sig = sign(&w, &second);
    assert!(auth.complete_login(&a, &sig, 5003).is_ok());
}

#[test]
fn login_after_ttl_is_expired_and_unconsumed() {
    let w = wallet(KEY_A);
    let a = address_of(&w);
    let mut auth = WalletAuthenticator::new();
    let message = auth.start_login(&a, 42, 5000);
    let sig = sign(&w, &message);
    assert_eq!(auth.complete_login(&a, &sig, 5000 + NONCE_TTL + 1), Err(AuthError::ChallengeExpired));
    let n = auth.challenge_of(&a).unwrap();
    assert!(!n.consumed);
    assert_eq!(n.value, 42);
}

#[test]
fn login_without_challenge_is_expired() {
    let w = wallet(KEY_A);
    let a = address_of(&w);
    let mut auth = WalletAuthenticator::new();
    let sig = sign(&w, b"anything");
    assert_eq!(auth.complete_login(&a, &sig, 1), Err(AuthError::ChallengeExpired));
}

#[test]
fn parse_hex_bytes_reads_signature_text() {
    assert_eq!(parse_hex_bytes("0x00ff1A"), Some(vec![0x00, 0xff, 0x1a]));
    assert_eq!(parse_hex_bytes("abcd"), Some(vec![0xab, 0xcd]));
    assert_eq!(parse_hex_bytes(""), Some(vec![]));
    assert_eq!(parse_hex_bytes("0xabc"), None);
    assert_eq!(parse_hex_bytes("0xzz"), None);
}

#[test]
fn finish_login_settles_on_recovered_signer() {
    let a = address_of(&wallet(KEY_A));
    let b = address_of(&wallet(KEY_B));
    let mut auth = WalletAuthenticator::new();
    auth.start_login(&a, 5, 100);
    assert!(!signer_matches(&Ok(b.clone()), &a));
    assert!(!signer_matches(&Err(SignatureError::RecoveryFailed), &a));
    assert!(signer_matches(&Ok(a.clone()), &a));
    assert_eq!(auth.finish_login(&a, &Ok(b), 101), Err(AuthError::AuthenticationFailed));
    assert_eq!(
        auth.finish_login(&a, &Err(SignatureError::InvalidSignatureFormat), 101),
        Err(AuthError::AuthenticationFailed)
    );
    let s = auth.finish_login(&a, &Ok(a.clone()), 102).unwrap();
    assert!(s.is_valid_at(102));
    assert!(s.is_valid_at(102 + SESSION_TTL));
    assert!(!s.is_valid_at(103 + SESSION_TTL));
    assert!(!s.is_valid_at(101));
    assert_eq!(auth.finish_login(&a, &Ok(a.clone()), 103), Err(AuthError::ChallengeExpired));
}
