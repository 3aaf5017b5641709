//! Recovery of the signing address of a personal-message signature.
use vstd::prelude::*;
use crate::address::{WalletAddress, ADDRESS_LEN};

verus! {

/// Number of bytes in a signature: `r` (32), `s` (32) and the recovery byte `v`.
pub const SIGNATURE_LEN: usize = 65;

/// The address that signed `message` under the personal-message scheme
/// (prefix, length, message, Keccak-256, then ECDSA recovery), if the curve
/// point can be recovered.
pub uninterp spec fn personal_signer(message: Seq<u8>, signature: Seq<u8>) -> Option<Seq<u8>>;

/// Why no signer could be recovered.
#[derive(Debug, Clone, Copy, PartialEq, Eq, Structural)]
pub enum SignatureError {
    /// Not 65 bytes, or a recovery byte other than 0, 1, 27 or 28.
    InvalidSignatureFormat,
    /// The curve point could not be recovered.
    RecoveryFailed,
}

/// A signature of the right length whose recovery byte is in range.
pub open spec fn is_signature_format(signature: Seq<u8>) -> bool {
    &&& signature.len() == SIGNATURE_LEN
    &&& {
        let v = signature[64];
        v == 0 || v == 1 || v == 27 || v == 28
    }
}

/// What recovering the signer of `message` from `signature` yields.
pub open spec fn recovery(message: Seq<u8>, signature: Seq<u8>) -> Result<Seq<u8>, SignatureError> {
    if !is_signature_format(signature) {
        Err(SignatureError::InvalidSignatureFormat)
    } else {
        match personal_signer(message, signature) {
            Some(a) => Ok(a),
            None => Err(SignatureError::RecoveryFailed),
        }
    }
}

/// Relies on ethers' `Signature::try_from(&[u8])` (65 bytes: r, s, v) and
/// `Signature::recover`, which hashes the message as a personal message and
/// recovers the 20-byte address, or fails.
#[verifier::external_body]
fn recover_personal(data: &Vec<u8>, signature: &Vec<u8>) -> (r: Option<Vec<u8>>)
    requires
        signature@.len() == SIGNATURE_LEN,
    ensures
        r matches Some(a) ==> personal_signer(data@, signature@) == Some(a@) && a@.len() == ADDRESS_LEN,
        r is None ==> personal_signer(data@, signature@) is None,
{
    let sig = ethers::types::Signature::try_from(signature.as_slice()).ok()?;
    sig.recover(data.as_slice()).ok().map(|a| a.as_bytes().to_vec())
}

/// Recovers the address that signed `message`.
pub fn recover_signer(message: &Vec<u8>, signature: &Vec<u8>) -> (r: Result<WalletAddress, SignatureError>)
    ensures
        r matches Ok(a) ==> a.wf() && recovery(message@, signature@) == Ok::<Seq<u8>, SignatureError>(a@),
        r matches Err(e) ==> recovery(message@, signature@) == Err::<Seq<u8>, SignatureError>(e),
{
    if signature.len() != SIGNATURE_LEN {
        return Err(SignatureError::InvalidSignatureFormat);
    }
    let v = signature[64];
    if !(v == 0 || v == 1 || v == 27 || v == 28) {
        return Err(SignatureError::InvalidSignatureFormat);
    }
    match recover_personal(message, signature) {
        Some(bytes) => Ok(WalletAddress { bytes }),
        None => Err(SignatureError::RecoveryFailed),
    }
}

/// Whether a recovery outcome names the claimed address.
pub fn signer_matches(recovered: &Result<WalletAddress, SignatureError>, claimed: &WalletAddress) -> (r: bool)
    ensures
        r == (recovered matches Ok(a) && a@ == claimed@),
{
    match recovered {
        Ok(a) => a.equals(claimed),
        Err(_) => false,
    }
}

/// Whether `claimed` signed `message`; a mismatch or a failed recovery is
/// `false`, never an error.
pub fn verify(message: &Vec<u8>, signature: &Vec<u8>, claimed: &WalletAddress) -> (r: bool)
    ensures
        r == (recovery(message@, signature@) == Ok::<Seq<u8>, SignatureError>(claimed@)),
{
    let recovered = recover_signer(message, signature);
    signer_matches(&recovered, claimed)
}

/// Recovery is a function of the message and the signature: equal inputs
/// recover the same address, or fail in the same way.
pub proof fn recovery_is_deterministic(m1: Seq<u8>, s1: Seq<u8>, m2: Seq<u8>, s2: Seq<u8>)
    requires
        m1 == m2,
        s1 == s2,
    ensures
        recovery(m1, s1) == recovery(m2, s2),
{
}

} // verus!
