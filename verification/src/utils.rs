//! Hashing and signature verification.

use crate::errors::ErrorCode;
use crate::pubkey::Pubkey;
use ed25519_dalek::{PublicKey, Signature};
use sha2::{Digest, Sha256};
use vstd::prelude::*;
use vstd::string::StringSliceAdditionalSpecFns;

verus! {

/// The SHA-256 digest of a byte sequence.
pub uninterp spec fn sha256_digest(data: Seq<u8>) -> Seq<u8>;

/// Whether `signature` is a valid Ed25519 signature over `message` under
/// `public_key`, by the strict rules: a key or signature that does not
/// decode, and a key or nonce point of small order, are not valid.
pub uninterp spec fn ed25519_valid(public_key: Seq<u8>, message: Seq<u8>, signature: Seq<u8>) -> bool;

/// Hashes `data` with `sha2::Sha256::digest`. Trusted: the thirty-two bytes
/// returned are the SHA-256 digest of `data`, a function of `data` alone.
#[verifier::external_body]
pub(crate) fn sha256(data: &[u8]) -> (digest: [u8; 32])
    ensures
        digest@ == sha256_digest(data@),
{
    Sha256::digest(data).into()
}

/// Checks a signature with `ed25519_dalek::PublicKey::verify_strict`, after
/// decoding the key with `PublicKey::from_bytes` and the signature with
/// `Signature::from_bytes`. Trusted: the answer is a function of the three
/// byte strings alone, and it is `false` where either decoding fails.
#[verifier::external_body]
fn ed25519_verify(public_key: &[u8; 32], message: &[u8], signature: &[u8; 64]) -> (valid: bool)
    ensures
        valid == ed25519_valid(public_key@, message@, signature@),
{
    match (PublicKey::from_bytes(public_key), Signature::from_bytes(signature)) {
        (Ok(key), Ok(decoded)) => key.verify_strict(message, &decoded).is_ok(),
        _ => false,
    }
}

/// Whether `signature` is the notary's valid Ed25519 signature over `data`
/// under `pubkey`. A mismatch is the answer `false`, never an error.
pub fn verify_signature(data: &[u8], signature: &[u8; 64], pubkey: &Pubkey) -> (outcome: Result<
    bool,
    ErrorCode,
>)
    ensures
        outcome == Ok::<bool, ErrorCode>(ed25519_valid(pubkey@, data@, signature@)),
{
    Ok(ed25519_verify(&pubkey.bytes, data, signature))
}

/// The SHA-256 digest of a username's UTF-8 bytes.
pub fn hash_username(username: &str) -> (hash: [u8; 32])
    ensures
        hash@ == sha256_digest(username.spec_bytes()),
{
    sha256(username.as_bytes())
}

} // verus!
