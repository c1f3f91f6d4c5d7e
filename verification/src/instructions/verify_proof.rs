//! Checking a notary's signature over a proof.

use crate::errors::ErrorCode;
use crate::pubkey::Pubkey;
use crate::state::config::{Config, NOTARY_COUNT};
use crate::utils::{ed25519_valid, verify_signature};
use vstd::prelude::*;

verus! {

/// The accounts of the instruction: the configuration, which is only read,
/// and the signing verifier.
#[derive(Debug)]
pub struct VerifyProof {
    pub config: Config,
    pub verifier: Pubkey,
}

/// Logged when a proof has been accepted.
#[derive(Clone, Copy, Debug, PartialEq, Eq)]
pub struct ProofVerified {
    pub verifier: Pubkey,
    pub notary_index: u8,
    pub timestamp: i64,
}

/// What the instruction answers once the signature has been checked: the
/// event if it is valid, `InvalidSignature` if it is not.
pub fn attest(signature_valid: bool, verifier: Pubkey, notary_index: u8, now: i64) -> (outcome:
    Result<ProofVerified, ErrorCode>)
    ensures
        signature_valid ==> outcome == Ok::<ProofVerified, ErrorCode>(
            ProofVerified { verifier, notary_index, timestamp: now },
        ),
        !signature_valid ==> outcome == Err::<ProofVerified, ErrorCode>(
            ErrorCode::InvalidSignature,
        ),
{
    if !signature_valid {
        return Err(ErrorCode::InvalidSignature);
    }
    Ok(ProofVerified { verifier, notary_index, timestamp: now })
}

/// Whether the notary selected by `notary_index` among `notary_pubkeys`
/// signed `proof_data` with `signature`.
pub open spec fn notary_signed(
    notary_pubkeys: Seq<Seq<u8>>,
    notary_index: u8,
    proof_data: Seq<u8>,
    signature: Seq<u8>,
) -> bool
    recommends
        notary_index < notary_pubkeys.len(),
{
    ed25519_valid(notary_pubkeys[notary_index as int], proof_data, signature)
}

/// Checks `signature` over `proof_data` against the configured notary key
/// at `notary_index`, and nothing else: no record changes. An index of
/// `NOTARY_COUNT` or more is refused before any signature is looked at.
pub fn handler(
    ctx: &VerifyProof,
    proof_data: Vec<u8>,
    signature: [u8; 64],
    notary_index: u8,
    now: i64,
) -> (outcome: Result<ProofVerified, ErrorCode>)
    requires
        ctx.config.wf(),
    ensures
        notary_index >= NOTARY_COUNT ==> outcome == Err::<ProofVerified, ErrorCode>(
            ErrorCode::InvalidNotaryIndex,
        ),
        notary_index < NOTARY_COUNT && !notary_signed(
            ctx.config@.notary_pubkeys,
            notary_index,
            proof_data@,
            signature@,
        ) ==> outcome == Err::<ProofVerified, ErrorCode>(ErrorCode::InvalidSignature),
        notary_index < NOTARY_COUNT && notary_signed(
            ctx.config@.notary_pubkeys,
            notary_index,
            proof_data@,
            signature@,
        ) ==> outcome == Ok::<ProofVerified, ErrorCode>(
            ProofVerified { verifier: ctx.verifier, notary_index, timestamp: now },
        ),
{
    if notary_index >= 3 {
        return Err(ErrorCode::InvalidNotaryIndex);
    }
    let slot: usize = notary_index.into();
    let notary_pubkey = ctx.config.notary_pubkeys[slot];
    let signature_valid = match verify_signature(proof_data.as_slice(), &signature, &notary_pubkey) {
        Ok(valid) => valid,
        Err(error) => {
            return Err(error);
        },
    };
    attest(signature_valid, ctx.verifier, notary_index, now)
}

} // verus!
