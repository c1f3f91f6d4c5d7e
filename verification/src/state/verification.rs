//! The audit record of one accepted proof.

use crate::pubkey::Pubkey;
use vstd::prelude::*;

verus! {

/// Who verified which proof for which identity, under which signature.
#[derive(Clone, Copy, Debug, PartialEq, Eq)]
pub struct Verification {
    pub identity: Pubkey,
    pub verifier: Pubkey,
    pub proof_hash: [u8; 32],
    pub notary_signature: [u8; 64],
    pub verified_at: i64,
    pub bump: u8,
}

} // verus!
