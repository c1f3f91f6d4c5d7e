//! Creating the configuration record.

use crate::errors::ErrorCode;
use crate::pubkey::Pubkey;
use crate::state::config::{keys_view, Config, ConfigView, NOTARY_COUNT, VALIDITY_PERIOD};
use vstd::prelude::*;

verus! {

/// The accounts of the instruction: the freshly created configuration
/// record with the salt of its address, and the signer who becomes its
/// authority.
#[derive(Debug)]
pub struct InitializeConfig {
    pub config: Config,
    pub authority: Pubkey,
    pub bump: u8,
}

/// Logged when the configuration has been written.
#[derive(Clone, Copy, Debug, PartialEq, Eq)]
pub struct ConfigInitialized {
    pub authority: Pubkey,
    pub notary_count: u8,
}

/// The configuration that initialization writes: the given authority and
/// notary keys, both counters at zero, and the standard validity period.
pub open spec fn initial_config(authority: Seq<u8>, notary_pubkeys: Seq<Seq<u8>>, bump: u8)
    -> ConfigView {
    ConfigView {
        authority,
        notary_pubkeys,
        total_identities: 0,
        total_verifications: 0,
        validity_period: VALIDITY_PERIOD as int,
        bump,
    }
}

/// Writes the configuration. The key list must hold exactly `NOTARY_COUNT`
/// keys, whose order is kept: a notary is later selected by its index.
pub fn handler(ctx: &mut InitializeConfig, notary_pubkeys: Vec<Pubkey>) -> (outcome: Result<
    ConfigInitialized,
    ErrorCode,
>)
    ensures
        notary_pubkeys@.len() != NOTARY_COUNT ==> outcome == Err::<ConfigInitialized, ErrorCode>(
            ErrorCode::InvalidNotaryCount,
        ) && *final(ctx) == *old(ctx),
        notary_pubkeys@.len() == NOTARY_COUNT ==> outcome == Ok::<ConfigInitialized, ErrorCode>(
            ConfigInitialized { authority: old(ctx).authority, notary_count: 3 },
        ) && final(ctx).config@ == initial_config(
            old(ctx).authority@,
            keys_view(notary_pubkeys@),
            old(ctx).bump,
        ) && final(ctx).config.wf() && final(ctx).authority == old(ctx).authority && final(ctx).bump == old(ctx).bump,
{
    if notary_pubkeys.len() != NOTARY_COUNT {
        return Err(ErrorCode::InvalidNotaryCount);
    }
    ctx.config.authority = ctx.authority;
    ctx.config.notary_pubkeys = notary_pubkeys;
    ctx.config.total_identities = 0;
    ctx.config.total_verifications = 0;
    ctx.config.validity_period = VALIDITY_PERIOD;
    ctx.config.bump = ctx.bump;
    Ok(ConfigInitialized { authority: ctx.config.authority, notary_count: 3 })
}

} // verus!
