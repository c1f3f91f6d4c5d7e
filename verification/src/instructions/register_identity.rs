//! Registering an identity.

use crate::errors::ErrorCode;
use crate::pubkey::Pubkey;
use crate::state::config::{Config, ConfigView};
use crate::state::identity::{byte_len, Identity, IdentityView, Platform, MAX_METADATA_LEN};
use vstd::prelude::*;

verus! {

/// The accounts of the instruction: the configuration, the freshly created
/// identity record with the salt of its address, and the signing owner.
#[derive(Debug)]
pub struct RegisterIdentity {
    pub config: Config,
    pub identity: Identity,
    pub owner: Pubkey,
    pub bump: u8,
}

/// Logged when an identity has been registered.
#[derive(Clone, Copy, Debug, PartialEq, Eq)]
pub struct IdentityRegistered {
    pub owner: Pubkey,
    pub platform: Platform,
    pub proof_hash: [u8; 32],
    pub verified_at: i64,
}

/// Why a registration is refused, if it is: too long a metadata comes
/// before an unknown platform.
pub open spec fn rejection(platform: u8, metadata: Seq<char>) -> Option<ErrorCode> {
    if byte_len(metadata) > MAX_METADATA_LEN {
        Some(ErrorCode::MetadataTooLong)
    } else if platform >= 4 {
        Some(ErrorCode::InvalidPlatform)
    } else {
        None
    }
}

/// The record that a registration at time `now` writes under a validity
/// period of `validity_period` seconds.
pub open spec fn registered(
    owner: Seq<u8>,
    platform: Platform,
    proof_hash: Seq<u8>,
    username_hash: Seq<u8>,
    metadata: Seq<char>,
    now: int,
    validity_period: int,
    bump: u8,
) -> IdentityView {
    IdentityView {
        owner,
        platform,
        proof_hash,
        username_hash,
        metadata,
        verified_at: now,
        expires_at: now + validity_period,
        revoked: false,
        verification_count: 1,
        bump,
    }
}

/// The configuration after one more registration: both counters one
/// higher.
pub open spec fn counted(config: ConfigView) -> ConfigView {
    ConfigView {
        total_identities: config.total_identities + 1,
        total_verifications: config.total_verifications + 1,
        ..config
    }
}

/// Writes the identity of `ctx.owner` on the platform with byte `platform`,
/// verified at `now`, and counts it in the configuration. The expiry and
/// the two counters must be representable.
pub fn handler(
    ctx: &mut RegisterIdentity,
    platform: u8,
    proof_hash: [u8; 32],
    username_hash: [u8; 32],
    metadata: String,
    now: i64,
) -> (outcome: Result<IdentityRegistered, ErrorCode>)
    requires
        rejection(platform, metadata@).is_none() ==> {
            &&& i64::MIN <= now + old(ctx).config.validity_period <= i64::MAX
            &&& old(ctx).config.total_identities < u64::MAX
            &&& old(ctx).config.total_verifications < u64::MAX
        },
    ensures
        rejection(platform, metadata@) matches Some(error) ==> outcome == Err::<
            IdentityRegistered,
            ErrorCode,
        >(error) && *final(ctx) == *old(ctx),
        rejection(platform, metadata@).is_none() ==> {
            &&& outcome == Ok::<IdentityRegistered, ErrorCode>(
                IdentityRegistered {
                    owner: old(ctx).owner,
                    platform: Platform::of_tag(platform).unwrap(),
                    proof_hash,
                    verified_at: now,
                },
            )
            &&& final(ctx).identity@ == registered(
                old(ctx).owner@,
                Platform::of_tag(platform).unwrap(),
                proof_hash@,
                username_hash@,
                metadata@,
                now as int,
                old(ctx).config.validity_period as int,
                old(ctx).bump,
            )
            &&& final(ctx).identity.wf()
            &&& final(ctx).config@ == counted(old(ctx).config@)
            &&& final(ctx).config.notary_pubkeys == old(ctx).config.notary_pubkeys
            &&& final(ctx).owner == old(ctx).owner
            &&& final(ctx).bump == old(ctx).bump
        },
{
    if metadata.as_str().as_bytes().len() > MAX_METADATA_LEN {
        return Err(ErrorCode::MetadataTooLong);
    }
    let platform_enum = match Platform::from_u8(platform) {
        Ok(known) => known,
        Err(error) => {
            return Err(error);
        },
    };
    ctx.identity.owner = ctx.owner;
    ctx.identity.platform = platform_enum;
    ctx.identity.proof_hash = proof_hash;
    ctx.identity.username_hash = username_hash;
    ctx.identity.metadata = metadata;
    ctx.identity.verified_at = now;
    ctx.identity.expires_at = now + ctx.config.validity_period;
    ctx.identity.revoked = false;
    ctx.identity.verification_count = 1;
    ctx.identity.bump = ctx.bump;

    ctx.config.total_identities += 1;
    ctx.config.total_verifications += 1;

    Ok(
        IdentityRegistered {
            owner: ctx.identity.owner,
            platform: platform_enum,
            proof_hash,
            verified_at: ctx.identity.verified_at,
        },
    )
}

} // verus!
