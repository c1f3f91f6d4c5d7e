//! Revoking an identity.

use crate::errors::ErrorCode;
use crate::pubkey::Pubkey;
use crate::state::config::{Config, ConfigView};
use crate::state::identity::{Identity, IdentityView, Platform};
use vstd::prelude::*;

verus! {

/// The accounts of the instruction: the configuration, the identity record
/// and the signer who claims to own it.
#[derive(Debug)]
pub struct RevokeIdentity {
    pub config: Config,
    pub identity: Identity,
    pub owner: Pubkey,
}

/// Logged when an identity has been revoked.
#[derive(Clone, Copy, Debug, PartialEq, Eq)]
pub struct IdentityRevoked {
    pub owner: Pubkey,
    pub platform: Platform,
    pub revoked_at: i64,
}

/// Why a revocation is refused, if it is: an identity that is already
/// revoked comes before a signer who is not its owner.
pub open spec fn rejection(identity: IdentityView, signer: Seq<u8>) -> Option<ErrorCode> {
    if identity.revoked {
        Some(ErrorCode::IdentityRevoked)
    } else if identity.owner != signer {
        Some(ErrorCode::Unauthorized)
    } else {
        None
    }
}

/// The identity once revoked: the flag set, nothing else touched.
pub open spec fn revoked(identity: IdentityView) -> IdentityView {
    IdentityView { revoked: true, ..identity }
}

/// The configuration after a revocation: one verification fewer.
pub open spec fn uncounted(config: ConfigView) -> ConfigView
    recommends
        config.total_verifications >= 1,
{
    ConfigView { total_verifications: (config.total_verifications - 1) as nat, ..config }
}

/// Marks the identity revoked and takes it out of the count of standing
/// verifications, which must not be zero where the revocation is accepted.
pub fn handler(ctx: &mut RevokeIdentity, now: i64) -> (outcome: Result<IdentityRevoked, ErrorCode>)
    requires
        rejection(old(ctx).identity@, old(ctx).owner@).is_none() ==> old(ctx).config.total_verifications >= 1,
    ensures
        rejection(old(ctx).identity@, old(ctx).owner@) matches Some(error) ==> outcome == Err::<
            IdentityRevoked,
            ErrorCode,
        >(error) && *final(ctx) == *old(ctx),
        rejection(old(ctx).identity@, old(ctx).owner@).is_none() ==> {
            &&& outcome == Ok::<IdentityRevoked, ErrorCode>(
                IdentityRevoked {
                    owner: old(ctx).identity.owner,
                    platform: old(ctx).identity.platform,
                    revoked_at: now,
                },
            )
            &&& final(ctx).identity@ == revoked(old(ctx).identity@)
            &&& final(ctx).identity.wf() == old(ctx).identity.wf()
            &&& final(ctx).config@ == uncounted(old(ctx).config@)
            &&& final(ctx).config.notary_pubkeys == old(ctx).config.notary_pubkeys
            &&& final(ctx).owner == old(ctx).owner
        },
{
    if ctx.identity.revoked {
        return Err(ErrorCode::IdentityRevoked);
    }
    if !(ctx.identity.owner == ctx.owner) {
        return Err(ErrorCode::Unauthorized);
    }
    ctx.identity.revoked = true;
    ctx.config.total_verifications -= 1;

    Ok(
        IdentityRevoked {
            owner: ctx.identity.owner,
            platform: ctx.identity.platform,
            revoked_at: now,
        },
    )
}

} // verus!
