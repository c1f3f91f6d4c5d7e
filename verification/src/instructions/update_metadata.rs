//! Replacing an identity's metadata.

use crate::errors::ErrorCode;
use crate::pubkey::Pubkey;
use crate::state::identity::{byte_len, Identity, IdentityView, Platform, MAX_METADATA_LEN};
use vstd::prelude::*;

verus! {

/// The accounts of the instruction: the identity record and the signer who
/// claims to own it.
#[derive(Debug)]
pub struct UpdateMetadata {
    pub identity: Identity,
    pub owner: Pubkey,
}

/// Logged when an identity's metadata has been replaced.
#[derive(Debug, PartialEq, Eq)]
pub struct MetadataUpdated {
    pub owner: Pubkey,
    pub platform: Platform,
    pub new_metadata: String,
    pub updated_at: i64,
}

/// Why an update is refused, if it is: too long a metadata comes first,
/// then a revoked identity, then a signer who is not the owner.
pub open spec fn rejection(identity: IdentityView, signer: Seq<u8>, new_metadata: Seq<char>)
    -> Option<ErrorCode> {
    if byte_len(new_metadata) > MAX_METADATA_LEN {
        Some(ErrorCode::MetadataTooLong)
    } else if identity.revoked {
        Some(ErrorCode::IdentityRevoked)
    } else if identity.owner != signer {
        Some(ErrorCode::Unauthorized)
    } else {
        None
    }
}

/// The identity with its metadata replaced, nothing else touched.
pub open spec fn updated(identity: IdentityView, new_metadata: Seq<char>) -> IdentityView {
    IdentityView { metadata: new_metadata, ..identity }
}

/// Replaces the metadata of the identity in place. Times, counts and the
/// revocation flag stay as they are.
pub fn handler(ctx: &mut UpdateMetadata, new_metadata: String, now: i64) -> (outcome: Result<
    MetadataUpdated,
    ErrorCode,
>)
    ensures
        rejection(old(ctx).identity@, old(ctx).owner@, new_metadata@) matches Some(error)
            ==> outcome == Err::<MetadataUpdated, ErrorCode>(error) && *final(ctx) == *old(ctx),
        rejection(old(ctx).identity@, old(ctx).owner@, new_metadata@).is_none() ==> {
            &&& outcome == Ok::<MetadataUpdated, ErrorCode>(
                MetadataUpdated {
                    owner: old(ctx).identity.owner,
                    platform: old(ctx).identity.platform,
                    new_metadata,
                    updated_at: now,
                },
            )
            &&& final(ctx).identity@ == updated(old(ctx).identity@, new_metadata@)
            &&& final(ctx).identity.wf()
            &&& final(ctx).owner == old(ctx).owner
        },
{
    if new_metadata.as_str().as_bytes().len() > MAX_METADATA_LEN {
        return Err(ErrorCode::MetadataTooLong);
    }
    if ctx.identity.revoked {
        return Err(ErrorCode::IdentityRevoked);
    }
    if !(ctx.identity.owner == ctx.owner) {
        return Err(ErrorCode::Unauthorized);
    }
    ctx.identity.metadata = new_metadata.clone();

    Ok(
        MetadataUpdated {
            owner: ctx.identity.owner,
            platform: ctx.identity.platform,
            new_metadata,
            updated_at: now,
        },
    )
}

} // verus!
