//! Identity records and the platforms they bind to.

use crate::errors::ErrorCode;
use crate::pubkey::Pubkey;
use vstd::prelude::*;

verus! {

/// The longest metadata, in bytes, that an identity may carry.
pub const MAX_METADATA_LEN: usize = 200;

/// The number of bytes that a text takes in UTF-8.
pub open spec fn byte_len(text: Seq<char>) -> nat {
    vstd::utf8::encode_utf8(text).len()
}

/// The external account kinds that an identity can be bound to.
#[derive(Clone, Copy, Debug, PartialEq, Eq, Structural)]
pub enum Platform {
    LinkedIn,
    GitHub,
    Twitter,
    Google,
}

impl Platform {
    /// The byte that stands for each platform.
    pub open spec fn tag(self) -> u8 {
        match self {
            Platform::LinkedIn => 0,
            Platform::GitHub => 1,
            Platform::Twitter => 2,
            Platform::Google => 3,
        }
    }

    /// The platform that a byte stands for, if any.
    pub open spec fn of_tag(value: u8) -> Option<Platform> {
        if value == 0 {
            Some(Platform::LinkedIn)
        } else if value == 1 {
            Some(Platform::GitHub)
        } else if value == 2 {
            Some(Platform::Twitter)
        } else if value == 3 {
            Some(Platform::Google)
        } else {
            None
        }
    }

    /// Reads a platform from its byte: 0 to 3 name the four platforms in
    /// order, every other byte is refused.
    pub fn from_u8(value: u8) -> (outcome: Result<Platform, ErrorCode>)
        ensures
            value < 4 ==> outcome == Ok::<Platform, ErrorCode>(Platform::of_tag(value).unwrap()),
            value >= 4 ==> outcome == Err::<Platform, ErrorCode>(ErrorCode::InvalidPlatform),
            outcome matches Ok(platform) ==> platform.tag() == value,
    {
        match value {
            0 => Ok(Platform::LinkedIn),
            1 => Ok(Platform::GitHub),
            2 => Ok(Platform::Twitter),
            3 => Ok(Platform::Google),
            _ => Err(ErrorCode::InvalidPlatform),
        }
    }

    /// The byte that stands for this platform.
    pub fn as_u8(&self) -> (value: u8)
        ensures
            value == self.tag(),
            value < 4,
    {
        match self {
            Platform::LinkedIn => 0,
            Platform::GitHub => 1,
            Platform::Twitter => 2,
            Platform::Google => 3,
        }
    }
}

/// Reading a platform's byte gives the platform back, and a byte under 4 is
/// the byte of the platform it names.
pub proof fn lemma_platform_tag_round_trip(platform: Platform, value: u8)
    ensures
        Platform::of_tag(platform.tag()) == Some(platform),
        platform.tag() < 4,
        value < 4 ==> Platform::of_tag(value).is_some() && Platform::of_tag(value).unwrap().tag()
            == value,
        value >= 4 ==> Platform::of_tag(value).is_none(),
{
}

/// One owner's attested account on one platform.
#[derive(Debug, PartialEq, Eq)]
pub struct Identity {
    pub owner: Pubkey,
    pub platform: Platform,
    pub proof_hash: [u8; 32],
    pub username_hash: [u8; 32],
    pub metadata: String,
    pub verified_at: i64,
    pub expires_at: i64,
    pub revoked: bool,
    pub verification_count: u64,
    pub bump: u8,
}

/// What an identity record holds, as plain mathematical values.
pub ghost struct IdentityView {
    pub owner: Seq<u8>,
    pub platform: Platform,
    pub proof_hash: Seq<u8>,
    pub username_hash: Seq<u8>,
    pub metadata: Seq<char>,
    pub verified_at: int,
    pub expires_at: int,
    pub revoked: bool,
    pub verification_count: nat,
    pub bump: u8,
}

impl View for Identity {
    type V = IdentityView;

    open spec fn view(&self) -> IdentityView {
        IdentityView {
            owner: self.owner@,
            platform: self.platform,
            proof_hash: self.proof_hash@,
            username_hash: self.username_hash@,
            metadata: self.metadata@,
            verified_at: self.verified_at as int,
            expires_at: self.expires_at as int,
            revoked: self.revoked,
            verification_count: self.verification_count as nat,
            bump: self.bump,
        }
    }
}

impl Identity {
    /// The metadata fits in `MAX_METADATA_LEN` bytes.
    pub open spec fn wf(&self) -> bool {
        byte_len(self.metadata@) <= MAX_METADATA_LEN
    }

    /// The record that a freshly created account holds before anything is
    /// written to it: every field zero or empty.
    pub fn blank() -> (identity: Identity)
        ensures
            identity.wf(),
            identity@ == (IdentityView {
                owner: Seq::new(32, |i: int| 0u8),
                platform: Platform::LinkedIn,
                proof_hash: Seq::new(32, |i: int| 0u8),
                username_hash: Seq::new(32, |i: int| 0u8),
                metadata: Seq::<char>::empty(),
                verified_at: 0,
                expires_at: 0,
                revoked: false,
                verification_count: 0,
                bump: 0,
            }),
    {
        let zero = [0u8; 32];
        let identity = Identity {
            owner: Pubkey::new_from_array(zero),
            platform: Platform::LinkedIn,
            proof_hash: zero,
            username_hash: zero,
            metadata: String::new(),
            verified_at: 0,
            expires_at: 0,
            revoked: false,
            verification_count: 0,
            bump: 0,
        };
        proof {
            assert(zero@ =~= Seq::new(32, |i: int| 0u8));
            assert(vstd::utf8::encode_utf8(Seq::<char>::empty()).len() == 0) by {
                reveal_with_fuel(vstd::utf8::encode_utf8, 1);
            }
        }
        identity
    }
}

impl Clone for Identity {
    fn clone(&self) -> (copy: Identity)
        ensures
            copy@ == self@,
            copy.wf() == self.wf(),
    {
        Identity {
            owner: self.owner,
            platform: self.platform,
            proof_hash: self.proof_hash,
            username_hash: self.username_hash,
            metadata: self.metadata.clone(),
            verified_at: self.verified_at,
            expires_at: self.expires_at,
            revoked: self.revoked,
            verification_count: self.verification_count,
            bump: self.bump,
        }
    }
}

} // verus!
