//! The error taxonomy of the registry.

use vstd::prelude::*;

verus! {

/// Why an instruction rejected its input or the state it met.
#[derive(Clone, Copy, Debug, PartialEq, Eq, Structural)]
pub enum ErrorCode {
    /// The platform byte names none of the supported platforms.
    InvalidPlatform,
    /// The metadata is longer than `MAX_METADATA_LEN` bytes.
    MetadataTooLong,
    /// The notary key list does not hold exactly `NOTARY_COUNT` keys.
    InvalidNotaryCount,
    /// The notary index selects none of the configured keys.
    InvalidNotaryIndex,
    /// The notary's signature does not verify over the proof.
    InvalidSignature,
    /// An identity is already registered for this owner and platform.
    IdentityExists,
    /// The identity's validity period has run out.
    IdentityExpired,
    /// The identity has been revoked.
    IdentityRevoked,
    /// The signer is not the owner of the record.
    Unauthorized,
}

/// Why a transaction against the ledger failed. Nothing is committed in
/// either case.
#[derive(Clone, Copy, Debug, PartialEq, Eq, Structural)]
pub enum TransactionError {
    /// A record that must be created already exists at its address.
    AddressOccupied,
    /// A record that the instruction reads does not exist.
    AccountMissing,
    /// The accounts were found and the instruction itself refused.
    Rejected(ErrorCode),
}

impl ErrorCode {
    /// The text of each error, as a sequence of characters.
    pub open spec fn message_text(self) -> Seq<char> {
        match self {
            ErrorCode::InvalidPlatform => "Invalid platform type"@,
            ErrorCode::MetadataTooLong => "Metadata too long (max 200 characters)"@,
            ErrorCode::InvalidNotaryCount => "Invalid notary count (must be 3)"@,
            ErrorCode::InvalidNotaryIndex => "Invalid notary index"@,
            ErrorCode::InvalidSignature => "Invalid signature"@,
            ErrorCode::IdentityExists => "Identity already exists"@,
            ErrorCode::IdentityExpired => "Identity expired"@,
            ErrorCode::IdentityRevoked => "Identity revoked"@,
            ErrorCode::Unauthorized => "Unauthorized"@,
        }
    }

    /// The human-readable message of this error.
    pub fn message(&self) -> (text: &'static str)
        ensures
            text@ == self.message_text(),
    {
        match self {
            ErrorCode::InvalidPlatform => "Invalid platform type",
            ErrorCode::MetadataTooLong => "Metadata too long (max 200 characters)",
            ErrorCode::InvalidNotaryCount => "Invalid notary count (must be 3)",
            ErrorCode::InvalidNotaryIndex => "Invalid notary index",
            ErrorCode::InvalidSignature => "Invalid signature",
            ErrorCode::IdentityExists => "Identity already exists",
            ErrorCode::IdentityExpired => "Identity expired",
            ErrorCode::IdentityRevoked => "Identity revoked",
            ErrorCode::Unauthorized => "Unauthorized",
        }
    }
}

} // verus!
