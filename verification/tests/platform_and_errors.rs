use solanaid::errors::{ErrorCode, TransactionError};
use solanaid::state::{Platform, MAX_METADATA_LEN, NOTARY_COUNT, VALIDITY_PERIOD};

#[test]
fn from_u8_maps_the_four_platforms_in_order() {
    assert_eq!(Platform::from_u8(0), Ok(Platform::LinkedIn));
    assert_eq!(Platform::from_u8(1), Ok(Platform::GitHub));
    assert_eq!(Platform::from_u8(2), Ok(Platform::Twitter));
    assert_eq!(Platform::from_u8(3), Ok(Platform::Google));
}

#[test]
fn from_u8_refuses_every_byte_from_four_up() {
    for value in 4..=255u8 {
        assert_eq!(Platform::from_u8(value), Err(ErrorCode::InvalidPlatform));
    }
}

#[test]
fn as_u8_gives_back_the_byte_that_from_u8_read() {
    for value in 0..4u8 {
        assert_eq!(Platform::from_u8(value).unwrap().as_u8(), value);
    }
}

#[test]
fn limits_have_their_documented_values() {
    assert_eq!(VALIDITY_PERIOD, 365 * 24 * 60 * 60);
    assert_eq!(VALIDITY_PERIOD, 31_536_000);
    assert_eq!(MAX_METADATA_LEN, 200);
    assert_eq!(NOTARY_COUNT, 3);
}

#[test]
fn every_error_has_its_message() {
    assert_eq!(ErrorCode::InvalidPlatform.message(), "Invalid platform type");
    assert_eq!(ErrorCode::MetadataTooLong.message(), "Metadata too long (max 200 characters)");
    assert_eq!(ErrorCode::InvalidNotaryCount.message(), "Invalid notary count (must be 3)");
    assert_eq!(ErrorCode::InvalidNotaryIndex.message(), "Invalid notary index");
    assert_eq!(ErrorCode::InvalidSignature.message(), "Invalid signature");
    assert_eq!(ErrorCode::IdentityExists.message(), "Identity already exists");
    assert_eq!(ErrorCode::IdentityExpired.message(), "Identity expired");
    assert_eq!(ErrorCode::IdentityRevoked.message(), "Identity revoked");
    assert_eq!(ErrorCode::Unauthorized.message(), "Unauthorized");
}

#[test]
fn transaction_errors_are_told_apart() {
    assert_ne!(TransactionError::AddressOccupied, TransactionError::AccountMissing);
    assert_ne!(
        TransactionError::Rejected(ErrorCode::Unauthorized),
        TransactionError::Rejected(ErrorCode::IdentityRevoked)
    );
    assert_eq!(
        TransactionError::Rejected(ErrorCode::InvalidPlatform),
        TransactionError::Rejected(ErrorCode::InvalidPlatform)
    );
}
