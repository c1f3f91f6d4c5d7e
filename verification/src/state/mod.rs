//! The records that the ledger holds.

pub mod config;
pub mod identity;
pub mod verification;

pub use config::{keys_view, Config, ConfigView, NOTARY_COUNT, VALIDITY_PERIOD};
pub use identity::{byte_len, Identity, IdentityView, Platform, MAX_METADATA_LEN};
pub use verification::Verification;
