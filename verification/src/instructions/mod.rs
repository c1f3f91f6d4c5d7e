//! The five instructions of the registry, each over the accounts it
//! touches.

pub mod initialize;
pub mod register_identity;
pub mod revoke_identity;
pub mod update_metadata;
pub mod verify_proof;

pub use initialize::{ConfigInitialized, InitializeConfig};
pub use register_identity::{IdentityRegistered, RegisterIdentity};
pub use revoke_identity::{IdentityRevoked, RevokeIdentity};
pub use update_metadata::{MetadataUpdated, UpdateMetadata};
pub use verify_proof::{ProofVerified, VerifyProof};
