//! An identity-attestation registry: a ledger of per-owner, per-platform
//! identity records backed by notary-signed proofs, together with the
//! request logic of the notary service that signs those proofs.

pub mod address;
pub mod errors;
pub mod instructions;
pub mod laws;
pub mod notary;
pub mod pubkey;
pub mod registry;
pub mod state;
pub mod utils;

pub use registry::{
    initialize_config, register_identity, revoke_identity, unrevoked, update_metadata,
    verify_proof, Registry, RegistryView,
};
