use solanaid::errors::ErrorCode;
use solanaid::instructions::initialize::{ConfigInitialized, InitializeConfig};
use solanaid::instructions::register_identity::{IdentityRegistered, RegisterIdentity};
use solanaid::instructions::revoke_identity::{IdentityRevoked, RevokeIdentity};
use solanaid::instructions::update_metadata::{MetadataUpdated, UpdateMetadata};
use solanaid::instructions::verify_proof::{attest, ProofVerified, VerifyProof};
use solanaid::instructions::{
    initialize, register_identity, revoke_identity, update_metadata, verify_proof,
};
use solanaid::pubkey::Pubkey;
use solanaid::state::{Config, Identity, Platform, Verification};

const PUBLIC_1: &str = "d75a980182b10ab7d54bfed3c964073a0ee172f3daa62325af021a68f707511a";
const SIGNATURE_1: &str = "e5564300c360ac729086e2cc806e828a84877f1eb8e5d974d873e065224901555fb8821590a33bacc61e39701cf9b46bd25bf5f0595bbe24655141438e7a100b";
const PUBLIC_2: &str = "3d4017c3e843895a92b70aa74d1b7ebc9c982ccf2ec4968cc0cd55f12af4660c";
const SIGNATURE_2: &str = "92a009a9f0d4cab8720e820b5f642540a2b27b5416503f8fb3762223ebdb69da085ac1e43e15996e458f3613d0f11d8c387b2eaeb4302aeeb00d291612bb0c00";
const PUBLIC_3: &str = "fc51cd8e6218a1a38da47ed00230f0580816ed13ba3303ac5deb911548908025";
const SIGNATURE_3: &str = "6291d657deec24024827e69c3abe01a30ce548a284743a445e3680d7db5ac3ac18ff9b538d16f290ae67f760984dc6594a7c15e9716ed28dc027beceea1ec40a";

fn key(text: &str) -> Pubkey {
    let mut out = [0u8; 32];
    out.copy_from_slice(&hex::decode(text).unwrap());
    Pubkey::new_from_array(out)
}

fn signature(text: &str) -> [u8; 64] {
    let mut out = [0u8; 64];
    out.copy_from_slice(&hex::decode(text).unwrap());
    out
}

fn who(byte: u8) -> Pubkey {
    Pubkey::new_from_array([byte; 32])
}

fn config(total_identities: u64, total_verifications: u64) -> Config {
    Config {
        authority: who(9),
        notary_pubkeys: vec![key(PUBLIC_1), key(PUBLIC_2), key(PUBLIC_3)],
        total_identities,
        total_verifications,
        validity_period: 31_536_000,
        bump: 254,
    }
}

fn identity(owner: Pubkey, revoked: bool) -> Identity {
    Identity {
        owner,
        platform: Platform::Twitter,
        proof_hash: [3u8; 32],
        username_hash: [4u8; 32],
        metadata: "first".to_string(),
        verified_at: 1_000,
        expires_at: 31_537_000,
        revoked,
        verification_count: 1,
        bump: 253,
    }
}

#[test]
fn blank_records_are_zero() {
    let identity = Identity::blank();
    assert_eq!(identity.owner, who(0));
    assert_eq!(identity.platform, Platform::LinkedIn);
    assert_eq!(identity.proof_hash, [0u8; 32]);
    assert_eq!(identity.username_hash, [0u8; 32]);
    assert_eq!(identity.metadata, "");
    assert_eq!(identity.verified_at, 0);
    assert_eq!(identity.expires_at, 0);
    assert!(!identity.revoked);
    assert_eq!(identity.verification_count, 0);
    assert_eq!(identity.bump, 0);
    let config = Config::blank();
    assert_eq!(config.authority, who(0));
    assert!(config.notary_pubkeys.is_empty());
    assert_eq!(config.total_identities, 0);
    assert_eq!(config.total_verifications, 0);
    assert_eq!(config.validity_period, 0);
    assert_eq!(config.bump, 0);
}

#[test]
fn clones_hold_what_the_records_hold() {
    let record = identity(who(1), true);
    assert_eq!(record.clone(), record);
    let record = config(5, 4);
    assert_eq!(record.clone(), record);
}

#[test]
fn verification_records_hold_their_fields() {
    let record = Verification {
        identity: who(1),
        verifier: who(2),
        proof_hash: [5u8; 32],
        notary_signature: [6u8; 64],
        verified_at: 77,
        bump: 255,
    };
    assert_eq!(record.identity, who(1));
    assert_eq!(record.verifier, who(2));
    assert_eq!(record.proof_hash, [5u8; 32]);
    assert_eq!(record.notary_signature, [6u8; 64]);
    assert_eq!(record.verified_at, 77);
    assert_eq!(record.bump, 255);
    assert_eq!(record, record.clone());
}

#[test]
fn initialize_writes_the_configuration() {
    let mut ctx = InitializeConfig { config: Config::blank(), authority: who(9), bump: 254 };
    let outcome = initialize::handler(&mut ctx, vec![who(1), who(2), who(3)]);
    assert_eq!(outcome, Ok(ConfigInitialized { authority: who(9), notary_count: 3 }));
    assert_eq!(
        ctx.config,
        Config {
            authority: who(9),
            notary_pubkeys: vec![who(1), who(2), who(3)],
            total_identities: 0,
            total_verifications: 0,
            validity_period: 31_536_000,
            bump: 254,
        }
    );
}

#[test]
fn initialize_keeps_the_order_of_the_keys() {
    let mut ctx = InitializeConfig { config: Config::blank(), authority: who(9), bump: 0 };
    initialize::handler(&mut ctx, vec![who(3), who(1), who(2)]).unwrap();
    assert_eq!(ctx.config.notary_pubkeys, vec![who(3), who(1), who(2)]);
}

#[test]
fn initialize_refuses_any_other_number_of_keys() {
    for count in [0usize, 1, 2, 4, 5, 10] {
        let mut ctx = InitializeConfig { config: Config::blank(), authority: who(9), bump: 254 };
        let outcome = initialize::handler(&mut ctx, vec![who(1); count]);
        assert_eq!(outcome, Err(ErrorCode::InvalidNotaryCount));
        assert_eq!(ctx.config, Config::blank());
        assert_eq!(ctx.authority, who(9));
        assert_eq!(ctx.bump, 254);
    }
}

#[test]
fn register_writes_the_identity_and_counts_it() {
    let mut ctx = RegisterIdentity {
        config: config(10, 7),
        identity: Identity::blank(),
        owner: who(1),
        bump: 252,
    };
    let outcome = register_identity::handler(
        &mut ctx,
        1,
        [3u8; 32],
        [4u8; 32],
        "hi".to_string(),
        1_700_000_000,
    );
    assert_eq!(
        outcome,
        Ok(IdentityRegistered {
            owner: who(1),
            platform: Platform::GitHub,
            proof_hash: [3u8; 32],
            verified_at: 1_700_000_000,
        })
    );
    assert_eq!(
        ctx.identity,
        Identity {
            owner: who(1),
            platform: Platform::GitHub,
            proof_hash: [3u8; 32],
            username_hash: [4u8; 32],
            metadata: "hi".to_string(),
            verified_at: 1_700_000_000,
            expires_at: 1_731_536_000,
            revoked: false,
            verification_count: 1,
            bump: 252,
        }
    );
    assert_eq!(ctx.config, config(11, 8));
}

#[test]
fn register_takes_the_validity_period_from_the_configuration() {
    let mut short = config(0, 0);
    short.validity_period = 60;
    let mut ctx =
        RegisterIdentity { config: short, identity: Identity::blank(), owner: who(1), bump: 0 };
    register_identity::handler(&mut ctx, 0, [0u8; 32], [0u8; 32], String::new(), -30).unwrap();
    assert_eq!(ctx.identity.verified_at, -30);
    assert_eq!(ctx.identity.expires_at, 30);
}

#[test]
fn register_accepts_two_hundred_bytes_of_metadata() {
    let mut ctx = RegisterIdentity {
        config: config(0, 0),
        identity: Identity::blank(),
        owner: who(1),
        bump: 0,
    };
    let outcome =
        register_identity::handler(&mut ctx, 3, [0u8; 32], [0u8; 32], "m".repeat(200), 5);
    assert!(outcome.is_ok());
    assert_eq!(ctx.identity.metadata.len(), 200);
    assert_eq!(ctx.identity.platform, Platform::Google);
}

#[test]
fn register_refuses_two_hundred_and_one_bytes_of_metadata() {
    let mut ctx = RegisterIdentity {
        config: config(10, 7),
        identity: Identity::blank(),
        owner: who(1),
        bump: 0,
    };
    let outcome =
        register_identity::handler(&mut ctx, 3, [0u8; 32], [0u8; 32], "m".repeat(201), 5);
    assert_eq!(outcome, Err(ErrorCode::MetadataTooLong));
    assert_eq!(ctx.identity, Identity::blank());
    assert_eq!(ctx.config, config(10, 7));
}

#[test]
fn register_counts_bytes_not_characters() {
    let mut ctx = RegisterIdentity {
        config: config(0, 0),
        identity: Identity::blank(),
        owner: who(1),
        bump: 0,
    };
    let mut text = "\u{e9}".repeat(100);
    assert_eq!(text.len(), 200);
    assert!(register_identity::handler(&mut ctx, 0, [0u8; 32], [0u8; 32], text.clone(), 5).is_ok());
    text.push('a');
    assert_eq!(text.chars().count(), 101);
    let mut ctx = RegisterIdentity {
        config: config(0, 0),
        identity: Identity::blank(),
        owner: who(1),
        bump: 0,
    };
    assert_eq!(
        register_identity::handler(&mut ctx, 0, [0u8; 32], [0u8; 32], text, 5),
        Err(ErrorCode::MetadataTooLong)
    );
}

#[test]
fn register_refuses_an_unknown_platform() {
    for platform in [4u8, 5, 100, 255] {
        let mut ctx = RegisterIdentity {
            config: config(10, 7),
            identity: Identity::blank(),
            owner: who(1),
            bump: 0,
        };
        let outcome =
            register_identity::handler(&mut ctx, platform, [0u8; 32], [0u8; 32], String::new(), 5);
        assert_eq!(outcome, Err(ErrorCode::InvalidPlatform));
        assert_eq!(ctx.identity, Identity::blank());
        assert_eq!(ctx.config, config(10, 7));
    }
}

#[test]
fn register_reports_long_metadata_before_an_unknown_platform() {
    let mut ctx = RegisterIdentity {
        config: config(0, 0),
        identity: Identity::blank(),
        owner: who(1),
        bump: 0,
    };
    let outcome =
        register_identity::handler(&mut ctx, 9, [0u8; 32], [0u8; 32], "m".repeat(201), 5);
    assert_eq!(outcome, Err(ErrorCode::MetadataTooLong));
}

#[test]
fn attest_reports_a_valid_signature_and_refuses_an_invalid_one() {
    assert_eq!(
        attest(true, who(5), 2, 99),
        Ok(ProofVerified { verifier: who(5), notary_index: 2, timestamp: 99 })
    );
    assert_eq!(attest(false, who(5), 2, 99), Err(ErrorCode::InvalidSignature));
}

#[test]
fn verify_selects_the_notary_by_its_index() {
    let ctx = VerifyProof { config: config(0, 0), verifier: who(5) };
    assert_eq!(
        verify_proof::handler(&ctx, vec![], signature(SIGNATURE_1), 0, 42),
        Ok(ProofVerified { verifier: who(5), notary_index: 0, timestamp: 42 })
    );
    assert_eq!(
        verify_proof::handler(&ctx, vec![0x72], signature(SIGNATURE_2), 1, 43),
        Ok(ProofVerified { verifier: who(5), notary_index: 1, timestamp: 43 })
    );
    assert_eq!(
        verify_proof::handler(&ctx, vec![0xaf, 0x82], signature(SIGNATURE_3), 2, 44),
        Ok(ProofVerified { verifier: who(5), notary_index: 2, timestamp: 44 })
    );
}

#[test]
fn verify_refuses_the_signature_of_another_notary() {
    let ctx = VerifyProof { config: config(0, 0), verifier: who(5) };
    for index in [1u8, 2] {
        assert_eq!(
            verify_proof::handler(&ctx, vec![], signature(SIGNATURE_1), index, 42),
            Err(ErrorCode::InvalidSignature)
        );
    }
    assert_eq!(
        verify_proof::handler(&ctx, vec![0x72], signature(SIGNATURE_2), 0, 42),
        Err(ErrorCode::InvalidSignature)
    );
}

#[test]
fn verify_refuses_a_signature_over_another_proof() {
    let ctx = VerifyProof { config: config(0, 0), verifier: who(5) };
    assert_eq!(
        verify_proof::handler(&ctx, vec![0x00], signature(SIGNATURE_1), 0, 42),
        Err(ErrorCode::InvalidSignature)
    );
}

#[test]
fn verify_refuses_an_index_of_three_or_more_whatever_the_signature() {
    let ctx = VerifyProof { config: config(0, 0), verifier: who(5) };
    for index in [3u8, 4, 255] {
        assert_eq!(
            verify_proof::handler(&ctx, vec![], signature(SIGNATURE_1), index, 42),
            Err(ErrorCode::InvalidNotaryIndex)
        );
        assert_eq!(
            verify_proof::handler(&ctx, vec![1, 2, 3], [0u8; 64], index, 42),
            Err(ErrorCode::InvalidNotaryIndex)
        );
    }
}

#[test]
fn revoke_sets_the_flag_and_takes_one_verification_off() {
    let mut ctx =
        RevokeIdentity { config: config(10, 7), identity: identity(who(1), false), owner: who(1) };
    let outcome = revoke_identity::handler(&mut ctx, 2_000);
    assert_eq!(
        outcome,
        Ok(IdentityRevoked { owner: who(1), platform: Platform::Twitter, revoked_at: 2_000 })
    );
    assert_eq!(ctx.identity, identity(who(1), true));
    assert_eq!(ctx.config, config(10, 6));
}

#[test]
fn revoke_refuses_a_revoked_identity_and_changes_nothing() {
    let mut ctx =
        RevokeIdentity { config: config(10, 7), identity: identity(who(1), true), owner: who(1) };
    assert_eq!(revoke_identity::handler(&mut ctx, 2_000), Err(ErrorCode::IdentityRevoked));
    assert_eq!(ctx.identity, identity(who(1), true));
    assert_eq!(ctx.config, config(10, 7));
}

#[test]
fn revoke_refuses_a_signer_who_is_not_the_owner_and_changes_nothing() {
    let mut ctx =
        RevokeIdentity { config: config(10, 7), identity: identity(who(1), false), owner: who(2) };
    assert_eq!(revoke_identity::handler(&mut ctx, 2_000), Err(ErrorCode::Unauthorized));
    assert_eq!(ctx.identity, identity(who(1), false));
    assert_eq!(ctx.config, config(10, 7));
}

#[test]
fn revoke_reports_a_revoked_identity_before_a_wrong_signer() {
    let mut ctx =
        RevokeIdentity { config: config(10, 0), identity: identity(who(1), true), owner: who(2) };
    assert_eq!(revoke_identity::handler(&mut ctx, 2_000), Err(ErrorCode::IdentityRevoked));
}

#[test]
fn update_replaces_the_metadata_and_nothing_else() {
    let mut ctx = UpdateMetadata { identity: identity(who(1), false), owner: who(1) };
    let outcome = update_metadata::handler(&mut ctx, "second".to_string(), 3_000);
    assert_eq!(
        outcome,
        Ok(MetadataUpdated {
            owner: who(1),
            platform: Platform::Twitter,
            new_metadata: "second".to_string(),
            updated_at: 3_000,
        })
    );
    let mut expected = identity(who(1), false);
    expected.metadata = "second".to_string();
    assert_eq!(ctx.identity, expected);
}

#[test]
fn update_accepts_two_hundred_bytes_and_refuses_one_more() {
    let mut ctx = UpdateMetadata { identity: identity(who(1), false), owner: who(1) };
    assert!(update_metadata::handler(&mut ctx, "m".repeat(200), 3_000).is_ok());
    assert_eq!(ctx.identity.metadata, "m".repeat(200));
    assert_eq!(
        update_metadata::handler(&mut ctx, "n".repeat(201), 3_000),
        Err(ErrorCode::MetadataTooLong)
    );
    assert_eq!(ctx.identity.metadata, "m".repeat(200));
}

#[test]
fn update_refuses_a_revoked_identity() {
    let mut ctx = UpdateMetadata { identity: identity(who(1), true), owner: who(1) };
    assert_eq!(
        update_metadata::handler(&mut ctx, "second".to_string(), 3_000),
        Err(ErrorCode::IdentityRevoked)
    );
    assert_eq!(ctx.identity, identity(who(1), true));
}

#[test]
fn update_refuses_a_signer_who_is_not_the_owner() {
    let mut ctx = UpdateMetadata { identity: identity(who(1), false), owner: who(2) };
    assert_eq!(
        update_metadata::handler(&mut ctx, "second".to_string(), 3_000),
        Err(ErrorCode::Unauthorized)
    );
    assert_eq!(ctx.identity, identity(who(1), false));
}

#[test]
fn update_reports_its_refusals_in_order() {
    let mut ctx = UpdateMetadata { identity: identity(who(1), true), owner: who(2) };
    assert_eq!(
        update_metadata::handler(&mut ctx, "m".repeat(201), 3_000),
        Err(ErrorCode::MetadataTooLong)
    );
    assert_eq!(
        update_metadata::handler(&mut ctx, "m".repeat(200), 3_000),
        Err(ErrorCode::IdentityRevoked)
    );
}
