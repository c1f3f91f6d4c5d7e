use sha2::{Digest, Sha256};
use solanaid::address::{
    config_address, identity_address, CANONICAL_BUMP, CONFIG_TAG, IDENTITY_TAG,
};
use solanaid::pubkey::Pubkey;

fn bytes32(text: &str) -> [u8; 32] {
    let decoded = hex::decode(text).unwrap();
    let mut out = [0u8; 32];
    out.copy_from_slice(&decoded);
    out
}

fn counting() -> [u8; 32] {
    let mut out = [0u8; 32];
    for (i, byte) in out.iter_mut().enumerate() {
        *byte = i as u8;
    }
    out
}

#[test]
fn tags_spell_their_words() {
    assert_eq!(&CONFIG_TAG, b"config");
    assert_eq!(&IDENTITY_TAG, b"identity");
    assert_eq!(CANONICAL_BUMP, 255);
}

#[test]
fn config_address_is_the_digest_of_tag_and_program() {
    let program = Pubkey::new_from_array([7u8; 32]);
    assert_eq!(
        config_address(&program).to_bytes(),
        bytes32("8bbdb5761bbcb961873076bc03375620d3c55e585cb236eb0eaa101a3c7d1332")
    );
}

#[test]
fn identity_address_is_the_digest_of_tag_owner_platform_and_program() {
    let program = Pubkey::new_from_array([7u8; 32]);
    let owner = Pubkey::new_from_array(counting());
    assert_eq!(
        identity_address(&program, &owner, 1).to_bytes(),
        bytes32("0ab21fe826b501cdc28f72c991840983e4d6581250e0d2ee1ebbd7be9d07129c")
    );
    assert_eq!(
        identity_address(&program, &owner, 0).to_bytes(),
        bytes32("3d39369c21b6568175363ad57ced33789b0f1c0ca21c92170d786782eddc272c")
    );
}

#[test]
fn identity_address_agrees_with_a_digest_made_by_hand() {
    let program = Pubkey::new_from_array([0xa5u8; 32]);
    let owner = Pubkey::new_from_array([0x5au8; 32]);
    for platform in [0u8, 1, 2, 3, 4, 255] {
        let mut hasher = Sha256::new();
        hasher.update(b"identity");
        hasher.update(owner.to_bytes());
        hasher.update([platform]);
        hasher.update(program.to_bytes());
        let expected: [u8; 32] = hasher.finalize().into();
        assert_eq!(identity_address(&program, &owner, platform).to_bytes(), expected);
    }
}

#[test]
fn addresses_differ_by_owner_platform_and_program() {
    let program = Pubkey::new_from_array([7u8; 32]);
    let other_program = Pubkey::new_from_array([8u8; 32]);
    let owner = Pubkey::new_from_array(counting());
    let other_owner = Pubkey::new_from_array([1u8; 32]);
    let base = identity_address(&program, &owner, 1);
    assert_eq!(base, identity_address(&program, &owner, 1));
    assert_ne!(base, identity_address(&program, &owner, 2));
    assert_ne!(base, identity_address(&program, &other_owner, 1));
    assert_ne!(base, identity_address(&other_program, &owner, 1));
    assert_ne!(config_address(&program), config_address(&other_program));
    assert_ne!(config_address(&program), base);
}
