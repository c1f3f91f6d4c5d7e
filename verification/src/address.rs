//! Deterministic record addresses: the digest of a domain tag, the
//! identifying fields and the program identifier.

use crate::pubkey::Pubkey;
use crate::utils::{sha256, sha256_digest};
use vstd::prelude::*;

verus! {

/// The bytes of the ASCII word `config`.
pub const CONFIG_TAG: [u8; 6] = [0x63, 0x6f, 0x6e, 0x66, 0x69, 0x67];

/// The bytes of the ASCII word `identity`.
pub const IDENTITY_TAG: [u8; 8] = [0x69, 0x64, 0x65, 0x6e, 0x74, 0x69, 0x74, 0x79];

/// The salt recorded with every derived address. The derivation hashes no
/// salt and so never searches for one: each record carries the highest.
pub const CANONICAL_BUMP: u8 = 255;

/// What is hashed for the configuration record: the tag, then the program.
pub open spec fn config_seed(program_id: Seq<u8>) -> Seq<u8> {
    CONFIG_TAG@ + program_id
}

/// What is hashed for an identity record: the tag, the owner, the platform
/// byte, then the program.
pub open spec fn identity_seed(program_id: Seq<u8>, owner: Seq<u8>, platform: u8) -> Seq<u8> {
    IDENTITY_TAG@ + owner + seq![platform] + program_id
}

/// The address of the configuration record of a program.
pub open spec fn config_address_of(program_id: Seq<u8>) -> Seq<u8> {
    sha256_digest(config_seed(program_id))
}

/// The address of the identity record of an owner on a platform.
pub open spec fn identity_address_of(program_id: Seq<u8>, owner: Seq<u8>, platform: u8) -> Seq<
    u8,
> {
    sha256_digest(identity_seed(program_id, owner, platform))
}

/// Appends `bytes` to `buffer`.
fn append(buffer: &mut Vec<u8>, bytes: &[u8])
    ensures
        final(buffer)@ == old(buffer)@ + bytes@,
{
    let mut i: usize = 0;
    while i < bytes.len()
        invariant
            i <= bytes@.len(),
            buffer@ == old(buffer)@ + bytes@.subrange(0, i as int),
        decreases bytes@.len() - i,
    {
        buffer.push(bytes[i]);
        proof {
            assert(buffer@ =~= old(buffer)@ + bytes@.subrange(0, i + 1));
        }
        i += 1;
    }
    proof {
        assert(bytes@.subrange(0, i as int) =~= bytes@);
    }
}

/// Derives the address of the configuration record.
pub fn config_address(program_id: &Pubkey) -> (address: Pubkey)
    ensures
        address@ == config_address_of(program_id@),
{
    let mut seed: Vec<u8> = Vec::new();
    append(&mut seed, CONFIG_TAG.as_slice());
    append(&mut seed, program_id.bytes.as_slice());
    proof {
        assert(seed@ =~= config_seed(program_id@));
    }
    Pubkey::new_from_array(sha256(seed.as_slice()))
}

/// Derives the address of the identity record that `owner` holds, or would
/// hold, on the platform with byte `platform`.
pub fn identity_address(program_id: &Pubkey, owner: &Pubkey, platform: u8) -> (address: Pubkey)
    ensures
        address@ == identity_address_of(program_id@, owner@, platform),
{
    let mut seed: Vec<u8> = Vec::new();
    append(&mut seed, IDENTITY_TAG.as_slice());
    append(&mut seed, owner.bytes.as_slice());
    seed.push(platform);
    append(&mut seed, program_id.bytes.as_slice());
    proof {
        assert(seed@ =~= identity_seed(program_id@, owner@, platform));
    }
    Pubkey::new_from_array(sha256(seed.as_slice()))
}

/// The seed of an identity address names its owner, platform and program:
/// two seeds over thirty-two-byte identifiers are equal only if all three
/// agree.
pub proof fn lemma_identity_seed_injective(
    program_a: Seq<u8>,
    owner_a: Seq<u8>,
    platform_a: u8,
    program_b: Seq<u8>,
    owner_b: Seq<u8>,
    platform_b: u8,
)
    requires
        program_a.len() == 32,
        owner_a.len() == 32,
        program_b.len() == 32,
        owner_b.len() == 32,
        identity_seed(program_a, owner_a, platform_a) == identity_seed(
            program_b,
            owner_b,
            platform_b,
        ),
    ensures
        program_a == program_b,
        owner_a == owner_b,
        platform_a == platform_b,
{
    let seed_a = identity_seed(program_a, owner_a, platform_a);
    let seed_b = identity_seed(program_b, owner_b, platform_b);
    assert(IDENTITY_TAG@.len() == 8);
    assert forall|i: int| 0 <= i < 32 implies owner_a[i] == owner_b[i] by {
        assert(seed_a[8 + i] == owner_a[i]);
        assert(seed_b[8 + i] == owner_b[i]);
    }
    assert(owner_a =~= owner_b);
    assert(seed_a[40] == platform_a);
    assert(seed_b[40] == platform_b);
    assert forall|i: int| 0 <= i < 32 implies program_a[i] == program_b[i] by {
        assert(seed_a[41 + i] == program_a[i]);
        assert(seed_b[41 + i] == program_b[i]);
    }
    assert(program_a =~= program_b);
}

} // verus!
