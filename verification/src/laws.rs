//! What holds of the ledger across transactions, proved over its model.

use crate::address::identity_address_of;
use crate::errors::{ErrorCode, TransactionError};
use crate::registry::{unrevoked, RegistryView};
use crate::state::config::{NOTARY_COUNT, VALIDITY_PERIOD};
use crate::state::identity::{byte_len, IdentityView, Platform, MAX_METADATA_LEN};
use crate::utils::ed25519_valid;
use vstd::prelude::*;

verus! {

/// On a ledger without configuration, initialization with other than three
/// notary keys is refused with `InvalidNotaryCount`, and with three keys it
/// succeeds. On the ledger that it leaves, every further initialization is
/// refused, whatever it brings.
pub proof fn lemma_initialize_once(
    ledger: RegistryView,
    authority: Seq<u8>,
    notary_pubkeys: Seq<Seq<u8>>,
    later_authority: Seq<u8>,
    later_pubkeys: Seq<Seq<u8>>,
)
    requires
        ledger.config.is_none(),
    ensures
        notary_pubkeys.len() != NOTARY_COUNT ==> ledger.initialize(authority, notary_pubkeys)
            == Err::<RegistryView, TransactionError>(
            TransactionError::Rejected(ErrorCode::InvalidNotaryCount),
        ),
        notary_pubkeys.len() == NOTARY_COUNT ==> ledger.initialize(authority, notary_pubkeys).is_ok()
            && ledger.initialize(authority, notary_pubkeys).unwrap().initialize(
            later_authority,
            later_pubkeys,
        ) == Err::<RegistryView, TransactionError>(TransactionError::AddressOccupied),
{
}

/// The configuration is never deleted: once a ledger has one, no
/// transaction leaves a ledger without.
pub proof fn lemma_config_stays(
    ledger: RegistryView,
    signer: Seq<u8>,
    address: Seq<u8>,
    platform: u8,
    proof_hash: Seq<u8>,
    username_hash: Seq<u8>,
    metadata: Seq<char>,
    now: int,
)
    requires
        ledger.config.is_some(),
    ensures
        ledger.register(signer, platform, proof_hash, username_hash, metadata, now) matches Ok(
            after,
        ) ==> after.config.is_some(),
        ledger.revoke(signer, address) matches Ok(after) ==> after.config.is_some(),
        ledger.update(signer, address, metadata) matches Ok(after) ==> after.config.is_some(),
{
}

/// After an identity has been registered for an owner on a platform, both
/// counters of the configuration are one higher, the record expires
/// exactly one validity period after it was verified, and every further
/// registration for that owner on that platform is refused with
/// `IdentityExists`, whatever else it brings.
pub proof fn lemma_register_once(
    ledger: RegistryView,
    owner: Seq<u8>,
    platform: u8,
    proof_hash: Seq<u8>,
    username_hash: Seq<u8>,
    metadata: Seq<char>,
    now: int,
    later_proof_hash: Seq<u8>,
    later_username_hash: Seq<u8>,
    later_metadata: Seq<char>,
    later: int,
)
    requires
        ledger.consistent(),
        ledger.register(owner, platform, proof_hash, username_hash, metadata, now).is_ok(),
    ensures
        ({
            let after = ledger.register(
                owner,
                platform,
                proof_hash,
                username_hash,
                metadata,
                now,
            ).unwrap();
            let record = after.identities[identity_address_of(ledger.program_id, owner, platform)];
            &&& after.config.unwrap().total_identities == ledger.config.unwrap().total_identities
                + 1
            &&& after.config.unwrap().total_verifications
                == ledger.config.unwrap().total_verifications + 1
            &&& record.expires_at - record.verified_at == 31_536_000
            &&& record.verification_count == 1
            &&& !record.revoked
            &&& after.register(
                owner,
                platform,
                later_proof_hash,
                later_username_hash,
                later_metadata,
                later,
            ) == Err::<RegistryView, TransactionError>(
                TransactionError::Rejected(ErrorCode::IdentityExists),
            )
        }),
{
}

/// Where the configuration exists and the owner has no record on the
/// platform yet, a registration with more than `MAX_METADATA_LEN` bytes of
/// metadata is refused with `MetadataTooLong`, and one with at most that
/// many and a known platform succeeds.
pub proof fn lemma_register_metadata_limit(
    ledger: RegistryView,
    owner: Seq<u8>,
    platform: u8,
    proof_hash: Seq<u8>,
    username_hash: Seq<u8>,
    metadata: Seq<char>,
    now: int,
)
    requires
        ledger.config.is_some(),
        !ledger.identities.contains_key(identity_address_of(ledger.program_id, owner, platform)),
    ensures
        byte_len(metadata) > MAX_METADATA_LEN ==> ledger.register(
            owner,
            platform,
            proof_hash,
            username_hash,
            metadata,
            now,
        ) == Err::<RegistryView, TransactionError>(
            TransactionError::Rejected(ErrorCode::MetadataTooLong),
        ),
        byte_len(metadata) <= MAX_METADATA_LEN && platform < 4 ==> ledger.register(
            owner,
            platform,
            proof_hash,
            username_hash,
            metadata,
            now,
        ).is_ok(),
        byte_len(metadata) <= MAX_METADATA_LEN && platform >= 4 ==> ledger.register(
            owner,
            platform,
            proof_hash,
            username_hash,
            metadata,
            now,
        ) == Err::<RegistryView, TransactionError>(
            TransactionError::Rejected(ErrorCode::InvalidPlatform),
        ),
{
}

/// A revocation of a record that is already revoked is refused with
/// `IdentityRevoked`, whoever signs; one of a standing record by a signer
/// who is not its owner is refused with `Unauthorized`; and one of a
/// standing record by its owner succeeds.
pub proof fn lemma_revoke_refusals(ledger: RegistryView, signer: Seq<u8>, address: Seq<u8>)
    requires
        ledger.config.is_some(),
        ledger.identities.contains_key(address),
    ensures
        ledger.identities[address].revoked ==> ledger.revoke(signer, address) == Err::<
            RegistryView,
            TransactionError,
        >(TransactionError::Rejected(ErrorCode::IdentityRevoked)),
        !ledger.identities[address].revoked && ledger.identities[address].owner != signer
            ==> ledger.revoke(signer, address) == Err::<RegistryView, TransactionError>(
            TransactionError::Rejected(ErrorCode::Unauthorized),
        ),
        !ledger.identities[address].revoked && ledger.identities[address].owner == signer
            ==> ledger.revoke(signer, address).is_ok(),
{
}

/// A revocation takes one standing verification out of the count and
/// touches neither the number of identities nor any other record; the
/// record stays, revoked, and can be neither revoked again nor have its
/// metadata replaced, whoever signs. So the count goes down once for
/// each identity.
pub proof fn lemma_revoke_once(
    ledger: RegistryView,
    signer: Seq<u8>,
    address: Seq<u8>,
    later_signer: Seq<u8>,
    later_metadata: Seq<char>,
    other: Seq<u8>,
)
    requires
        ledger.consistent(),
        ledger.revoke(signer, address).is_ok(),
    ensures
        ({
            let after = ledger.revoke(signer, address).unwrap();
            &&& ledger.config.unwrap().total_verifications >= 1
            &&& after.config.unwrap().total_verifications + 1
                == ledger.config.unwrap().total_verifications
            &&& after.config.unwrap().total_identities == ledger.config.unwrap().total_identities
            &&& after.identities.contains_key(address)
            &&& after.identities[address].revoked
            &&& other != address ==> after.identities.contains_key(other)
                == ledger.identities.contains_key(other)
            &&& other != address && ledger.identities.contains_key(other)
                ==> after.identities[other] == ledger.identities[other]
            &&& after.revoke(later_signer, address) == Err::<RegistryView, TransactionError>(
                TransactionError::Rejected(ErrorCode::IdentityRevoked),
            )
            &&& byte_len(later_metadata) <= MAX_METADATA_LEN ==> after.update(
                later_signer,
                address,
                later_metadata,
            ) == Err::<RegistryView, TransactionError>(
                TransactionError::Rejected(ErrorCode::IdentityRevoked),
            )
        }),
{
    lemma_unrevoked_finite(ledger.identities);
    assert(unrevoked(ledger.identities).contains(address));
}

/// A replacement of metadata changes the metadata of one record and
/// nothing else: not its times, its count or its flag, not the
/// configuration, not another record.
pub proof fn lemma_update_touches_metadata_only(
    ledger: RegistryView,
    signer: Seq<u8>,
    address: Seq<u8>,
    new_metadata: Seq<char>,
    other: Seq<u8>,
)
    requires
        ledger.update(signer, address, new_metadata).is_ok(),
    ensures
        ({
            let after = ledger.update(signer, address, new_metadata).unwrap();
            let before = ledger.identities[address];
            let record = after.identities[address];
            &&& after.config == ledger.config
            &&& record.metadata == new_metadata
            &&& record.owner == before.owner
            &&& record.platform == before.platform
            &&& record.proof_hash == before.proof_hash
            &&& record.username_hash == before.username_hash
            &&& record.verified_at == before.verified_at
            &&& record.expires_at == before.expires_at
            &&& record.verification_count == before.verification_count
            &&& record.revoked == before.revoked
            &&& other != address ==> after.identities.contains_key(other)
                == ledger.identities.contains_key(other)
            &&& other != address && ledger.identities.contains_key(other)
                ==> after.identities[other] == ledger.identities[other]
        }),
{
}

/// Verification looks at the configured key at the notary index and at no
/// other: an index of three or more is refused with `InvalidNotaryIndex`
/// whatever the signature, and under a smaller index the proof is accepted
/// exactly when the signature is valid under the key at that index.
pub proof fn lemma_verify_selects_notary(
    ledger: RegistryView,
    proof_data: Seq<u8>,
    signature: Seq<u8>,
    notary_index: u8,
)
    requires
        ledger.config.is_some(),
    ensures
        notary_index >= 3 ==> ledger.verify(proof_data, signature, notary_index) == Err::<
            (),
            TransactionError,
        >(TransactionError::Rejected(ErrorCode::InvalidNotaryIndex)),
        notary_index < 3 ==> (ledger.verify(proof_data, signature, notary_index).is_ok()
            <==> ed25519_valid(
            ledger.config.unwrap().notary_pubkeys[notary_index as int],
            proof_data,
            signature,
        )),
        notary_index < 3 && !ledger.verify(proof_data, signature, notary_index).is_ok()
            ==> ledger.verify(proof_data, signature, notary_index) == Err::<(), TransactionError>(
            TransactionError::Rejected(ErrorCode::InvalidSignature),
        ),
{
}

/// The unrevoked records of a finite ledger are finitely many, and no more
/// than its records.
pub proof fn lemma_unrevoked_finite(identities: Map<Seq<u8>, IdentityView>)
    requires
        identities.dom().finite(),
    ensures
        unrevoked(identities).finite(),
        unrevoked(identities).len() <= identities.dom().len(),
{
    let standing = |address: Seq<u8>| !identities[address].revoked;
    identities.dom().lemma_len_filter(standing);
    assert(unrevoked(identities) =~= identities.dom().filter(standing));
}

/// In a consistent ledger the standing verifications never outnumber the
/// identities, and a record that stands unrevoked is counted: the count
/// is not zero while one exists.
pub proof fn lemma_counters(ledger: RegistryView, address: Seq<u8>)
    requires
        ledger.consistent(),
        ledger.config.is_some(),
    ensures
        ledger.config.unwrap().total_verifications <= ledger.config.unwrap().total_identities,
        ledger.identities.contains_key(address) && !ledger.identities[address].revoked
            ==> ledger.config.unwrap().total_verifications >= 1,
{
    lemma_unrevoked_finite(ledger.identities);
    if ledger.identities.contains_key(address) && !ledger.identities[address].revoked {
        assert(unrevoked(ledger.identities).contains(address));
    }
}

/// A consistent ledger holds at most one record for an owner on a
/// platform: two addresses whose records agree in both are one address.
pub proof fn lemma_one_identity_per_owner_and_platform(
    ledger: RegistryView,
    first: Seq<u8>,
    second: Seq<u8>,
)
    requires
        ledger.consistent(),
        ledger.identities.contains_key(first),
        ledger.identities.contains_key(second),
        ledger.identities[first].owner == ledger.identities[second].owner,
        ledger.identities[first].platform == ledger.identities[second].platform,
    ensures
        first == second,
{
}

/// Every transaction that succeeds on a consistent ledger leaves a
/// consistent ledger: metadata stays within its limit, expiry stays one
/// validity period after verification, and records stay at the addresses
/// of their owners and platforms.
pub proof fn lemma_transactions_keep_consistency(
    ledger: RegistryView,
    signer: Seq<u8>,
    address: Seq<u8>,
    notary_pubkeys: Seq<Seq<u8>>,
    platform: u8,
    proof_hash: Seq<u8>,
    username_hash: Seq<u8>,
    metadata: Seq<char>,
    now: int,
)
    requires
        ledger.consistent(),
    ensures
        ledger.initialize(signer, notary_pubkeys) matches Ok(after) ==> after.consistent(),
        ledger.register(signer, platform, proof_hash, username_hash, metadata, now) matches Ok(
            after,
        ) ==> after.consistent(),
        ledger.revoke(signer, address) matches Ok(after) ==> after.consistent(),
        ledger.update(signer, address, metadata) matches Ok(after) ==> after.consistent(),
{
    if let Ok(after) = ledger.initialize(signer, notary_pubkeys) {
        assert(ledger.identities.dom() =~= Set::<Seq<u8>>::empty());
        assert(unrevoked(ledger.identities) =~= Set::<Seq<u8>>::empty());
        assert(after.consistent());
    }
    if let Ok(after) = ledger.register(signer, platform, proof_hash, username_hash, metadata, now) {
        let fresh = identity_address_of(ledger.program_id, signer, platform);
        assert(Platform::of_tag(platform).unwrap().tag() == platform);
        assert forall|at: Seq<u8>| #[trigger] after.identities.contains_key(at) implies {
            let record = after.identities[at];
            &&& at == identity_address_of(after.program_id, record.owner, record.platform.tag())
            &&& record.expires_at == record.verified_at + VALIDITY_PERIOD
            &&& record.verification_count == 1
            &&& byte_len(record.metadata) <= MAX_METADATA_LEN
        } by {
            if at != fresh {
                assert(ledger.identities.contains_key(at));
            }
        }
        assert(after.identities.dom() =~= ledger.identities.dom().insert(fresh));
        assert(!unrevoked(ledger.identities).contains(fresh));
        assert(unrevoked(after.identities) =~= unrevoked(ledger.identities).insert(fresh));
        lemma_unrevoked_finite(ledger.identities);
        assert(after.consistent());
    }
    if let Ok(after) = ledger.revoke(signer, address) {
        assert forall|at: Seq<u8>| #[trigger] after.identities.contains_key(at) implies {
            let record = after.identities[at];
            &&& at == identity_address_of(after.program_id, record.owner, record.platform.tag())
            &&& record.expires_at == record.verified_at + VALIDITY_PERIOD
            &&& record.verification_count == 1
            &&& byte_len(record.metadata) <= MAX_METADATA_LEN
        } by {
            assert(ledger.identities.contains_key(at));
        }
        assert(after.identities.dom() =~= ledger.identities.dom());
        assert(unrevoked(ledger.identities).contains(address));
        assert(unrevoked(after.identities) =~= unrevoked(ledger.identities).remove(address));
        lemma_unrevoked_finite(ledger.identities);
        assert(after.consistent());
    }
    if let Ok(after) = ledger.update(signer, address, metadata) {
        assert forall|at: Seq<u8>| #[trigger] after.identities.contains_key(at) implies {
            let record = after.identities[at];
            &&& at == identity_address_of(after.program_id, record.owner, record.platform.tag())
            &&& record.expires_at == record.verified_at + VALIDITY_PERIOD
            &&& record.verification_count == 1
            &&& byte_len(record.metadata) <= MAX_METADATA_LEN
        } by {
            assert(ledger.identities.contains_key(at));
        }
        if ledger.config.is_none() {
            assert(!ledger.identities.contains_key(address));
        }
        assert(after.identities.dom() =~= ledger.identities.dom());
        assert(unrevoked(after.identities) =~= unrevoked(ledger.identities));
        assert(after.consistent());
    }
}

} // verus!
