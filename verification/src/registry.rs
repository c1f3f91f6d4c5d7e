//! The ledger: the configuration record and the identity records, each at
//! its derived address, and the five transactions that change them. A
//! transaction commits everything it writes or nothing.

use crate::address::{identity_address, identity_address_of, CANONICAL_BUMP};
use crate::errors::{ErrorCode, TransactionError};
use crate::instructions::initialize::{initial_config, ConfigInitialized, InitializeConfig};
use crate::instructions::register_identity::{
    counted,
    registered,
    IdentityRegistered,
    RegisterIdentity,
};
use crate::instructions::revoke_identity::{revoked, uncounted, IdentityRevoked, RevokeIdentity};
use crate::instructions::update_metadata::{updated, MetadataUpdated, UpdateMetadata};
use crate::instructions::verify_proof::{notary_signed, ProofVerified, VerifyProof};
use crate::pubkey::{lemma_pubkey_ext, Pubkey};
use crate::state::config::{keys_view, Config, ConfigView, NOTARY_COUNT, VALIDITY_PERIOD};
use crate::state::identity::{byte_len, Identity, IdentityView, Platform, MAX_METADATA_LEN};
use vstd::prelude::*;

verus! {

/// One identity record and the address it lives at.
struct Entry {
    address: Pubkey,
    identity: Identity,
}

/// The state of one program on the ledger.
pub struct Registry {
    program_id: Pubkey,
    config: Option<Config>,
    entries: Vec<Entry>,
}

/// The ledger as a mathematical value: the program, its configuration if
/// it has been created, and the identity records by address.
pub ghost struct RegistryView {
    pub program_id: Seq<u8>,
    pub config: Option<ConfigView>,
    pub identities: Map<Seq<u8>, IdentityView>,
}

/// The addresses of the records that stand unrevoked.
pub open spec fn unrevoked(identities: Map<Seq<u8>, IdentityView>) -> Set<Seq<u8>> {
    Set::new(|address: Seq<u8>| identities.contains_key(address) && !identities[address].revoked)
}

/// Whether some entry lives at `address`.
spec fn occupied(entries: Seq<Entry>, address: Seq<u8>) -> bool {
    exists|i: int| 0 <= i < entries.len() && (#[trigger] entries[i]).address@ == address
}

/// The position of the entry at `address`, where there is one.
spec fn slot(entries: Seq<Entry>, address: Seq<u8>) -> int {
    choose|i: int| 0 <= i < entries.len() && (#[trigger] entries[i]).address@ == address
}

/// No two entries share an address.
spec fn distinct(entries: Seq<Entry>) -> bool {
    forall|i: int, j: int|
        0 <= i < j < entries.len() ==> (#[trigger] entries[i]).address@ != (
        #[trigger] entries[j]).address@
}

/// The records of the entries, by address.
spec fn ledger(entries: Seq<Entry>) -> Map<Seq<u8>, IdentityView> {
    Map::new(
        |address: Seq<u8>| occupied(entries, address),
        |address: Seq<u8>| entries[slot(entries, address)].identity@,
    )
}

/// How many of the entries are not revoked.
spec fn standing(entries: Seq<Entry>) -> nat
    decreases entries.len(),
{
    if entries.len() == 0 {
        0
    } else {
        standing(entries.drop_last()) + if entries.last().identity.revoked {
            0nat
        } else {
            1nat
        }
    }
}

/// What holds of every stored entry: it lives at the address derived from
/// its owner and platform, and it is as registration wrote it.
spec fn entry_ok(program_id: Seq<u8>, entry: Entry) -> bool {
    &&& entry.identity.wf()
    &&& entry.address@ == identity_address_of(
        program_id,
        entry.identity.owner@,
        entry.identity.platform.tag(),
    )
    &&& entry.identity.expires_at == entry.identity.verified_at + VALIDITY_PERIOD
    &&& entry.identity.verification_count == 1
}

proof fn lemma_slot(entries: Seq<Entry>, i: int)
    requires
        distinct(entries),
        0 <= i < entries.len(),
    ensures
        occupied(entries, entries[i].address@),
        slot(entries, entries[i].address@) == i,
{
    let address = entries[i].address@;
    assert(entries[i].address@ == address);
    let j = slot(entries, address);
    assert(0 <= j < entries.len() && entries[j].address@ == address);
    if j < i {
        assert(entries[j].address@ != entries[i].address@);
    } else if i < j {
        assert(entries[i].address@ != entries[j].address@);
    }
}

proof fn lemma_ledger_push(entries: Seq<Entry>, entry: Entry)
    requires
        distinct(entries),
        !occupied(entries, entry.address@),
    ensures
        distinct(entries.push(entry)),
        ledger(entries.push(entry)) == ledger(entries).insert(entry.address@, entry.identity@),
{
    let grown = entries.push(entry);
    let n = entries.len() as int;
    assert forall|i: int, j: int| 0 <= i < j < grown.len() implies (#[trigger] grown[i]).address@
        != (#[trigger] grown[j]).address@ by {
        if j < n {
            assert(entries[i].address@ != entries[j].address@);
        } else {
            assert(entries[i].address@ != entry.address@);
        }
    }
    assert forall|address: Seq<u8>| occupied(grown, address) <==> (occupied(entries, address)
        || address == entry.address@) by {
        if occupied(grown, address) {
            let i = slot(grown, address);
            if i < n {
                assert(entries[i].address@ == address);
            }
        }
        if occupied(entries, address) {
            let i = slot(entries, address);
            assert(grown[i].address@ == address);
        }
        if address == entry.address@ {
            assert(grown[n].address@ == address);
        }
    }
    assert forall|address: Seq<u8>| occupied(grown, address) implies #[trigger] ledger(
        grown,
    )[address] == ledger(entries).insert(entry.address@, entry.identity@)[address] by {
        if address == entry.address@ {
            assert(grown[n].address@ == address);
            lemma_slot(grown, n);
        } else {
            let i = slot(entries, address);
            assert(entries[i].address@ == address);
            assert(grown[i].address@ == address);
            lemma_slot(grown, i);
        }
    }
    assert(ledger(grown) =~= ledger(entries).insert(entry.address@, entry.identity@));
}

proof fn lemma_ledger_update(entries: Seq<Entry>, i: int, entry: Entry)
    requires
        distinct(entries),
        0 <= i < entries.len(),
        entry.address@ == entries[i].address@,
    ensures
        distinct(entries.update(i, entry)),
        ledger(entries.update(i, entry)) == ledger(entries).insert(
            entry.address@,
            entry.identity@,
        ),
{
    let changed = entries.update(i, entry);
    assert forall|a: int, b: int| 0 <= a < b < changed.len() implies (#[trigger] changed[a]).address@
        != (#[trigger] changed[b]).address@ by {
        assert(changed[a].address@ == entries[a].address@);
        assert(changed[b].address@ == entries[b].address@);
    }
    assert forall|address: Seq<u8>| occupied(changed, address) <==> occupied(entries, address) by {
        if occupied(changed, address) {
            let k = slot(changed, address);
            assert(entries[k].address@ == address);
        }
        if occupied(entries, address) {
            let k = slot(entries, address);
            assert(changed[k].address@ == address);
        }
    }
    lemma_slot(entries, i);
    assert forall|address: Seq<u8>| occupied(changed, address) implies #[trigger] ledger(
        changed,
    )[address] == ledger(entries).insert(entry.address@, entry.identity@)[address] by {
        let k = slot(entries, address);
        assert(entries[k].address@ == address);
        assert(changed[k].address@ == address);
        lemma_slot(changed, k);
        lemma_slot(entries, k);
    }
    assert(ledger(changed) =~= ledger(entries).insert(entry.address@, entry.identity@));
}

proof fn lemma_standing_bound(entries: Seq<Entry>)
    ensures
        standing(entries) <= entries.len(),
    decreases entries.len(),
{
    if entries.len() > 0 {
        lemma_standing_bound(entries.drop_last());
    }
}

proof fn lemma_standing_update(entries: Seq<Entry>, i: int, entry: Entry)
    requires
        0 <= i < entries.len(),
    ensures
        standing(entries.update(i, entry)) + (if entries[i].identity.revoked {
            0nat
        } else {
            1nat
        }) == standing(entries) + (if entry.identity.revoked {
            0nat
        } else {
            1nat
        }),
    decreases entries.len(),
{
    let changed = entries.update(i, entry);
    if i == entries.len() - 1 {
        assert(changed.drop_last() =~= entries.drop_last());
    } else {
        assert(changed.drop_last() =~= entries.drop_last().update(i, entry));
        lemma_standing_update(entries.drop_last(), i, entry);
    }
}

proof fn lemma_ledger_counts(entries: Seq<Entry>)
    requires
        distinct(entries),
    ensures
        ledger(entries).dom().finite(),
        ledger(entries).dom().len() == entries.len(),
        unrevoked(ledger(entries)).finite(),
        unrevoked(ledger(entries)).len() == standing(entries),
    decreases entries.len(),
{
    if entries.len() == 0 {
        assert(ledger(entries).dom() =~= Set::<Seq<u8>>::empty());
        assert(unrevoked(ledger(entries)) =~= Set::<Seq<u8>>::empty());
    } else {
        let rest = entries.drop_last();
        let last = entries.last();
        let at = last.address@;
        assert(entries =~= rest.push(last));
        assert forall|i: int, j: int| 0 <= i < j < rest.len() implies (#[trigger] rest[i]).address@
            != (#[trigger] rest[j]).address@ by {
            assert(entries[i].address@ != entries[j].address@);
        }
        if occupied(rest, at) {
            let i = slot(rest, at);
            assert(entries[i].address@ != entries[entries.len() - 1].address@);
        }
        lemma_ledger_counts(rest);
        lemma_ledger_push(rest, last);
        assert(!ledger(rest).dom().contains(at));
        assert(ledger(entries).dom() =~= ledger(rest).dom().insert(at));
        if last.identity.revoked {
            assert(unrevoked(ledger(entries)) =~= unrevoked(ledger(rest)));
        } else {
            assert(!unrevoked(ledger(rest)).contains(at));
            assert(unrevoked(ledger(entries)) =~= unrevoked(ledger(rest)).insert(at));
        }
    }
}

impl View for Registry {
    type V = RegistryView;

    closed spec fn view(&self) -> RegistryView {
        RegistryView {
            program_id: self.program_id@,
            config: match self.config {
                Some(config) => Some(config@),
                None => None,
            },
            identities: ledger(self.entries@),
        }
    }
}

impl RegistryView {
    /// What the ledger's invariant says of its contents: records exist
    /// only once the configuration does; the configuration holds
    /// `NOTARY_COUNT` keys and the standard validity period, and counts
    /// the records and those among them that stand unrevoked; and every
    /// record lives at the address derived from its owner and platform,
    /// expires one validity period after it was verified, has been
    /// verified once, and carries at most `MAX_METADATA_LEN` bytes of
    /// metadata.
    pub open spec fn consistent(self) -> bool {
        &&& self.config matches Some(config) ==> config.notary_pubkeys.len() == NOTARY_COUNT
            && config.validity_period == VALIDITY_PERIOD
        &&& self.config.is_none() ==> forall|address: Seq<u8>|
            !self.identities.contains_key(address)
        &&& self.identities.dom().finite()
        &&& self.config matches Some(config) ==> config.total_identities
            == self.identities.dom().len() && config.total_verifications == unrevoked(
            self.identities,
        ).len()
        &&& forall|address: Seq<u8>| #[trigger]
            self.identities.contains_key(address) ==> {
                let record = self.identities[address];
                &&& address == identity_address_of(
                    self.program_id,
                    record.owner,
                    record.platform.tag(),
                )
                &&& record.expires_at == record.verified_at + VALIDITY_PERIOD
                &&& record.verification_count == 1
                &&& byte_len(record.metadata) <= MAX_METADATA_LEN
            }
    }

    /// The ledger after `initialize_config`, or why it is refused.
    pub open spec fn initialize(self, authority: Seq<u8>, notary_pubkeys: Seq<Seq<u8>>) -> Result<
        RegistryView,
        TransactionError,
    > {
        if self.config.is_some() {
            Err(TransactionError::AddressOccupied)
        } else if notary_pubkeys.len() != NOTARY_COUNT {
            Err(TransactionError::Rejected(ErrorCode::InvalidNotaryCount))
        } else {
            Ok(
                RegistryView {
                    config: Some(initial_config(authority, notary_pubkeys, CANONICAL_BUMP)),
                    ..self
                },
            )
        }
    }

    /// The ledger after `register_identity` at time `now`, or why it is
    /// refused.
    pub open spec fn register(
        self,
        owner: Seq<u8>,
        platform: u8,
        proof_hash: Seq<u8>,
        username_hash: Seq<u8>,
        metadata: Seq<char>,
        now: int,
    ) -> Result<RegistryView, TransactionError> {
        let address = identity_address_of(self.program_id, owner, platform);
        if self.config.is_none() {
            Err(TransactionError::AccountMissing)
        } else if self.identities.contains_key(address) {
            Err(TransactionError::Rejected(ErrorCode::IdentityExists))
        } else if let Some(error) = crate::instructions::register_identity::rejection(
            platform,
            metadata,
        ) {
            Err(TransactionError::Rejected(error))
        } else {
            Ok(
                RegistryView {
                    config: Some(counted(self.config.unwrap())),
                    identities: self.identities.insert(
                        address,
                        registered(
                            owner,
                            Platform::of_tag(platform).unwrap(),
                            proof_hash,
                            username_hash,
                            metadata,
                            now,
                            self.config.unwrap().validity_period,
                            CANONICAL_BUMP,
                        ),
                    ),
                    ..self
                },
            )
        }
    }

    /// What `verify_proof` answers: nothing to report if the selected
    /// notary signed the proof, or why it is refused.
    pub open spec fn verify(self, proof_data: Seq<u8>, signature: Seq<u8>, notary_index: u8)
        -> Result<(), TransactionError> {
        if self.config.is_none() {
            Err(TransactionError::AccountMissing)
        } else if notary_index >= NOTARY_COUNT {
            Err(TransactionError::Rejected(ErrorCode::InvalidNotaryIndex))
        } else if !notary_signed(
            self.config.unwrap().notary_pubkeys,
            notary_index,
            proof_data,
            signature,
        ) {
            Err(TransactionError::Rejected(ErrorCode::InvalidSignature))
        } else {
            Ok(())
        }
    }

    /// The ledger after `revoke_identity` on the record at `address`,
    /// signed by `signer`, or why it is refused.
    pub open spec fn revoke(self, signer: Seq<u8>, address: Seq<u8>) -> Result<
        RegistryView,
        TransactionError,
    > {
        if self.config.is_none() || !self.identities.contains_key(address) {
            Err(TransactionError::AccountMissing)
        } else if let Some(error) = crate::instructions::revoke_identity::rejection(
            self.identities[address],
            signer,
        ) {
            Err(TransactionError::Rejected(error))
        } else {
            Ok(
                RegistryView {
                    config: Some(uncounted(self.config.unwrap())),
                    identities: self.identities.insert(address, revoked(self.identities[address])),
                    ..self
                },
            )
        }
    }

    /// The ledger after `update_metadata` on the record at `address`,
    /// signed by `signer`, or why it is refused.
    pub open spec fn update(self, signer: Seq<u8>, address: Seq<u8>, new_metadata: Seq<char>)
        -> Result<RegistryView, TransactionError> {
        if !self.identities.contains_key(address) {
            Err(TransactionError::AccountMissing)
        } else if let Some(error) = crate::instructions::update_metadata::rejection(
            self.identities[address],
            signer,
            new_metadata,
        ) {
            Err(TransactionError::Rejected(error))
        } else {
            Ok(
                RegistryView {
                    identities: self.identities.insert(
                        address,
                        updated(self.identities[address], new_metadata),
                    ),
                    ..self
                },
            )
        }
    }
}

impl Registry {
    /// The ledger's invariant: addresses are unique and derived from the
    /// records they hold, and the configuration counts the records and
    /// those among them that stand unrevoked.
    pub closed spec fn wf(&self) -> bool {
        &&& distinct(self.entries@)
        &&& forall|i: int|
            0 <= i < self.entries@.len() ==> entry_ok(self.program_id@, #[trigger] self.entries@[i])
        &&& match self.config {
            None => self.entries@.len() == 0,
            Some(config) => {
                &&& config.wf()
                &&& config.validity_period == VALIDITY_PERIOD
                &&& config.total_identities == self.entries@.len()
                &&& config.total_verifications == standing(self.entries@)
            },
        }
    }

    /// A well-formed ledger is consistent.
    pub proof fn lemma_consistent(&self)
        requires
            self.wf(),
        ensures
            self@.consistent(),
    {
        let entries = self.entries@;
        lemma_ledger_counts(entries);
        assert forall|address: Seq<u8>| #[trigger]
            self@.identities.contains_key(address) implies {
            let record = self@.identities[address];
            &&& address == identity_address_of(
                self@.program_id,
                record.owner,
                record.platform.tag(),
            )
            &&& record.expires_at == record.verified_at + VALIDITY_PERIOD
            &&& record.verification_count == 1
            &&& byte_len(record.metadata) <= MAX_METADATA_LEN
        } by {
            let i = slot(entries, address);
            assert(entry_ok(self.program_id@, entries[i]));
        }
        if self.config.is_none() {
            assert forall|address: Seq<u8>| !self@.identities.contains_key(address) by {
                if occupied(entries, address) {
                    let i = slot(entries, address);
                }
            }
        } else {
            assert(keys_view(self.config.unwrap().notary_pubkeys@).len() == NOTARY_COUNT);
        }
    }

    /// The empty ledger of a program: no configuration, no records.
    pub fn new(program_id: Pubkey) -> (registry: Registry)
        ensures
            registry.wf(),
            registry@ == (RegistryView {
                program_id: program_id@,
                config: None,
                identities: Map::empty(),
            }),
    {
        let registry = Registry { program_id, config: None, entries: Vec::new() };
        proof {
            assert(registry@.identities =~= Map::empty());
        }
        registry
    }

    /// The program that this ledger belongs to.
    pub fn program_id(&self) -> (program_id: Pubkey)
        ensures
            program_id@ == self@.program_id,
    {
        self.program_id
    }

    /// The configuration record, once it has been created.
    pub fn config(&self) -> (config: Option<&Config>)
        ensures
            config.is_some() == self@.config.is_some(),
            config matches Some(found) ==> found@ == self@.config.unwrap(),
    {
        self.config.as_ref()
    }

    /// The position of the entry at `address`, if there is one.
    fn find(&self, address: &Pubkey) -> (found: Option<usize>)
        ensures
            match found {
                Some(i) => i < self.entries@.len() && self.entries@[i as int].address@ == address@,
                None => !occupied(self.entries@, address@),
            },
    {
        let mut i: usize = 0;
        while i < self.entries.len()
            invariant
                i <= self.entries@.len(),
                forall|k: int| 0 <= k < i ==> (#[trigger] self.entries@[k]).address@ != address@,
            decreases self.entries@.len() - i,
        {
            if self.entries[i].address == *address {
                return Some(i);
            }
            i += 1;
        }
        None
    }

    /// The identity record at `address`, if there is one.
    pub fn identity(&self, address: &Pubkey) -> (identity: Option<&Identity>)
        requires
            self.wf(),
        ensures
            identity.is_some() == self@.identities.contains_key(address@),
            identity matches Some(found) ==> found@ == self@.identities[address@] && found.wf(),
    {
        match self.find(address) {
            Some(i) => {
                proof {
                    lemma_slot(self.entries@, i as int);
                    assert(entry_ok(self.program_id@, self.entries@[i as int]));
                }
                Some(&self.entries[i].identity)
            },
            None => None,
        }
    }
}

/// Creates the configuration record, with `authority` as its authority and
/// the three notary keys in the order given. It can be created once: on a
/// ledger that has one, the transaction is refused whatever the keys.
pub fn initialize_config(registry: &mut Registry, authority: Pubkey, notary_pubkeys: Vec<Pubkey>)
    -> (outcome: Result<ConfigInitialized, TransactionError>)
    requires
        old(registry).wf(),
    ensures
        final(registry).wf(),
        match old(registry)@.initialize(authority@, keys_view(notary_pubkeys@)) {
            Ok(after) => final(registry)@ == after && outcome == Ok::<
                ConfigInitialized,
                TransactionError,
            >(ConfigInitialized { authority, notary_count: 3 }),
            Err(error) => final(registry)@ == old(registry)@ && outcome == Err::<
                ConfigInitialized,
                TransactionError,
            >(error),
        },
{
    if registry.config.is_some() {
        return Err(TransactionError::AddressOccupied);
    }
    let mut ctx = InitializeConfig { config: Config::blank(), authority, bump: CANONICAL_BUMP };
    match crate::instructions::initialize::handler(&mut ctx, notary_pubkeys) {
        Err(error) => Err(TransactionError::Rejected(error)),
        Ok(event) => {
            registry.config = Some(ctx.config);
            Ok(event)
        },
    }
}

/// Registers the identity of `owner` on the platform with byte `platform`,
/// verified at `now`, at the address derived from owner and platform. The
/// accounts are resolved first: a ledger without configuration, then an
/// address that already holds a record, refuse the transaction before the
/// input is looked at. The expiry must be representable.
pub fn register_identity(
    registry: &mut Registry,
    owner: Pubkey,
    platform: u8,
    proof_hash: [u8; 32],
    username_hash: [u8; 32],
    metadata: String,
    now: i64,
) -> (outcome: Result<IdentityRegistered, TransactionError>)
    requires
        old(registry).wf(),
        now <= i64::MAX - VALIDITY_PERIOD,
    ensures
        final(registry).wf(),
        match old(registry)@.register(
            owner@,
            platform,
            proof_hash@,
            username_hash@,
            metadata@,
            now as int,
        ) {
            Ok(after) => final(registry)@ == after && outcome == Ok::<
                IdentityRegistered,
                TransactionError,
            >(
                IdentityRegistered {
                    owner,
                    platform: Platform::of_tag(platform).unwrap(),
                    proof_hash,
                    verified_at: now,
                },
            ),
            Err(error) => final(registry)@ == old(registry)@ && outcome == Err::<
                IdentityRegistered,
                TransactionError,
            >(error),
        },
{
    let address = identity_address(&registry.program_id, &owner, platform);
    let config = match &registry.config {
        None => {
            return Err(TransactionError::AccountMissing);
        },
        Some(stored) => stored.clone(),
    };
    if registry.find(&address).is_some() {
        return Err(TransactionError::Rejected(ErrorCode::IdentityExists));
    }
    let ghost before = registry.entries@;
    // The record is created first, so that the ledger is known to have room
    // for it, and written or dropped once the instruction has run.
    registry.entries.push(Entry { address, identity: Identity::blank() });
    let last = registry.entries.len() - 1;
    proof {
        lemma_standing_bound(before);
    }
    let mut ctx = RegisterIdentity { config, identity: Identity::blank(), owner, bump: CANONICAL_BUMP };
    match crate::instructions::register_identity::handler(
        &mut ctx,
        platform,
        proof_hash,
        username_hash,
        metadata,
        now,
    ) {
        Err(error) => {
            registry.entries.pop();
            proof {
                assert(registry.entries@ =~= before);
            }
            Err(TransactionError::Rejected(error))
        },
        Ok(event) => {
            let entry = Entry { address, identity: ctx.identity };
            registry.entries.set(last, entry);
            registry.config = Some(ctx.config);
            proof {
                assert(registry.entries@ =~= before.push(entry));
                assert(registry.entries@.drop_last() =~= before);
                lemma_ledger_push(before, entry);
                assert(entry_ok(registry.program_id@, entry));
                assert forall|i: int| 0 <= i < registry.entries@.len() implies entry_ok(
                    registry.program_id@,
                    #[trigger] registry.entries@[i],
                ) by {
                    if i < before.len() {
                        assert(registry.entries@[i] == before[i]);
                    }
                }
            }
            Ok(event)
        },
    }
}

/// Checks that the configured notary at `notary_index` signed `proof_data`
/// with `signature`, and reports it. Nothing on the ledger changes.
pub fn verify_proof(
    registry: &Registry,
    verifier: Pubkey,
    proof_data: Vec<u8>,
    signature: [u8; 64],
    notary_index: u8,
    now: i64,
) -> (outcome: Result<ProofVerified, TransactionError>)
    requires
        registry.wf(),
    ensures
        match registry@.verify(proof_data@, signature@, notary_index) {
            Ok(_) => outcome == Ok::<ProofVerified, TransactionError>(
                ProofVerified { verifier, notary_index, timestamp: now },
            ),
            Err(error) => outcome == Err::<ProofVerified, TransactionError>(error),
        },
{
    let config = match &registry.config {
        None => {
            return Err(TransactionError::AccountMissing);
        },
        Some(stored) => stored.clone(),
    };
    let ctx = VerifyProof { config, verifier };
    match crate::instructions::verify_proof::handler(&ctx, proof_data, signature, notary_index, now) {
        Err(error) => Err(TransactionError::Rejected(error)),
        Ok(event) => Ok(event),
    }
}

/// Revokes the identity record at `identity`, on behalf of `signer`, at
/// time `now`: the record stays, marked revoked, and leaves the count of
/// standing verifications.
pub fn revoke_identity(registry: &mut Registry, signer: Pubkey, identity: Pubkey, now: i64) -> (outcome:
    Result<IdentityRevoked, TransactionError>)
    requires
        old(registry).wf(),
    ensures
        final(registry).wf(),
        match old(registry)@.revoke(signer@, identity@) {
            Ok(after) => final(registry)@ == after && outcome == Ok::<
                IdentityRevoked,
                TransactionError,
            >(
                IdentityRevoked {
                    owner: signer,
                    platform: old(registry)@.identities[identity@].platform,
                    revoked_at: now,
                },
            ),
            Err(error) => final(registry)@ == old(registry)@ && outcome == Err::<
                IdentityRevoked,
                TransactionError,
            >(error),
        },
{
    let config = match &registry.config {
        None => {
            return Err(TransactionError::AccountMissing);
        },
        Some(stored) => stored.clone(),
    };
    let index = match registry.find(&identity) {
        None => {
            return Err(TransactionError::AccountMissing);
        },
        Some(found) => found,
    };
    let ghost before = registry.entries@;
    let address = registry.entries[index].address;
    let mut ctx = RevokeIdentity {
        config,
        identity: registry.entries[index].identity.clone(),
        owner: signer,
    };
    proof {
        lemma_slot(before, index as int);
        assert(entry_ok(registry.program_id@, before[index as int]));
        lemma_standing_update(
            before,
            index as int,
            Entry { address, identity: Identity { revoked: true, ..before[index as int].identity } },
        );
    }
    match crate::instructions::revoke_identity::handler(&mut ctx, now) {
        Err(error) => Err(TransactionError::Rejected(error)),
        Ok(event) => {
            let entry = Entry { address, identity: ctx.identity };
            registry.entries.set(index, entry);
            registry.config = Some(ctx.config);
            proof {
                lemma_pubkey_ext(event.owner, signer);
                lemma_ledger_update(before, index as int, entry);
                lemma_standing_update(before, index as int, entry);
                assert forall|i: int| 0 <= i < registry.entries@.len() implies entry_ok(
                    registry.program_id@,
                    #[trigger] registry.entries@[i],
                ) by {
                    if i != index {
                        assert(registry.entries@[i] == before[i]);
                    }
                }
            }
            Ok(event)
        },
    }
}

/// Replaces the metadata of the identity record at `identity`, on behalf
/// of `signer`, at time `now`.
pub fn update_metadata(
    registry: &mut Registry,
    signer: Pubkey,
    identity: Pubkey,
    new_metadata: String,
    now: i64,
) -> (outcome: Result<MetadataUpdated, TransactionError>)
    requires
        old(registry).wf(),
    ensures
        final(registry).wf(),
        match old(registry)@.update(signer@, identity@, new_metadata@) {
            Ok(after) => final(registry)@ == after && outcome == Ok::<
                MetadataUpdated,
                TransactionError,
            >(
                MetadataUpdated {
                    owner: signer,
                    platform: old(registry)@.identities[identity@].platform,
                    new_metadata,
                    updated_at: now,
                },
            ),
            Err(error) => final(registry)@ == old(registry)@ && outcome == Err::<
                MetadataUpdated,
                TransactionError,
            >(error),
        },
{
    let index = match registry.find(&identity) {
        None => {
            return Err(TransactionError::AccountMissing);
        },
        Some(found) => found,
    };
    let ghost before = registry.entries@;
    let address = registry.entries[index].address;
    let mut ctx = UpdateMetadata {
        identity: registry.entries[index].identity.clone(),
        owner: signer,
    };
    proof {
        lemma_slot(before, index as int);
        assert(entry_ok(registry.program_id@, before[index as int]));
    }
    match crate::instructions::update_metadata::handler(&mut ctx, new_metadata, now) {
        Err(error) => Err(TransactionError::Rejected(error)),
        Ok(event) => {
            let entry = Entry { address, identity: ctx.identity };
            registry.entries.set(index, entry);
            proof {
                lemma_pubkey_ext(event.owner, signer);
                lemma_ledger_update(before, index as int, entry);
                lemma_standing_update(before, index as int, entry);
                assert forall|i: int| 0 <= i < registry.entries@.len() implies entry_ok(
                    registry.program_id@,
                    #[trigger] registry.entries@[i],
                ) by {
                    if i != index {
                        assert(registry.entries@[i] == before[i]);
                    }
                }
            }
            Ok(event)
        },
    }
}

} // verus!
