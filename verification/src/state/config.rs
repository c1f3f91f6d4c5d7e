//! The registry's one configuration record.

use crate::pubkey::Pubkey;
use vstd::prelude::*;

verus! {

/// The number of notary keys that a configuration holds.
pub const NOTARY_COUNT: usize = 3;

/// How long an identity stays valid after registration: one year of 365
/// days, in seconds.
pub const VALIDITY_PERIOD: i64 = 31_536_000;

/// The byte sequences of a list of keys, in order.
pub open spec fn keys_view(keys: Seq<Pubkey>) -> Seq<Seq<u8>> {
    Seq::new(keys.len(), |i: int| keys[i]@)
}

/// The protocol-wide settings and counters.
#[derive(Debug, PartialEq, Eq)]
pub struct Config {
    pub authority: Pubkey,
    pub notary_pubkeys: Vec<Pubkey>,
    pub total_identities: u64,
    pub total_verifications: u64,
    pub validity_period: i64,
    pub bump: u8,
}

/// What a configuration record holds, as plain mathematical values.
pub ghost struct ConfigView {
    pub authority: Seq<u8>,
    pub notary_pubkeys: Seq<Seq<u8>>,
    pub total_identities: nat,
    pub total_verifications: nat,
    pub validity_period: int,
    pub bump: u8,
}

impl View for Config {
    type V = ConfigView;

    open spec fn view(&self) -> ConfigView {
        ConfigView {
            authority: self.authority@,
            notary_pubkeys: keys_view(self.notary_pubkeys@),
            total_identities: self.total_identities as nat,
            total_verifications: self.total_verifications as nat,
            validity_period: self.validity_period as int,
            bump: self.bump,
        }
    }
}

impl Config {
    /// The record holds exactly `NOTARY_COUNT` notary keys.
    pub open spec fn wf(&self) -> bool {
        self.notary_pubkeys@.len() == NOTARY_COUNT
    }

    /// The record that a freshly created account holds before anything is
    /// written to it: every field zero or empty.
    pub fn blank() -> (config: Config)
        ensures
            config@ == (ConfigView {
                authority: Seq::new(32, |i: int| 0u8),
                notary_pubkeys: Seq::<Seq<u8>>::empty(),
                total_identities: 0,
                total_verifications: 0,
                validity_period: 0,
                bump: 0,
            }),
    {
        let zero = [0u8; 32];
        let config = Config {
            authority: Pubkey::new_from_array(zero),
            notary_pubkeys: Vec::new(),
            total_identities: 0,
            total_verifications: 0,
            validity_period: 0,
            bump: 0,
        };
        proof {
            assert(zero@ =~= Seq::new(32, |i: int| 0u8));
            assert(keys_view(config.notary_pubkeys@) =~= Seq::<Seq<u8>>::empty());
        }
        config
    }
}

impl Clone for Config {
    fn clone(&self) -> (copy: Config)
        ensures
            copy@ == self@,
            copy.notary_pubkeys@ == self.notary_pubkeys@,
            copy.wf() == self.wf(),
    {
        let mut keys: Vec<Pubkey> = Vec::new();
        let mut i: usize = 0;
        while i < self.notary_pubkeys.len()
            invariant
                i <= self.notary_pubkeys@.len(),
                keys@ == self.notary_pubkeys@.subrange(0, i as int),
            decreases self.notary_pubkeys@.len() - i,
        {
            keys.push(self.notary_pubkeys[i]);
            proof {
                assert(keys@ =~= self.notary_pubkeys@.subrange(0, i + 1));
            }
            i += 1;
        }
        proof {
            assert(keys@ =~= self.notary_pubkeys@);
        }
        Config {
            authority: self.authority,
            notary_pubkeys: keys,
            total_identities: self.total_identities,
            total_verifications: self.total_verifications,
            validity_period: self.validity_period,
            bump: self.bump,
        }
    }
}

} // verus!
