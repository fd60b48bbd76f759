//! The key vault: registration key, consensus seed pair, derived master
//! keys, and the ordering rules between them.
//!
//! The vault enforces the lifecycle: identity (registration key) before
//! seed, seed before master keys. The genesis seed is immutable once set;
//! the current seed is replaced only through an explicit set operation that
//! re-checks the genesis; master keys are a derived cache that is dropped
//! whenever the current seed changes.

use vstd::prelude::*;

use crate::crypto;
use crate::crypto::{KeyPair, KEY_SIZE};
use crate::errors::RegError;
use crate::store::{RecordId, SealFormat, SealedStore};

verus! {

/// Domain-separation label for deriving the seed-exchange master key.
pub const SEED_EXCHANGE_LABEL: u8 = 1;

/// Domain-separation label for deriving the io-exchange master key.
pub const IO_EXCHANGE_LABEL: u8 = 2;

/// One fixed-length secret seed value.
#[derive(Debug)]
pub struct Seed {
    pub bytes: Vec<u8>,
}

impl Seed {
    /// A seed holds exactly `KEY_SIZE` bytes.
    pub open spec fn wf(self) -> bool {
        self.bytes@.len() == KEY_SIZE
    }

    /// Wraps `bytes` as a seed.
    pub fn from_bytes(bytes: Vec<u8>) -> (r: Seed)
        requires
            bytes@.len() == KEY_SIZE,
        ensures
            r.wf(),
            r.bytes@ == bytes@,
    {
        Seed { bytes }
    }

    /// A copy of this seed.
    pub fn clone_seed(&self) -> (r: Seed)
        ensures
            r.bytes@ == self.bytes@,
    {
        Seed { bytes: crypto::clone_bytes(&self.bytes) }
    }
}

/// The consensus seed pair: the immutable genesis value and the active
/// current value.
#[derive(Debug)]
pub struct ConsensusSeed {
    pub genesis: Seed,
    pub current: Seed,
}

/// The secret key that master-key derivation assigns to `label` for a seed.
pub open spec fn derive_secret_spec(seed: Seq<u8>, label: u8) -> Seq<u8> {
    crypto::sha256_of(seed.push(label))
}

/// The master key set derived from the current consensus seed.
#[derive(Debug)]
pub struct MasterKeys {
    pub seed_exchange: KeyPair,
    pub io_exchange: KeyPair,
}

impl MasterKeys {
    /// Both derived key pairs have key length.
    pub open spec fn wf(self) -> bool {
        self.seed_exchange.wf() && self.io_exchange.wf()
    }

    /// This key set is exactly the one derived from `seed`.
    pub open spec fn derived_from(self, seed: Seq<u8>) -> bool {
        &&& self.seed_exchange.secret@ == derive_secret_spec(seed, SEED_EXCHANGE_LABEL)
        &&& self.seed_exchange.consistent()
        &&& self.io_exchange.secret@ == derive_secret_spec(seed, IO_EXCHANGE_LABEL)
        &&& self.io_exchange.consistent()
    }

    /// Derives the master key set from a seed. The derivation is a function
    /// of the seed alone: the same seed always yields the same key set.
    pub fn derive(seed: &Seed) -> (r: MasterKeys)
        requires
            seed.wf(),
        ensures
            r.wf(),
            r.derived_from(seed.bytes@),
    {
        let seed_exchange = Self::derive_pair(seed, SEED_EXCHANGE_LABEL);
        let io_exchange = Self::derive_pair(seed, IO_EXCHANGE_LABEL);
        MasterKeys { seed_exchange, io_exchange }
    }

    /// Derives the key pair that belongs to one label.
    fn derive_pair(seed: &Seed, label: u8) -> (r: KeyPair)
        requires
            seed.wf(),
        ensures
            r.wf(),
            r.consistent(),
            r.secret@ == derive_secret_spec(seed.bytes@, label),
    {
        let mut material = crypto::clone_bytes(&seed.bytes);
        material.push(label);
        let secret = crypto::sha256(&material);
        KeyPair::from_secret(secret)
    }

}

/// Master-key derivation is reproducible: any two key sets derived from
/// the same seed value hold the same key material, whenever and wherever
/// they were derived.
pub proof fn lemma_master_keys_deterministic(a: MasterKeys, b: MasterKeys, seed: Seq<u8>)
    requires
        a.derived_from(seed),
        b.derived_from(seed),
    ensures
        a.seed_exchange.secret@ == b.seed_exchange.secret@,
        a.seed_exchange.public@ == b.seed_exchange.public@,
        a.io_exchange.secret@ == b.io_exchange.secret@,
        a.io_exchange.public@ == b.io_exchange.public@,
{
}

/// The public halves of the master key set, exported for external pickup.
#[derive(Debug)]
pub struct MasterPublicKeys {
    pub seed_exchange_public: Vec<u8>,
    pub io_exchange_public: Vec<u8>,
}

/// Whether the auxiliary records (those the vault itself never touches)
/// are the same in two stores.
pub open spec fn same_aux_records(a: SealedStore, b: SealedStore) -> bool {
    &&& a.spec_record(RecordId::Rek) == b.spec_record(RecordId::Rek)
    &&& a.spec_record(RecordId::Irs) == b.spec_record(RecordId::Irs)
    &&& a.spec_record(RecordId::ValidatorSet) == b.spec_record(RecordId::ValidatorSet)
    &&& a.spec_record(RecordId::TxBytes) == b.spec_record(RecordId::TxBytes)
}

/// The key vault. It owns the sealed store and the in-memory master-key
/// cache.
pub struct Keychain {
    pub store: SealedStore,
    pub master_keys: Option<MasterKeys>,
}

impl Keychain {
    /// The sealed registration secret key, if any.
    pub open spec fn spec_registration_secret(self) -> Option<Seq<u8>> {
        match self.store.spec_record(RecordId::RegistrationKey) {
            Some(r) => Some(r.data@),
            None => None,
        }
    }

    /// The sealed genesis seed, if any.
    pub open spec fn spec_genesis(self) -> Option<Seq<u8>> {
        match self.store.spec_record(RecordId::GenesisSeed) {
            Some(r) => Some(r.data@),
            None => None,
        }
    }

    /// The sealed current seed, if any.
    pub open spec fn spec_current(self) -> Option<Seq<u8>> {
        match self.store.spec_record(RecordId::CurrentSeed) {
            Some(r) => Some(r.data@),
            None => None,
        }
    }

    /// Whether any consensus seed value is sealed.
    pub open spec fn has_seed(self) -> bool {
        self.spec_genesis() is Some || self.spec_current() is Some
    }

    /// Every sealed key or seed has its fixed length.
    pub open spec fn wf(self) -> bool {
        &&& (self.spec_registration_secret() matches Some(s) ==> s.len() == KEY_SIZE)
        &&& (self.spec_genesis() matches Some(s) ==> s.len() == KEY_SIZE)
        &&& (self.spec_current() matches Some(s) ==> s.len() == KEY_SIZE)
        &&& (self.master_keys matches Some(mk) ==> mk.wf())
    }

    /// A vault over an empty store, as on a fresh enclave.
    pub fn new() -> (r: Keychain)
        ensures
            r.wf(),
            r.spec_registration_secret() is None,
            r.spec_genesis() is None,
            r.spec_current() is None,
            r.master_keys is None,
            r.store.fully_migrated(),
    {
        Keychain { store: SealedStore::new(), master_keys: None }
    }

    /// A vault over an existing store, as after enclave restart. Usable only
    /// when the store's key and seed records have their fixed lengths.
    pub fn from_store(store: SealedStore) -> (r: Keychain)
        requires
            store.spec_record(RecordId::RegistrationKey) matches Some(rec) ==> rec.data@.len() == KEY_SIZE,
            store.spec_record(RecordId::GenesisSeed) matches Some(rec) ==> rec.data@.len() == KEY_SIZE,
            store.spec_record(RecordId::CurrentSeed) matches Some(rec) ==> rec.data@.len() == KEY_SIZE,
        ensures
            r.wf(),
            r.store == store,
            r.master_keys is None,
    {
        Keychain { store, master_keys: None }
    }

    /// Generates a new registration key pair and seals its secret half,
    /// overwriting any prior registration key.
    pub fn create_registration_key(&mut self) -> (r: Result<(), RegError>)
        requires
            old(self).wf(),
        ensures
            r is Ok,
            final(self).wf(),
            final(self).spec_registration_secret() is Some,
            final(self).spec_genesis() == old(self).spec_genesis(),
            final(self).spec_current() == old(self).spec_current(),
            final(self).master_keys == old(self).master_keys,
            same_aux_records(final(self).store, old(self).store),
    {
        let pair = KeyPair::generate();
        self.store.seal(RecordId::RegistrationKey, pair.secret);
        Ok(())
    }

    /// The registration key pair rebuilt from the sealed secret.
    pub fn get_registration_key(&self) -> (r: Result<KeyPair, RegError>)
        requires
            self.wf(),
        ensures
            match r {
                Ok(kp) => {
                    &&& self.spec_registration_secret() == Some(kp.secret@)
                    &&& kp.wf()
                    &&& kp.consistent()
                },
                Err(e) => self.spec_registration_secret() is None && e == RegError::NotFound,
            },
    {
        match self.store.unseal(RecordId::RegistrationKey) {
            Some(rec) => Ok(KeyPair::from_secret(crypto::clone_bytes(&rec.data))),
            None => Err(RegError::NotFound),
        }
    }

    /// Rewrites the sealed registration key under the current sealing
    /// policy without changing the key material. A no-op success when no
    /// key exists yet.
    pub fn reseal_registration_key(&mut self) -> (r: Result<(), RegError>)
        requires
            old(self).wf(),
        ensures
            r is Ok,
            final(self).wf(),
            final(self).spec_registration_secret() == old(self).spec_registration_secret(),
            final(self).spec_registration_secret() is Some
                ==> (final(self).store.spec_record(RecordId::RegistrationKey) matches Some(rec)
                    && rec.format == SealFormat::Current),
            final(self).spec_genesis() == old(self).spec_genesis(),
            final(self).spec_current() == old(self).spec_current(),
            final(self).master_keys == old(self).master_keys,
            same_aux_records(final(self).store, old(self).store),
    {
        let data = match self.store.unseal(RecordId::RegistrationKey) {
            Some(rec) => Some(crypto::clone_bytes(&rec.data)),
            None => None,
        };
        match data {
            Some(d) => self.store.seal(RecordId::RegistrationKey, d),
            None => {}
        }
        Ok(())
    }

    /// Generates a fresh genesis seed from enclave-local entropy and seals
    /// it as both genesis and current. Fails, changing nothing, if any seed
    /// already exists: an established chain seed is never silently replaced.
    pub fn create_consensus_seed(&mut self) -> (r: Result<(), RegError>)
        requires
            old(self).wf(),
        ensures
            final(self).wf(),
            r is Ok <==> !old(self).has_seed(),
            r matches Err(e) ==> e == RegError::InvalidInput && *final(self) == *old(self),
            r is Ok ==> (final(self).spec_genesis() matches Some(g)
                && final(self).spec_current() == Some(g)),
            r is Ok ==> final(self).spec_registration_secret() == old(self).spec_registration_secret()
                && final(self).master_keys == old(self).master_keys
                && same_aux_records(final(self).store, old(self).store),
    {
        if self.store.contains(RecordId::GenesisSeed) || self.store.contains(RecordId::CurrentSeed) {
            return Err(RegError::InvalidInput);
        }
        let fresh = crypto::random_bytes();
        let copy = crypto::clone_bytes(&fresh);
        self.store.seal(RecordId::GenesisSeed, fresh);
        self.store.seal(RecordId::CurrentSeed, copy);
        Ok(())
    }

    /// Replaces the current seed after checking that `expected_genesis`
    /// matches the sealed genesis. Succeeds exactly when the sealed genesis
    /// exists and equals the expectation; any failure leaves the vault
    /// unchanged. Success drops the master-key cache: master keys must be
    /// re-derived whenever the current seed changes.
    pub fn set_consensus_seed(&mut self, expected_genesis: &Seed, new_current: &Seed) -> (r: Result<
        (),
        RegError,
    >)
        requires
            old(self).wf(),
            expected_genesis.wf(),
            new_current.wf(),
        ensures
            final(self).wf(),
            r is Ok <==> old(self).spec_genesis() == Some(expected_genesis.bytes@),
            old(self).spec_genesis() is None ==> (r matches Err(e) && e == RegError::SeedMissing),
            (old(self).spec_genesis() matches Some(g) && g != expected_genesis.bytes@)
                ==> (r matches Err(e) && e == RegError::SeedMismatch),
            r is Err ==> *final(self) == *old(self),
            r is Ok ==> final(self).spec_genesis() == old(self).spec_genesis()
                && final(self).spec_current() == Some(new_current.bytes@)
                && final(self).master_keys is None
                && final(self).spec_registration_secret() == old(self).spec_registration_secret()
                && same_aux_records(final(self).store, old(self).store),
    {
        let genesis_matches = match self.store.unseal(RecordId::GenesisSeed) {
            Some(rec) => Some(crypto::bytes_equal(&rec.data, &expected_genesis.bytes)),
            None => None,
        };
        match genesis_matches {
            None => Err(RegError::SeedMissing),
            Some(false) => Err(RegError::SeedMismatch),
            Some(true) => {
                self.store.seal(RecordId::CurrentSeed, crypto::clone_bytes(&new_current.bytes));
                self.master_keys = None;
                Ok(())
            }
        }
    }

    /// Seals a received seed pair on a vault that holds no seed yet: the
    /// adoption step of node initialization. Fails, changing nothing, if
    /// any seed is already present.
    pub fn adopt_consensus_seed(&mut self, genesis: &Seed, current: &Seed) -> (r: Result<
        (),
        RegError,
    >)
        requires
            old(self).wf(),
            genesis.wf(),
            current.wf(),
        ensures
            final(self).wf(),
            r is Ok <==> !old(self).has_seed(),
            r matches Err(e) ==> e == RegError::InvalidInput && *final(self) == *old(self),
            r is Ok ==> final(self).spec_genesis() == Some(genesis.bytes@)
                && final(self).spec_current() == Some(current.bytes@)
                && final(self).spec_registration_secret() == old(self).spec_registration_secret()
                && final(self).master_keys == old(self).master_keys
                && same_aux_records(final(self).store, old(self).store),
    {
        if self.store.contains(RecordId::GenesisSeed) || self.store.contains(RecordId::CurrentSeed) {
            return Err(RegError::InvalidInput);
        }
        self.store.seal(RecordId::GenesisSeed, crypto::clone_bytes(&genesis.bytes));
        self.store.seal(RecordId::CurrentSeed, crypto::clone_bytes(&current.bytes));
        Ok(())
    }

    /// The sealed consensus seed pair. Fails when either value is absent.
    pub fn get_consensus_seed(&self) -> (r: Result<ConsensusSeed, RegError>)
        requires
            self.wf(),
        ensures
            match r {
                Ok(cs) => {
                    &&& self.spec_genesis() == Some(cs.genesis.bytes@)
                    &&& self.spec_current() == Some(cs.current.bytes@)
                    &&& cs.genesis.wf()
                    &&& cs.current.wf()
                },
                Err(e) => {
                    &&& e == RegError::NotFound
                    &&& (self.spec_genesis() is None || self.spec_current() is None)
                },
            },
    {
        let genesis = match self.store.unseal(RecordId::GenesisSeed) {
            Some(rec) => Seed { bytes: crypto::clone_bytes(&rec.data) },
            None => {
                return Err(RegError::NotFound);
            }
        };
        let current = match self.store.unseal(RecordId::CurrentSeed) {
            Some(rec) => Seed { bytes: crypto::clone_bytes(&rec.data) },
            None => {
                return Err(RegError::NotFound);
            }
        };
        Ok(ConsensusSeed { genesis, current })
    }

    /// Best-effort removal of both seed values before a fresh seed is
    /// adopted. Reports whether anything was present; "nothing to delete"
    /// is not an error. Drops the master-key cache.
    pub fn delete_consensus_seed(&mut self) -> (r: bool)
        requires
            old(self).wf(),
        ensures
            final(self).wf(),
            r == old(self).has_seed(),
            final(self).spec_genesis() is None,
            final(self).spec_current() is None,
            final(self).master_keys is None,
            final(self).spec_registration_secret() == old(self).spec_registration_secret(),
            same_aux_records(final(self).store, old(self).store),
    {
        let had_genesis = self.store.remove(RecordId::GenesisSeed);
        let had_current = self.store.remove(RecordId::CurrentSeed);
        self.master_keys = None;
        had_genesis || had_current
    }

    /// Derives the master key set from the current seed and caches it.
    /// Succeeds exactly when both seed values exist; the result is a
    /// function of the current seed alone.
    pub fn generate_consensus_master_keys(&mut self) -> (r: Result<(), RegError>)
        requires
            old(self).wf(),
        ensures
            final(self).wf(),
            final(self).store == old(self).store,
            r is Ok <==> (old(self).spec_genesis() is Some && old(self).spec_current() is Some),
            r matches Err(e) ==> e == RegError::SeedMissing && *final(self) == *old(self),
            r is Ok ==> (final(self).master_keys matches Some(mk) && mk.wf()
                && mk.derived_from(old(self).spec_current().unwrap())),
    {
        if !self.store.contains(RecordId::GenesisSeed) {
            return Err(RegError::SeedMissing);
        }
        let current = match self.store.unseal(RecordId::CurrentSeed) {
            Some(rec) => Seed { bytes: crypto::clone_bytes(&rec.data) },
            None => {
                return Err(RegError::SeedMissing);
            }
        };
        self.master_keys = Some(MasterKeys::derive(&current));
        Ok(())
    }

    /// The derived seed-exchange key pair, for encrypting seeds to peers.
    /// Fails when master keys have not been derived yet.
    pub fn seed_exchange_key(&self) -> (r: Result<KeyPair, RegError>)
        requires
            self.wf(),
        ensures
            match r {
                Ok(kp) => {
                    &&& self.master_keys matches Some(mk)
                        && kp.secret@ == mk.seed_exchange.secret@
                        && kp.public@ == mk.seed_exchange.public@
                    &&& kp.wf()
                },
                Err(e) => e == RegError::SeedMissing && self.master_keys is None,
            },
    {
        match &self.master_keys {
            Some(mk) => Ok(KeyPair {
                secret: crypto::clone_bytes(&mk.seed_exchange.secret),
                public: crypto::clone_bytes(&mk.seed_exchange.public),
            }),
            None => Err(RegError::SeedMissing),
        }
    }

    /// The public halves of the derived master keys, for export to the
    /// untrusted side. Fails when master keys have not been derived yet.
    pub fn export_master_public_keys(&self) -> (r: Result<MasterPublicKeys, RegError>)
        requires
            self.wf(),
        ensures
            match r {
                Ok(mp) => self.master_keys matches Some(mk)
                    && mp.seed_exchange_public@ == mk.seed_exchange.public@
                    && mp.io_exchange_public@ == mk.io_exchange.public@,
                Err(e) => e == RegError::SeedMissing && self.master_keys is None,
            },
    {
        match &self.master_keys {
            Some(mk) => Ok(MasterPublicKeys {
                seed_exchange_public: crypto::clone_bytes(&mk.seed_exchange.public),
                io_exchange_public: crypto::clone_bytes(&mk.io_exchange.public),
            }),
            None => Err(RegError::SeedMissing),
        }
    }
}

} // verus!
