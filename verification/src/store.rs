//! The sealed store: named persisted secrets bound to the enclave identity.
//!
//! Each record carries the sealing format it was written with; migration
//! rewrites legacy records to the current format one at a time, skipping
//! absent records, and is safe to re-invoke.

use vstd::prelude::*;

verus! {

/// The sealing format a record was written with.
#[derive(Clone, Copy, PartialEq, Eq, Structural, Debug)]
pub enum SealFormat {
    /// The older sealing format, still readable but due for rewrite.
    Legacy,
    /// The current sealing format.
    Current,
}

/// One named persisted secret.
pub struct SealedRecord {
    pub format: SealFormat,
    pub data: Vec<u8>,
}

/// The fixed set of record names the store serves, in migration order.
#[derive(Clone, Copy, PartialEq, Eq, Structural, Debug)]
pub enum RecordId {
    RegistrationKey,
    GenesisSeed,
    CurrentSeed,
    Rek,
    Irs,
    ValidatorSet,
    TxBytes,
}

/// The store: one optional record per name.
pub struct SealedStore {
    pub registration_key: Option<SealedRecord>,
    pub genesis_seed: Option<SealedRecord>,
    pub current_seed: Option<SealedRecord>,
    pub rek: Option<SealedRecord>,
    pub irs: Option<SealedRecord>,
    pub validator_set: Option<SealedRecord>,
    pub tx_bytes: Option<SealedRecord>,
}

impl SealedStore {
    /// The record stored under a name.
    pub open spec fn spec_record(self, id: RecordId) -> Option<SealedRecord> {
        match id {
            RecordId::RegistrationKey => self.registration_key,
            RecordId::GenesisSeed => self.genesis_seed,
            RecordId::CurrentSeed => self.current_seed,
            RecordId::Rek => self.rek,
            RecordId::Irs => self.irs,
            RecordId::ValidatorSet => self.validator_set,
            RecordId::TxBytes => self.tx_bytes,
        }
    }

    /// Every present record is in the current sealing format.
    pub open spec fn fully_migrated(self) -> bool {
        forall|id: RecordId|
            #![trigger self.spec_record(id)]
            self.spec_record(id) matches Some(r) ==> r.format == SealFormat::Current
    }

    /// An empty store, as on a fresh enclave.
    pub fn new() -> (r: SealedStore)
        ensures
            forall|id: RecordId| #![trigger r.spec_record(id)] r.spec_record(id) is None,
    {
        SealedStore {
            registration_key: None,
            genesis_seed: None,
            current_seed: None,
            rek: None,
            irs: None,
            validator_set: None,
            tx_bytes: None,
        }
    }

    /// Seals `data` under `id` in the current format, overwriting any prior
    /// record of that name and touching no other.
    pub fn seal(&mut self, id: RecordId, data: Vec<u8>)
        ensures
            final(self).spec_record(id) matches Some(r)
                && r.format == SealFormat::Current && r.data@ == data@,
            forall|other: RecordId|
                #![trigger final(self).spec_record(other)]
                other != id ==> final(self).spec_record(other) == old(self).spec_record(other),
    {
        let record = Some(SealedRecord { format: SealFormat::Current, data });
        match id {
            RecordId::RegistrationKey => self.registration_key = record,
            RecordId::GenesisSeed => self.genesis_seed = record,
            RecordId::CurrentSeed => self.current_seed = record,
            RecordId::Rek => self.rek = record,
            RecordId::Irs => self.irs = record,
            RecordId::ValidatorSet => self.validator_set = record,
            RecordId::TxBytes => self.tx_bytes = record,
        }
    }

    /// The bytes sealed under `id`, if any.
    pub fn unseal(&self, id: RecordId) -> (r: Option<&SealedRecord>)
        ensures
            match r {
                Some(rec) => self.spec_record(id) matches Some(stored) && *rec == stored,
                None => self.spec_record(id) is None,
            },
    {
        let slot = match id {
            RecordId::RegistrationKey => &self.registration_key,
            RecordId::GenesisSeed => &self.genesis_seed,
            RecordId::CurrentSeed => &self.current_seed,
            RecordId::Rek => &self.rek,
            RecordId::Irs => &self.irs,
            RecordId::ValidatorSet => &self.validator_set,
            RecordId::TxBytes => &self.tx_bytes,
        };
        match slot {
            Some(rec) => Some(rec),
            None => None,
        }
    }

    /// Whether a record exists under `id`.
    pub fn contains(&self, id: RecordId) -> (r: bool)
        ensures
            r == (self.spec_record(id) is Some),
    {
        self.unseal(id).is_some()
    }

    /// Removes the record under `id`; reports whether one was present.
    /// "Nothing to delete" is not an error.
    pub fn remove(&mut self, id: RecordId) -> (r: bool)
        ensures
            r == (old(self).spec_record(id) is Some),
            final(self).spec_record(id) is None,
            forall|other: RecordId|
                #![trigger final(self).spec_record(other)]
                other != id ==> final(self).spec_record(other) == old(self).spec_record(other),
    {
        let was_present = self.contains(id);
        match id {
            RecordId::RegistrationKey => self.registration_key = None,
            RecordId::GenesisSeed => self.genesis_seed = None,
            RecordId::CurrentSeed => self.current_seed = None,
            RecordId::Rek => self.rek = None,
            RecordId::Irs => self.irs = None,
            RecordId::ValidatorSet => self.validator_set = None,
            RecordId::TxBytes => self.tx_bytes = None,
        }
        was_present
    }

    /// Rewrites the record under `id` from the legacy to the current sealing
    /// format; an absent or already-current record is left as it is.
    /// Reports whether a rewrite happened.
    pub fn migrate_record(&mut self, id: RecordId) -> (r: bool)
        ensures
            r == (old(self).spec_record(id) matches Some(rec) && rec.format == SealFormat::Legacy),
            old(self).spec_record(id) is None ==> final(self).spec_record(id) is None,
            old(self).spec_record(id) matches Some(rec) ==> final(self).spec_record(id) matches Some(now)
                && now.format == SealFormat::Current && now.data@ == rec.data@,
            !r ==> *final(self) == *old(self),
            forall|other: RecordId|
                #![trigger final(self).spec_record(other)]
                other != id ==> final(self).spec_record(other) == old(self).spec_record(other),
    {
        let needs_rewrite = match self.unseal(id) {
            Some(rec) => matches!(rec.format, SealFormat::Legacy),
            None => false,
        };
        if needs_rewrite {
            let data = match self.unseal(id) {
                Some(rec) => crate::crypto::clone_bytes(&rec.data),
                None => Vec::new(),
            };
            self.seal(id, data);
        }
        needs_rewrite
    }
}

} // verus!
