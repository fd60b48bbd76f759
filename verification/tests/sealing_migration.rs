//! Sealed-storage migration scenarios: legacy rewrite, skipped absences,
//! and idempotence of a second run.

use enclave_registration::keys::Keychain;
use enclave_registration::registration::migrate_sealing;
use enclave_registration::store::{RecordId, SealFormat, SealedRecord, SealedStore};

fn legacy(data: Vec<u8>) -> Option<SealedRecord> {
    Some(SealedRecord { format: SealFormat::Legacy, data })
}

#[test]
fn migration_rewrites_legacy_records_and_skips_absent_ones() {
    let mut store = SealedStore::new();
    store.registration_key = legacy(vec![1; 32]);
    store.genesis_seed = legacy(vec![2; 32]);
    store.validator_set = legacy(vec![3, 4, 5]);
    store.seal(RecordId::TxBytes, vec![6, 7]);

    let rewritten = migrate_sealing(&mut store);
    assert_eq!(rewritten, 3);

    for id in [
        RecordId::RegistrationKey,
        RecordId::GenesisSeed,
        RecordId::ValidatorSet,
        RecordId::TxBytes,
    ] {
        let record = store.unseal(id).expect("migrated record must survive");
        assert_eq!(record.format, SealFormat::Current);
    }
    assert_eq!(store.unseal(RecordId::RegistrationKey).unwrap().data, vec![1; 32]);
    assert_eq!(store.unseal(RecordId::ValidatorSet).unwrap().data, vec![3, 4, 5]);
    assert!(store.unseal(RecordId::CurrentSeed).is_none());
    assert!(store.unseal(RecordId::Rek).is_none());
    assert!(store.unseal(RecordId::Irs).is_none());
}

#[test]
fn a_second_migration_run_is_a_no_op() {
    let mut store = SealedStore::new();
    store.current_seed = legacy(vec![9; 32]);
    store.irs = legacy(vec![1, 2]);

    let first = migrate_sealing(&mut store);
    assert_eq!(first, 2);
    let data_after_first = store.unseal(RecordId::CurrentSeed).unwrap().data.clone();

    let second = migrate_sealing(&mut store);
    assert_eq!(second, 0);
    let record = store.unseal(RecordId::CurrentSeed).unwrap();
    assert_eq!(record.format, SealFormat::Current);
    assert_eq!(record.data, data_after_first);
}

#[test]
fn migration_of_an_empty_store_reports_nothing_to_do() {
    let mut store = SealedStore::new();
    assert_eq!(migrate_sealing(&mut store), 0);
    assert!(store.unseal(RecordId::RegistrationKey).is_none());
}

#[test]
fn a_vault_over_a_migrated_store_serves_its_records() {
    let mut store = SealedStore::new();
    store.registration_key = legacy(vec![8; 32]);
    migrate_sealing(&mut store);
    let kc = Keychain::from_store(store);
    let pair = kc.get_registration_key().expect("the migrated key must still unseal");
    assert_eq!(pair.secret, vec![8; 32]);
}

#[test]
fn contains_and_remove_track_record_presence() {
    let mut store = SealedStore::new();
    assert!(!store.contains(RecordId::Rek));
    store.seal(RecordId::Rek, vec![1]);
    assert!(store.contains(RecordId::Rek));
    assert!(store.remove(RecordId::Rek));
    assert!(!store.remove(RecordId::Rek));
}
