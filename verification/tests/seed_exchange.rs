//! Seed-exchange scenarios: the encrypt/decrypt round trip, tampering,
//! and node initialization over the wire format.

use enclave_registration::errors::RegError;
use enclave_registration::exchange::{decrypt_seed, encrypt_seed, parse_seed_input, SeedSelector};
use enclave_registration::keys::{Keychain, Seed};
use enclave_registration::registration::{
    get_genesis_seed, init_bootstrap, init_node_finish, init_node_resume, init_node_start,
    key_gen, NodeInitStep,
};

fn bootstrap_vault() -> Keychain {
    let mut kc = Keychain::new();
    init_bootstrap(&mut kc).expect("fresh bootstrap must succeed");
    kc
}

#[test]
fn seed_round_trip_recovers_the_exact_bytes() {
    let sender = bootstrap_vault();
    let sender_public = sender.get_registration_key().unwrap().public;
    let sent = sender.get_consensus_seed().unwrap();

    let mut receiver = Keychain::new();
    let receiver_public = key_gen(&mut receiver).unwrap();

    let blob = encrypt_seed(&sender, &receiver_public, SeedSelector::GenesisAndCurrent, false)
        .expect("encrypting both seeds must succeed");
    assert_eq!(blob.len(), 97);
    assert_eq!(blob[0], 96);

    let (first_ct, second_ct) = parse_seed_input(&blob).unwrap();
    let genesis = decrypt_seed(&receiver, &sender_public, &first_ct).unwrap();
    let current = decrypt_seed(&receiver, &sender_public, &second_ct.unwrap()).unwrap();
    assert_eq!(genesis.bytes, sent.genesis.bytes);
    assert_eq!(current.bytes, sent.current.bytes);
}

#[test]
fn decrypt_under_a_mismatched_key_fails_with_crypto_failure() {
    let sender = bootstrap_vault();
    let sent_to = {
        let mut receiver = Keychain::new();
        key_gen(&mut receiver).unwrap()
    };
    let blob = encrypt_seed(&sender, &sent_to, SeedSelector::Genesis, false).unwrap();
    let ciphertext: Vec<u8> = blob[1..49].to_vec();

    let mut bystander = Keychain::new();
    let _ = key_gen(&mut bystander).unwrap();
    let sender_public = sender.get_registration_key().unwrap().public;
    let result = decrypt_seed(&bystander, &sender_public, &ciphertext);
    assert_eq!(result.unwrap_err(), RegError::CryptoFailure);
}

#[test]
fn tampered_ciphertext_fails_with_crypto_failure() {
    let sender = bootstrap_vault();
    let sender_public = sender.get_registration_key().unwrap().public;

    let mut receiver = Keychain::new();
    let receiver_public = key_gen(&mut receiver).unwrap();
    let blob = encrypt_seed(&sender, &receiver_public, SeedSelector::Genesis, false).unwrap();
    let mut ciphertext: Vec<u8> = blob[1..49].to_vec();
    ciphertext[10] ^= 0x40;
    let result = decrypt_seed(&receiver, &sender_public, &ciphertext);
    assert_eq!(result.unwrap_err(), RegError::CryptoFailure);
}

#[test]
fn ciphertext_of_the_wrong_length_is_rejected_before_decryption() {
    let receiver = bootstrap_vault();
    let sender_public = vec![2u8; 32];
    let short = vec![0u8; 47];
    assert_eq!(decrypt_seed(&receiver, &sender_public, &short).unwrap_err(), RegError::InvalidInput);
}

#[test]
fn node_init_adopts_both_seeds_from_a_two_seed_blob() {
    let sender = bootstrap_vault();
    let sender_public = sender.get_registration_key().unwrap().public;
    let sent = sender.get_consensus_seed().unwrap();

    let mut node = Keychain::new();
    let node_public = key_gen(&mut node).unwrap();
    let blob = encrypt_seed(&sender, &node_public, SeedSelector::GenesisAndCurrent, false).unwrap();

    let step = init_node_start(&mut node, &sender_public, &blob).unwrap();
    assert!(matches!(step, NodeInitStep::Completed));
    let adopted = node.get_consensus_seed().unwrap();
    assert_eq!(adopted.genesis.bytes, sent.genesis.bytes);
    assert_eq!(adopted.current.bytes, sent.current.bytes);

    let exported = init_node_finish(&mut node).unwrap();
    assert_eq!(exported.seed_exchange_public.len(), 32);
}

#[test]
fn node_init_with_a_single_seed_blob_waits_for_the_service_seed() {
    let sender = bootstrap_vault();
    let sender_public = sender.get_registration_key().unwrap().public;
    let sent = sender.get_consensus_seed().unwrap();

    let mut node = Keychain::new();
    let node_public = key_gen(&mut node).unwrap();
    let single = encrypt_seed(&sender, &node_public, SeedSelector::Genesis, false).unwrap();
    assert_eq!(single.len(), 49);
    let mut padded = single.clone();
    padded.resize(97, 0);

    let step = init_node_start(&mut node, &sender_public, &padded).unwrap();
    let genesis = match step {
        NodeInitStep::NeedCurrentSeed { genesis } => genesis,
        NodeInitStep::Completed => panic!("a single-seed blob must not complete"),
    };
    assert_eq!(genesis.bytes, sent.genesis.bytes);

    let service_seed = Seed::from_bytes(vec![42u8; 32]);
    let response = init_node_resume(&mut node, &genesis, &service_seed).unwrap();
    assert_eq!(response.len(), 97);
    assert_eq!(response[0], 96);

    let adopted = node.get_consensus_seed().unwrap();
    assert_eq!(adopted.genesis.bytes, sent.genesis.bytes);
    assert_eq!(adopted.current.bytes, vec![42u8; 32]);

    let node_public_after = node.get_registration_key().unwrap().public;
    let (first_ct, second_ct) = parse_seed_input(&response).unwrap();
    let echoed_genesis = decrypt_seed(&node, &node_public_after, &first_ct).unwrap();
    let echoed_current = decrypt_seed(&node, &node_public_after, &second_ct.unwrap()).unwrap();
    assert_eq!(echoed_genesis.bytes, sent.genesis.bytes);
    assert_eq!(echoed_current.bytes, vec![42u8; 32]);
}

#[test]
fn node_init_rejects_a_bad_length_byte_before_any_decryption() {
    let mut node = bootstrap_vault();
    let before = node.get_consensus_seed().unwrap();
    let mut blob = vec![0u8; 97];
    blob[0] = 50;
    let result = init_node_start(&mut node, &vec![1u8; 32], &blob);
    assert_eq!(result.unwrap_err(), RegError::InvalidInput);
    let after = node.get_consensus_seed().unwrap();
    assert_eq!(before.genesis.bytes, after.genesis.bytes);
    assert_eq!(before.current.bytes, after.current.bytes);
}

#[test]
fn node_init_rejects_a_buffer_of_the_wrong_total_length() {
    let mut node = bootstrap_vault();
    let blob = vec![48u8; 96];
    let result = init_node_start(&mut node, &vec![1u8; 32], &blob);
    assert_eq!(result.unwrap_err(), RegError::InvalidInput);
}

#[test]
fn node_init_rejects_a_mis_sized_peer_public_key() {
    let mut node = bootstrap_vault();
    let blob = vec![0u8; 97];
    let result = init_node_start(&mut node, &vec![1u8; 31], &blob);
    assert_eq!(result.unwrap_err(), RegError::InvalidInput);
}

#[test]
fn genesis_seed_export_serves_only_the_genesis_value() {
    let sender = bootstrap_vault();
    let sender_public = sender.get_registration_key().unwrap().public;
    let sent = sender.get_consensus_seed().unwrap();

    let mut requester = Keychain::new();
    let requester_public = key_gen(&mut requester).unwrap();

    let blob = get_genesis_seed(&sender, &requester_public).unwrap();
    assert_eq!(blob.len(), 49);
    assert_eq!(blob[0], 48);
    let ciphertext: Vec<u8> = blob[1..49].to_vec();
    let genesis = decrypt_seed(&requester, &sender_public, &ciphertext).unwrap();
    assert_eq!(genesis.bytes, sent.genesis.bytes);
}

#[test]
fn genesis_seed_export_validates_the_requester_key_size() {
    let sender = bootstrap_vault();
    assert_eq!(get_genesis_seed(&sender, &vec![1u8; 33]).unwrap_err(), RegError::InvalidInput);
}

#[test]
fn encrypt_seed_without_a_seed_reports_seed_missing() {
    let mut kc = Keychain::new();
    let _ = key_gen(&mut kc).unwrap();
    let result = encrypt_seed(&kc, &vec![2u8; 32], SeedSelector::Genesis, false);
    assert_eq!(result.unwrap_err(), RegError::SeedMissing);
}

#[test]
fn encrypt_seed_without_a_registration_key_reports_not_found() {
    let kc = Keychain::new();
    let result = encrypt_seed(&kc, &vec![2u8; 32], SeedSelector::Genesis, false);
    assert_eq!(result.unwrap_err(), RegError::NotFound);
}
