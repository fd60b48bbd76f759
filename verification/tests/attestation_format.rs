//! Combined-artifact scenarios: header layout, read-back round trip,
//! failure judgement, flags, and migration-key assembly.

use enclave_registration::attestation::{
    combine_attestation, decode_flags, migration_keypair, parse_attestation_artifact,
    plan_attestation, seal_key_request_id, ArtifactDest, AttestationKey,
};
use enclave_registration::errors::RegError;
use enclave_registration::keys::Keychain;
use enclave_registration::registration::key_gen;

#[test]
fn artifact_header_names_the_exact_section_lengths() {
    let epid: Result<Vec<u8>, RegError> = Ok(vec![0xAA; 3]);
    let dcap: Result<(Vec<u8>, Vec<u8>), RegError> = Ok((vec![0xBB; 2], vec![0xCC; 300]));
    let outcome = combine_attestation(&dcap, &epid, false);
    assert!(outcome.status.is_ok());
    assert_eq!(outcome.dest, ArtifactDest::Standard);
    assert_eq!(outcome.artifact.len(), 12 + 3 + 2 + 300);
    assert_eq!(&outcome.artifact[0..4], &[3, 0, 0, 0]);
    assert_eq!(&outcome.artifact[4..8], &[2, 0, 0, 0]);
    assert_eq!(&outcome.artifact[8..12], &[0x2C, 1, 0, 0]);
    assert_eq!(&outcome.artifact[12..15], &[0xAA, 0xAA, 0xAA]);
    assert_eq!(&outcome.artifact[15..17], &[0xBB, 0xBB]);
    assert_eq!(outcome.artifact[17], 0xCC);
}

#[test]
fn artifact_round_trip_recovers_the_sections() {
    let epid: Result<Vec<u8>, RegError> = Ok(vec![1, 2, 3, 4, 5]);
    let dcap: Result<(Vec<u8>, Vec<u8>), RegError> = Ok((vec![6, 7], vec![8, 9, 10]));
    let outcome = combine_attestation(&dcap, &epid, false);
    let (epid_bytes, quote, collateral) = parse_attestation_artifact(&outcome.artifact).unwrap();
    assert_eq!(epid_bytes, vec![1, 2, 3, 4, 5]);
    assert_eq!(quote, vec![6, 7]);
    assert_eq!(collateral, vec![8, 9, 10]);
}

#[test]
fn artifact_with_a_short_or_inconsistent_header_is_rejected() {
    assert_eq!(
        parse_attestation_artifact(&vec![0u8; 11]).unwrap_err(),
        RegError::InvalidInput
    );
    let epid: Result<Vec<u8>, RegError> = Ok(vec![1, 2, 3]);
    let dcap: Result<(Vec<u8>, Vec<u8>), RegError> = Err(RegError::AttestationFailure);
    let mut artifact = combine_attestation(&dcap, &epid, false).artifact;
    artifact.push(0);
    assert_eq!(parse_attestation_artifact(&artifact).unwrap_err(), RegError::InvalidInput);
}

#[test]
fn combine_with_both_schemes_failing_is_a_failure_not_an_empty_success() {
    let epid: Result<Vec<u8>, RegError> = Err(RegError::CryptoFailure);
    let dcap: Result<(Vec<u8>, Vec<u8>), RegError> = Err(RegError::AttestationFailure);
    let outcome = combine_attestation(&dcap, &epid, false);
    assert_eq!(outcome.artifact, vec![0u8; 12]);
    assert_eq!(outcome.status.unwrap_err(), RegError::CryptoFailure);
}

#[test]
fn combine_with_empty_epid_success_and_no_quote_is_a_generic_failure() {
    let epid: Result<Vec<u8>, RegError> = Ok(Vec::new());
    let dcap: Result<(Vec<u8>, Vec<u8>), RegError> = Err(RegError::AttestationFailure);
    let outcome = combine_attestation(&dcap, &epid, false);
    assert_eq!(outcome.status.unwrap_err(), RegError::AttestationFailure);
}

#[test]
fn combine_with_one_scheme_succeeding_succeeds() {
    let epid: Result<Vec<u8>, RegError> = Err(RegError::AttestationFailure);
    let dcap: Result<(Vec<u8>, Vec<u8>), RegError> = Ok((vec![1], Vec::new()));
    let outcome = combine_attestation(&dcap, &epid, true);
    assert!(outcome.status.is_ok());
    assert_eq!(outcome.dest, ArtifactDest::Migration);
}

#[test]
fn flag_bits_decode_as_documented() {
    let none = decode_flags(0);
    assert!(!none.skip_epid && !none.skip_dcap && !none.migration);
    let all = decode_flags(1 | 2 | 16);
    assert!(all.skip_epid && all.skip_dcap && all.migration);
    let other_bits = decode_flags(8 | 4);
    assert!(!other_bits.skip_epid && !other_bits.skip_dcap && !other_bits.migration);
}

#[test]
fn plan_attestation_without_a_registration_key_reports_not_found() {
    let kc = Keychain::new();
    assert_eq!(plan_attestation(&kc, 0).unwrap_err(), RegError::NotFound);
}

#[test]
fn plan_attestation_standard_exports_the_registration_public_key() {
    let mut kc = Keychain::new();
    let public = key_gen(&mut kc).unwrap();
    let plan = plan_attestation(&kc, 2).unwrap();
    assert!(plan.run_epid);
    assert!(!plan.run_dcap);
    assert_eq!(plan.dest, ArtifactDest::Standard);
    assert_eq!(plan.export_public_key.unwrap(), public);
    match plan.key {
        AttestationKey::Registration(pair) => assert_eq!(pair.public, public),
        AttestationKey::Migration => panic!("standard plan must use the registration key"),
    }
}

#[test]
fn plan_attestation_migration_uses_the_migration_key_and_exports_nothing() {
    let kc = Keychain::new();
    let plan = plan_attestation(&kc, 16).unwrap();
    assert_eq!(plan.dest, ArtifactDest::Migration);
    assert!(plan.export_public_key.is_none());
    assert!(matches!(plan.key, AttestationKey::Migration));
}

#[test]
fn migration_keypair_concatenates_the_two_derived_halves() {
    let pair = migration_keypair(&vec![1u8; 16], &vec![2u8; 16]);
    let mut expected = vec![1u8; 16];
    expected.extend_from_slice(&[2u8; 16]);
    assert_eq!(pair.secret, expected);
    assert_eq!(pair.public.len(), 32);
    assert_ne!(pair.public, pair.secret);
}

#[test]
fn seal_key_request_id_pads_the_label_with_zeroes() {
    let id = seal_key_request_id(&b"secret_migrate.1".to_vec());
    assert_eq!(id.len(), 32);
    assert_eq!(&id[0..16], b"secret_migrate.1");
    assert_eq!(&id[16..], &[0u8; 16]);
}
