//! The registration orchestrator: the entry protocols that sequence the
//! vault, the seed exchange and the attestation engine.
//!
//! Bootstrap-init founds a chain: identity, then a fresh genesis seed,
//! then master keys. Node-init joins one: it validates the incoming
//! encrypted-seed buffer before any decryption, re-seals the identity,
//! drops any stale seed, and adopts the decrypted values; when the buffer
//! carries only the genesis seed, the caller fetches the current seed from
//! the remote seed service and resumes. Key-gen publishes an identity on
//! its own; genesis-seed-export serves the genesis value to full-sync
//! nodes; sealed-storage migration rewrites legacy records in place.

use vstd::prelude::*;

use crate::crypto::{siv_dec, x25519_pk_of, KEY_SIZE};
use crate::errors::RegError;
use crate::exchange;
use crate::exchange::{
    exchange_key, double_seed_blob, parse_seed_input_spec, single_seed_blob, SeedSelector,
    INPUT_ENCRYPTED_SEED_SIZE, SINGLE_ENCRYPTED_SEED_SIZE,
};
use crate::keys::{same_aux_records, Keychain, MasterPublicKeys, Seed};
use crate::store::{RecordId, SealFormat, SealedStore};

verus! {

/// Initializes the bootstrap node at the genesis of a chain: identity,
/// fresh genesis seed, master keys. Returns the seed-exchange public key
/// that registering nodes will encrypt to. Fails, changing nothing, when
/// any consensus seed already exists: a second bootstrap never silently
/// discards an established chain seed.
pub fn init_bootstrap(kc: &mut Keychain) -> (r: Result<Vec<u8>, RegError>)
    requires
        old(kc).wf(),
    ensures
        final(kc).wf(),
        r is Ok <==> !old(kc).has_seed(),
        r matches Err(e) ==> e == RegError::InvalidInput && *final(kc) == *old(kc),
        r matches Ok(public_key) ==> ({
            &&& final(kc).spec_registration_secret() is Some
            &&& (final(kc).spec_genesis() matches Some(g) && final(kc).spec_current() == Some(g))
            &&& (final(kc).master_keys matches Some(mk) && mk.derived_from(
                final(kc).spec_current().unwrap(),
            ) && public_key@ == mk.seed_exchange.public@)
            &&& public_key@.len() == KEY_SIZE
            &&& same_aux_records(final(kc).store, old(kc).store)
        }),
{
    if kc.store.contains(RecordId::GenesisSeed) || kc.store.contains(RecordId::CurrentSeed) {
        return Err(RegError::InvalidInput);
    }
    match kc.create_registration_key() {
        Ok(()) => {}
        Err(e) => {
            return Err(e);
        }
    }
    match kc.create_consensus_seed() {
        Ok(()) => {}
        Err(e) => {
            return Err(e);
        }
    }
    match kc.generate_consensus_master_keys() {
        Ok(()) => {}
        Err(e) => {
            return Err(e);
        }
    }
    let exchange_pair = match kc.seed_exchange_key() {
        Ok(kp) => kp,
        Err(e) => {
            return Err(e);
        }
    };
    Ok(exchange_pair.public)
}

/// What the first half of node initialization decided.
#[derive(Debug)]
pub enum NodeInitStep {
    /// The buffer carried both seeds; they are adopted. Master keys are
    /// derived by `init_node_finish`.
    Completed,
    /// The buffer carried only the genesis seed, now decrypted. The caller
    /// must obtain the current seed — from the remote seed service — and
    /// hand both to `init_node_resume`.
    NeedCurrentSeed { genesis: Seed },
}

/// The validation and decryption half of node initialization.
///
/// The peer public key and the encrypted-seed buffer are validated first:
/// a buffer of the wrong size, or whose length byte names neither one nor
/// two seeds, is rejected before any decryption or any state change. Then
/// the registration key is re-sealed under the current policy, any stale
/// seed is dropped, and the carried seed values are decrypted and — when
/// both are present — adopted.
pub fn init_node_start(kc: &mut Keychain, sender_public: &Vec<u8>, encrypted_seed: &Vec<u8>) -> (r:
    Result<NodeInitStep, RegError>)
    requires
        old(kc).wf(),
    ensures
        final(kc).wf(),
        sender_public@.len() != KEY_SIZE ==> (r matches Err(e) && e == RegError::InvalidInput
            && *final(kc) == *old(kc)),
        (sender_public@.len() == KEY_SIZE && parse_seed_input_spec(encrypted_seed@) is Err) ==> (
        r matches Err(e) && e == RegError::InvalidInput && *final(kc) == *old(kc)),
        (sender_public@.len() == KEY_SIZE && parse_seed_input_spec(encrypted_seed@) is Ok
            && old(kc).spec_registration_secret() is None) ==> (r matches Err(e) && e
            == RegError::NotFound && *final(kc) == *old(kc)),
        (sender_public@.len() == KEY_SIZE && old(kc).spec_registration_secret() is Some
            && parse_seed_input_spec(encrypted_seed@) is Ok) ==> ({
            let sk = old(kc).spec_registration_secret().unwrap();
            let cts = parse_seed_input_spec(encrypted_seed@)->Ok_0;
            let key = exchange_key(sk, sender_public@);
            &&& final(kc).spec_registration_secret() == old(kc).spec_registration_secret()
            &&& final(kc).master_keys is None
            &&& same_aux_records(final(kc).store, old(kc).store)
            &&& match siv_dec(key, cts.0) {
                None => r matches Err(e) && e == RegError::CryptoFailure && final(kc).spec_genesis() is None && final(kc).spec_current() is None,
                Some(genesis_pt) => match cts.1 {
                    None => r matches Ok(step) && (step matches NodeInitStep::NeedCurrentSeed {
                        genesis,
                    } && genesis.bytes@ == genesis_pt) && final(kc).spec_genesis() is None
                        && final(kc).spec_current() is None,
                    Some(second_ct) => match siv_dec(key, second_ct) {
                        None => r matches Err(e) && e == RegError::CryptoFailure && final(kc).spec_genesis() is None && final(kc).spec_current() is None,
                        Some(current_pt) => r matches Ok(step) && step is Completed && final(kc).spec_genesis() == Some(genesis_pt) && final(kc).spec_current() == Some(
                            current_pt,
                        ),
                    },
                },
            }
        }),
{
    if sender_public.len() != KEY_SIZE {
        return Err(RegError::InvalidInput);
    }
    let (first_ct, second_ct) = match exchange::parse_seed_input(encrypted_seed) {
        Ok(cts) => cts,
        Err(e) => {
            return Err(e);
        }
    };
    if !kc.store.contains(RecordId::RegistrationKey) {
        return Err(RegError::NotFound);
    }
    match kc.reseal_registration_key() {
        Ok(()) => {}
        Err(e) => {
            return Err(e);
        }
    }
    let _had_seed = kc.delete_consensus_seed();
    let genesis = match exchange::decrypt_seed(kc, sender_public, &first_ct) {
        Ok(seed) => seed,
        Err(e) => {
            return Err(e);
        }
    };
    match second_ct {
        Some(ct) => {
            let current = match exchange::decrypt_seed(kc, sender_public, &ct) {
                Ok(seed) => seed,
                Err(e) => {
                    return Err(e);
                }
            };
            match kc.adopt_consensus_seed(&genesis, &current) {
                Ok(()) => {}
                Err(e) => {
                    return Err(e);
                }
            }
            Ok(NodeInitStep::Completed)
        }
        None => Ok(NodeInitStep::NeedCurrentSeed { genesis }),
    }
}

/// The continuation of node initialization once the current seed is in
/// hand: adopts the pair, re-encrypts both seeds to this node's own
/// registration public key as the response blob for pickup, and derives
/// the master keys.
pub fn init_node_resume(kc: &mut Keychain, genesis: &Seed, new_current: &Seed) -> (r: Result<
    Vec<u8>,
    RegError,
>)
    requires
        old(kc).wf(),
        genesis.wf(),
        new_current.wf(),
    ensures
        final(kc).wf(),
        r is Ok <==> (old(kc).spec_registration_secret() is Some && !old(kc).has_seed()),
        old(kc).spec_registration_secret() is None ==> (r matches Err(e) && e == RegError::NotFound
            && *final(kc) == *old(kc)),
        (old(kc).spec_registration_secret() is Some && old(kc).has_seed()) ==> (r matches Err(e)
            && e == RegError::InvalidInput && *final(kc) == *old(kc)),
        r matches Ok(blob) ==> ({
            let sk = old(kc).spec_registration_secret().unwrap();
            let key = exchange_key(sk, x25519_pk_of(sk));
            &&& final(kc).spec_registration_secret() == old(kc).spec_registration_secret()
            &&& final(kc).spec_genesis() == Some(genesis.bytes@)
            &&& final(kc).spec_current() == Some(new_current.bytes@)
            &&& (final(kc).master_keys matches Some(mk) && mk.derived_from(new_current.bytes@))
            &&& blob@ == double_seed_blob(key, genesis.bytes@, new_current.bytes@)
            &&& blob@.len() == INPUT_ENCRYPTED_SEED_SIZE
            &&& (parse_seed_input_spec(blob@) matches Ok(cts)
                && siv_dec(key, cts.0) == Some(genesis.bytes@)
                && (cts.1 matches Some(second_ct) && siv_dec(key, second_ct) == Some(
                new_current.bytes@,
            )))
            &&& same_aux_records(final(kc).store, old(kc).store)
        }),
{
    let registration = match kc.get_registration_key() {
        Ok(kp) => kp,
        Err(e) => {
            return Err(e);
        }
    };
    match kc.adopt_consensus_seed(genesis, new_current) {
        Ok(()) => {}
        Err(e) => {
            return Err(e);
        }
    }
    let response = match exchange::encrypt_seed(
        kc,
        &registration.public,
        SeedSelector::GenesisAndCurrent,
        false,
    ) {
        Ok(blob) => blob,
        Err(e) => {
            return Err(e);
        }
    };
    match kc.generate_consensus_master_keys() {
        Ok(()) => {}
        Err(e) => {
            return Err(e);
        }
    }
    Ok(response)
}

/// The closing step of node initialization: derives the master keys from
/// the adopted seed and exports their public halves.
pub fn init_node_finish(kc: &mut Keychain) -> (r: Result<MasterPublicKeys, RegError>)
    requires
        old(kc).wf(),
    ensures
        final(kc).wf(),
        r is Ok <==> (old(kc).spec_genesis() is Some && old(kc).spec_current() is Some),
        r matches Err(e) ==> e == RegError::SeedMissing && *final(kc) == *old(kc),
        r matches Ok(exported) ==> ({
            &&& final(kc).store == old(kc).store
            &&& (final(kc).master_keys matches Some(mk) && mk.derived_from(
                old(kc).spec_current().unwrap(),
            ) && exported.seed_exchange_public@ == mk.seed_exchange.public@
                && exported.io_exchange_public@ == mk.io_exchange.public@)
        }),
{
    match kc.generate_consensus_master_keys() {
        Ok(()) => {}
        Err(e) => {
            return Err(e);
        }
    }
    kc.export_master_public_keys()
}

/// Creates (or re-creates) the registration key alone and returns its
/// public key, so a node can publish an identity before requesting a seed.
pub fn key_gen(kc: &mut Keychain) -> (r: Result<Vec<u8>, RegError>)
    requires
        old(kc).wf(),
    ensures
        final(kc).wf(),
        r is Ok,
        r matches Ok(public_key) ==> ({
            &&& final(kc).spec_registration_secret() matches Some(sk) && public_key@
                == x25519_pk_of(sk)
            &&& public_key@.len() == KEY_SIZE
            &&& final(kc).spec_genesis() == old(kc).spec_genesis()
            &&& final(kc).spec_current() == old(kc).spec_current()
            &&& final(kc).master_keys == old(kc).master_keys
            &&& same_aux_records(final(kc).store, old(kc).store)
        }),
{
    match kc.create_registration_key() {
        Ok(()) => {}
        Err(e) => {
            return Err(e);
        }
    }
    let registration = match kc.get_registration_key() {
        Ok(kp) => kp,
        Err(e) => {
            return Err(e);
        }
    };
    Ok(registration.public)
}

/// Encrypts only the genesis seed for a requesting full-sync node, without
/// granting it the live current seed.
pub fn get_genesis_seed(kc: &Keychain, requester_public: &Vec<u8>) -> (r: Result<Vec<u8>, RegError>)
    requires
        kc.wf(),
    ensures
        requester_public@.len() != KEY_SIZE ==> (r matches Err(e) && e == RegError::InvalidInput),
        r is Ok <==> (requester_public@.len() == KEY_SIZE && kc.spec_registration_secret() is Some
            && kc.spec_genesis() is Some),
        (requester_public@.len() == KEY_SIZE && kc.spec_registration_secret() is None) ==> (
        r matches Err(e) && e == RegError::NotFound),
        (requester_public@.len() == KEY_SIZE && kc.spec_registration_secret() is Some
            && kc.spec_genesis() is None) ==> (r matches Err(e) && e == RegError::SeedMissing),
        r matches Ok(blob) ==> ({
            let key = exchange_key(kc.spec_registration_secret().unwrap(), requester_public@);
            let genesis = kc.spec_genesis().unwrap();
            &&& blob@ == single_seed_blob(key, genesis)
            &&& blob@.len() == 1 + SINGLE_ENCRYPTED_SEED_SIZE
            &&& siv_dec(key, blob@.subrange(1, 1 + SINGLE_ENCRYPTED_SEED_SIZE as int)) == Some(
                genesis,
            )
        }),
{
    if requester_public.len() != KEY_SIZE {
        return Err(RegError::InvalidInput);
    }
    exchange::encrypt_seed(kc, requester_public, SeedSelector::Genesis, true)
}

/// Migrates every sealed record from the legacy to the current sealing
/// format, in the fixed record order, skipping absent records. Returns how
/// many records were rewritten; a store already in the current format is
/// left untouched, so a second run is a no-op reporting zero rewrites.
pub fn migrate_sealing(store: &mut SealedStore) -> (migrated_count: usize)
    ensures
        final(store).fully_migrated(),
        forall|id: RecordId|
            #![trigger final(store).spec_record(id)]
            match old(store).spec_record(id) {
                Some(rec) => final(store).spec_record(id) matches Some(now) && now.data@
                    == rec.data@ && now.format == SealFormat::Current,
                None => final(store).spec_record(id) is None,
            },
        migrated_count == 0 <==> old(store).fully_migrated(),
        old(store).fully_migrated() ==> *final(store) == *old(store),
{
    let mut count: usize = 0;
    if store.migrate_record(RecordId::RegistrationKey) {
        count += 1;
    }
    if store.migrate_record(RecordId::GenesisSeed) {
        count += 1;
    }
    if store.migrate_record(RecordId::CurrentSeed) {
        count += 1;
    }
    if store.migrate_record(RecordId::Rek) {
        count += 1;
    }
    if store.migrate_record(RecordId::Irs) {
        count += 1;
    }
    if store.migrate_record(RecordId::ValidatorSet) {
        count += 1;
    }
    if store.migrate_record(RecordId::TxBytes) {
        count += 1;
    }
    count
}

} // verus!
