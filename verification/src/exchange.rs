//! The seed-exchange protocol: moving the consensus seed between enclaves.
//!
//! A seed travels as an authenticated ciphertext under a symmetric key
//! agreed between the sender's key-agreement secret and the receiver's
//! public key. The wire blob is one leading length byte — the total
//! ciphertext length, one seed's worth or two — followed by the
//! ciphertexts. Any other length byte is rejected before any decryption is
//! attempted.

use vstd::prelude::*;

use crate::crypto;
use crate::crypto::{siv_dec, siv_enc, x25519_dh_of, KEY_SIZE};
use crate::errors::RegError;
use crate::keys::{Keychain, Seed};
use crate::store::RecordId;

verus! {

/// Byte length of one encrypted seed: the seed plus the cipher tag.
pub const SINGLE_ENCRYPTED_SEED_SIZE: usize = 48;

/// Byte length of two encrypted seeds.
pub const DOUBLE_ENCRYPTED_SEED_SIZE: usize = 96;

/// Exact byte length of the encrypted-seed buffer a joining node receives:
/// the length byte plus room for two ciphertexts.
pub const INPUT_ENCRYPTED_SEED_SIZE: usize = 97;

/// Which seed values a blob carries.
#[derive(Clone, Copy, PartialEq, Eq, Structural, Debug)]
pub enum SeedSelector {
    /// Only the genesis seed.
    Genesis,
    /// The genesis seed followed by the current seed.
    GenesisAndCurrent,
}

/// The symmetric key the protocol agrees on: the X25519 shared secret of
/// one side's secret key and the other side's public key.
pub open spec fn exchange_key(secret: Seq<u8>, public: Seq<u8>) -> Seq<u8> {
    x25519_dh_of(secret, public)
}

/// The one-seed wire blob: length byte, then the genesis ciphertext.
pub open spec fn single_seed_blob(key: Seq<u8>, genesis: Seq<u8>) -> Seq<u8> {
    seq![SINGLE_ENCRYPTED_SEED_SIZE as u8] + siv_enc(key, genesis)
}

/// The two-seed wire blob: length byte, then both ciphertexts.
pub open spec fn double_seed_blob(key: Seq<u8>, genesis: Seq<u8>, current: Seq<u8>) -> Seq<u8> {
    seq![DOUBLE_ENCRYPTED_SEED_SIZE as u8] + siv_enc(key, genesis) + siv_enc(key, current)
}

/// How the fixed-size encrypted-seed input buffer splits into ciphertexts:
/// the buffer must be exactly `INPUT_ENCRYPTED_SEED_SIZE` bytes and its
/// length byte must name one seed's length or two; anything else is
/// rejected without looking further.
pub open spec fn parse_seed_input_spec(blob: Seq<u8>) -> Result<(Seq<u8>, Option<Seq<u8>>), RegError> {
    if blob.len() != INPUT_ENCRYPTED_SEED_SIZE {
        Err(RegError::InvalidInput)
    } else if blob[0] == SINGLE_ENCRYPTED_SEED_SIZE as u8 {
        Ok((blob.subrange(1, 1 + SINGLE_ENCRYPTED_SEED_SIZE as int), None))
    } else if blob[0] == DOUBLE_ENCRYPTED_SEED_SIZE as u8 {
        Ok((
            blob.subrange(1, 1 + SINGLE_ENCRYPTED_SEED_SIZE as int),
            Some(blob.subrange(1 + SINGLE_ENCRYPTED_SEED_SIZE as int, INPUT_ENCRYPTED_SEED_SIZE as int)),
        ))
    } else {
        Err(RegError::InvalidInput)
    }
}

/// Splits the encrypted-seed input buffer into its one or two ciphertexts,
/// exactly as `parse_seed_input_spec` says. No decryption happens here.
pub fn parse_seed_input(blob: &Vec<u8>) -> (r: Result<(Vec<u8>, Option<Vec<u8>>), RegError>)
    ensures
        match parse_seed_input_spec(blob@) {
            Ok((first, second)) => r matches Ok((v1, v2))
                && v1@ == first
                && (match second {
                    Some(s) => v2 matches Some(v) && v@ == s,
                    None => v2 is None,
                }),
            Err(e) => r matches Err(got) && got == e,
        },
{
    if blob.len() != INPUT_ENCRYPTED_SEED_SIZE {
        return Err(RegError::InvalidInput);
    }
    let length_byte = blob[0];
    if length_byte == SINGLE_ENCRYPTED_SEED_SIZE as u8 {
        let first = crypto::copy_range(blob, 1, 1 + SINGLE_ENCRYPTED_SEED_SIZE);
        Ok((first, None))
    } else if length_byte == DOUBLE_ENCRYPTED_SEED_SIZE as u8 {
        let first = crypto::copy_range(blob, 1, 1 + SINGLE_ENCRYPTED_SEED_SIZE);
        let second = crypto::copy_range(blob, 1 + SINGLE_ENCRYPTED_SEED_SIZE, INPUT_ENCRYPTED_SEED_SIZE);
        Ok((first, Some(second)))
    } else {
        Err(RegError::InvalidInput)
    }
}

/// Encrypts the selected seed value(s) for `recipient_public`.
///
/// The symmetric key is agreed between this vault's registration key and
/// the recipient's public key. The genesis seed always travels; the
/// current seed travels when the selector asks for it, and its absence is
/// an error unless `allow_current_absent` permits a genesis-only blob.
/// Every ciphertext in a returned blob decrypts, under the same agreed
/// key, back to exactly the seed value it carries.
pub fn encrypt_seed(
    kc: &Keychain,
    recipient_public: &Vec<u8>,
    selector: SeedSelector,
    allow_current_absent: bool,
) -> (r: Result<Vec<u8>, RegError>)
    requires
        kc.wf(),
        recipient_public@.len() == KEY_SIZE,
    ensures
        r is Ok <==> (kc.spec_registration_secret() is Some && kc.spec_genesis() is Some && (
        selector == SeedSelector::Genesis || kc.spec_current() is Some || allow_current_absent)),
        kc.spec_registration_secret() is None ==> (r matches Err(e) && e == RegError::NotFound),
        (kc.spec_registration_secret() is Some && kc.spec_genesis() is None) ==> (r matches Err(e)
            && e == RegError::SeedMissing),
        r matches Ok(blob) ==> ({
            let key = exchange_key(kc.spec_registration_secret().unwrap(), recipient_public@);
            let genesis = kc.spec_genesis().unwrap();
            if selector == SeedSelector::GenesisAndCurrent && kc.spec_current() is Some {
                let current = kc.spec_current().unwrap();
                &&& blob@ == double_seed_blob(key, genesis, current)
                &&& blob@.len() == INPUT_ENCRYPTED_SEED_SIZE
                &&& (parse_seed_input_spec(blob@) matches Ok((ct1, ct2))
                    && siv_dec(key, ct1) == Some(genesis)
                    && (ct2 matches Some(c) && siv_dec(key, c) == Some(current)))
            } else {
                &&& blob@ == single_seed_blob(key, genesis)
                &&& blob@.len() == 1 + SINGLE_ENCRYPTED_SEED_SIZE
                &&& siv_dec(key, blob@.subrange(1, 1 + SINGLE_ENCRYPTED_SEED_SIZE as int))
                    == Some(genesis)
            }
        }),
{
    let registration = match kc.get_registration_key() {
        Ok(kp) => kp,
        Err(e) => {
            return Err(e);
        }
    };
    let genesis_bytes = match kc.store.unseal(RecordId::GenesisSeed) {
        Some(rec) => crypto::clone_bytes(&rec.data),
        None => {
            return Err(RegError::SeedMissing);
        }
    };
    let current_bytes: Option<Vec<u8>> = match kc.store.unseal(RecordId::CurrentSeed) {
        Some(rec) => Some(crypto::clone_bytes(&rec.data)),
        None => None,
    };
    let key = crypto::x25519_shared_secret(&registration.secret, recipient_public);
    let include_current = matches!(selector, SeedSelector::GenesisAndCurrent);
    let genesis_ct = crypto::siv_encrypt(&key, &genesis_bytes);
    if include_current {
        match current_bytes {
            Some(current) => {
                let current_ct = crypto::siv_encrypt(&key, &current);
                let mut blob: Vec<u8> = Vec::new();
                blob.push(DOUBLE_ENCRYPTED_SEED_SIZE as u8);
                crypto::append_bytes(&mut blob, &genesis_ct);
                crypto::append_bytes(&mut blob, &current_ct);
                proof {
                    assert(blob@ =~= double_seed_blob(
                        key@,
                        genesis_bytes@,
                        kc.spec_current().unwrap(),
                    ));
                    assert(blob@.subrange(1, 1 + SINGLE_ENCRYPTED_SEED_SIZE as int)
                        =~= genesis_ct@);
                    assert(blob@.subrange(
                        1 + SINGLE_ENCRYPTED_SEED_SIZE as int,
                        INPUT_ENCRYPTED_SEED_SIZE as int,
                    ) =~= current_ct@);
                }
                Ok(blob)
            }
            None => {
                if allow_current_absent {
                    let mut blob: Vec<u8> = Vec::new();
                    blob.push(SINGLE_ENCRYPTED_SEED_SIZE as u8);
                    crypto::append_bytes(&mut blob, &genesis_ct);
                    proof {
                        assert(blob@ =~= single_seed_blob(key@, genesis_bytes@));
                        assert(blob@.subrange(1, 1 + SINGLE_ENCRYPTED_SEED_SIZE as int)
                            =~= genesis_ct@);
                    }
                    Ok(blob)
                } else {
                    Err(RegError::SeedMissing)
                }
            }
        }
    } else {
        let mut blob: Vec<u8> = Vec::new();
        blob.push(SINGLE_ENCRYPTED_SEED_SIZE as u8);
        crypto::append_bytes(&mut blob, &genesis_ct);
        proof {
            assert(blob@ =~= single_seed_blob(key@, genesis_bytes@));
            assert(blob@.subrange(1, 1 + SINGLE_ENCRYPTED_SEED_SIZE as int) =~= genesis_ct@);
        }
        Ok(blob)
    }
}

/// Decrypts one encrypted seed value addressed to this enclave.
///
/// The mirrored key agreement uses the vault's registration key and the
/// sender's public key. A ciphertext of any length other than one seed's
/// worth is rejected before decryption; an authentication failure is a
/// `CryptoFailure`, and whatever is returned is exactly the plaintext the
/// agreed key authenticates — never corrupted bytes.
pub fn decrypt_seed(kc: &Keychain, sender_public: &Vec<u8>, ciphertext: &Vec<u8>) -> (r: Result<
    Seed,
    RegError,
>)
    requires
        kc.wf(),
        sender_public@.len() == KEY_SIZE,
    ensures
        ciphertext@.len() != SINGLE_ENCRYPTED_SEED_SIZE ==> (r matches Err(e) && e
            == RegError::InvalidInput),
        (ciphertext@.len() == SINGLE_ENCRYPTED_SEED_SIZE && kc.spec_registration_secret() is None)
            ==> (r matches Err(e) && e == RegError::NotFound),
        (ciphertext@.len() == SINGLE_ENCRYPTED_SEED_SIZE && kc.spec_registration_secret() is Some)
            ==> ({
            let key = exchange_key(kc.spec_registration_secret().unwrap(), sender_public@);
            match siv_dec(key, ciphertext@) {
                Some(plaintext) => r matches Ok(seed) && seed.bytes@ == plaintext && seed.wf(),
                None => r matches Err(e) && e == RegError::CryptoFailure,
            }
        }),
{
    if ciphertext.len() != SINGLE_ENCRYPTED_SEED_SIZE {
        return Err(RegError::InvalidInput);
    }
    let registration = match kc.get_registration_key() {
        Ok(kp) => kp,
        Err(e) => {
            return Err(e);
        }
    };
    let key = crypto::x25519_shared_secret(&registration.secret, sender_public);
    match crypto::siv_decrypt(&key, ciphertext) {
        Ok(plaintext) => Ok(Seed { bytes: plaintext }),
        Err(e) => Err(e),
    }
}

} // verus!
