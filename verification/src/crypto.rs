//! Cryptographic primitives behind trusted wrappers.
//!
//! The primitives themselves (X25519 key agreement, AES-SIV deterministic
//! authenticated encryption, SHA-256, randomness) are outside collaborators;
//! each is reached through exactly one wrapper whose contract names its
//! result. Everything the protocol decides about those results is verified
//! in the modules that call these wrappers.

use vstd::prelude::*;

use crate::errors::RegError;
use aes_siv::siv::Aes128Siv;
use aes_siv::KeyInit;
use sha2::Digest;

verus! {

/// Length in bytes of a seed value and of every X25519 key.
pub const KEY_SIZE: usize = 32;

/// Bytes the authenticated cipher prepends to a plaintext (the synthetic IV).
pub const TAG_SIZE: usize = 16;

/// The X25519 public key that belongs to a secret key.
pub uninterp spec fn x25519_pk_of(sk: Seq<u8>) -> Seq<u8>;

/// The X25519 shared secret of a secret key and a peer public key.
pub uninterp spec fn x25519_dh_of(sk: Seq<u8>, pk: Seq<u8>) -> Seq<u8>;

/// The AES-SIV ciphertext of a plaintext under a 32-byte key, no headers.
pub uninterp spec fn siv_enc(key: Seq<u8>, pt: Seq<u8>) -> Seq<u8>;

/// What AES-SIV decryption returns for a ciphertext under a 32-byte key:
/// the plaintext when the ciphertext is authentic, nothing otherwise.
pub uninterp spec fn siv_dec(key: Seq<u8>, ct: Seq<u8>) -> Option<Seq<u8>>;

/// The SHA-256 digest of a byte string.
pub uninterp spec fn sha256_of(data: Seq<u8>) -> Seq<u8>;

/// Relies on `rand::random`: 32 bytes from the thread-local CSPRNG. Nothing
/// is promised of the value, only its length.
#[verifier::external_body]
pub(crate) fn random_bytes() -> (r: Vec<u8>)
    ensures
        r@.len() == KEY_SIZE,
{
    rand::random::<[u8; 32]>().to_vec()
}

/// Relies on `x25519_dalek::PublicKey::from(&StaticSecret)`: the public key
/// is 32 bytes and a function of the secret key alone.
#[verifier::external_body]
pub(crate) fn x25519_public_key(sk: &Vec<u8>) -> (r: Vec<u8>)
    requires
        sk@.len() == KEY_SIZE,
    ensures
        r@ == x25519_pk_of(sk@) && r@.len() == KEY_SIZE,
{
    let arr: [u8; 32] = sk.as_slice().try_into().unwrap();
    let secret = x25519_dalek::StaticSecret::from(arr);
    x25519_dalek::PublicKey::from(&secret).to_bytes().to_vec()
}

/// Relies on `x25519_dalek::StaticSecret::diffie_hellman`: the shared secret
/// is 32 bytes and a function of the two keys alone.
#[verifier::external_body]
pub(crate) fn x25519_shared_secret(sk: &Vec<u8>, pk: &Vec<u8>) -> (r: Vec<u8>)
    requires
        sk@.len() == KEY_SIZE,
        pk@.len() == KEY_SIZE,
    ensures
        r@ == x25519_dh_of(sk@, pk@) && r@.len() == KEY_SIZE,
{
    let sk_arr: [u8; 32] = sk.as_slice().try_into().unwrap();
    let pk_arr: [u8; 32] = pk.as_slice().try_into().unwrap();
    let secret = x25519_dalek::StaticSecret::from(sk_arr);
    let public = x25519_dalek::PublicKey::from(pk_arr);
    secret.diffie_hellman(&public).to_bytes().to_vec()
}

/// Relies on `aes_siv::siv::Aes128Siv::encrypt` (RFC 5297) with no headers:
/// it succeeds for every plaintext, prepends the 16-byte synthetic IV, is
/// deterministic, and its output decrypts back to the plaintext.
#[verifier::external_body]
pub(crate) fn siv_encrypt(key: &Vec<u8>, pt: &Vec<u8>) -> (r: Vec<u8>)
    requires
        key@.len() == KEY_SIZE,
    ensures
        r@ == siv_enc(key@, pt@),
        r@.len() == pt@.len() + TAG_SIZE,
        siv_dec(key@, r@) == Some(pt@),
{
    let arr: [u8; 32] = key.as_slice().try_into().unwrap();
    let mut siv = Aes128Siv::new(aes_siv::Key::<Aes128Siv>::from_slice(&arr));
    siv.encrypt(core::iter::empty::<&[u8]>(), pt.as_slice()).unwrap()
}

/// Relies on `aes_siv::siv::Aes128Siv::decrypt` (RFC 5297) with no headers:
/// it strips the 16-byte synthetic IV and returns the plaintext exactly when
/// the ciphertext is authentic under this key.
#[verifier::external_body]
pub(crate) fn siv_decrypt(key: &Vec<u8>, ct: &Vec<u8>) -> (r: Result<Vec<u8>, RegError>)
    requires
        key@.len() == KEY_SIZE,
    ensures
        r matches Ok(pt) ==> siv_dec(key@, ct@) == Some(pt@) && ct@.len() == pt@.len() + TAG_SIZE,
        r matches Err(e) ==> siv_dec(key@, ct@) is None && e == RegError::CryptoFailure,
{
    let arr: [u8; 32] = key.as_slice().try_into().unwrap();
    let mut siv = Aes128Siv::new(aes_siv::Key::<Aes128Siv>::from_slice(&arr));
    match siv.decrypt(core::iter::empty::<&[u8]>(), ct.as_slice()) {
        Ok(pt) => Ok(pt),
        Err(_) => Err(RegError::CryptoFailure),
    }
}

/// Relies on `sha2::Sha256::digest`: a 32-byte digest, a function of the
/// input alone.
#[verifier::external_body]
pub(crate) fn sha256(data: &Vec<u8>) -> (r: Vec<u8>)
    ensures
        r@ == sha256_of(data@) && r@.len() == KEY_SIZE,
{
    sha2::Sha256::digest(data.as_slice()).to_vec()
}

/// An X25519 key pair held as plain bytes: the enclave's network identity
/// and key-agreement key.
#[derive(Debug)]
pub struct KeyPair {
    pub secret: Vec<u8>,
    pub public: Vec<u8>,
}

impl KeyPair {
    /// Both halves have key length.
    pub open spec fn wf(self) -> bool {
        self.secret@.len() == KEY_SIZE && self.public@.len() == KEY_SIZE
    }

    /// The public half matches the secret half.
    pub open spec fn consistent(self) -> bool {
        self.public@ == x25519_pk_of(self.secret@)
    }

    /// Generate a fresh key pair from enclave-local entropy.
    pub fn generate() -> (r: KeyPair)
        ensures
            r.wf(),
            r.consistent(),
    {
        let secret = random_bytes();
        let public = x25519_public_key(&secret);
        KeyPair { secret, public }
    }

    /// Rebuild the key pair that belongs to a stored secret key.
    pub fn from_secret(secret: Vec<u8>) -> (r: KeyPair)
        requires
            secret@.len() == KEY_SIZE,
        ensures
            r.wf(),
            r.consistent(),
            r.secret@ == secret@,
    {
        let public = x25519_public_key(&secret);
        KeyPair { secret, public }
    }
}

/// A byte-for-byte copy of a byte vector.
pub fn clone_bytes(src: &Vec<u8>) -> (r: Vec<u8>)
    ensures
        r@ == src@,
{
    let mut r: Vec<u8> = Vec::new();
    let mut i: usize = 0;
    while i < src.len()
        invariant
            i <= src@.len(),
            r@ == src@.subrange(0, i as int),
        decreases src@.len() - i,
    {
        r.push(src[i]);
        i = i + 1;
    }
    assert(r@ == src@);
    r
}

/// The bytes of `src` from `start` (inclusive) to `end` (exclusive).
pub fn copy_range(src: &Vec<u8>, start: usize, end: usize) -> (r: Vec<u8>)
    requires
        start <= end && end <= src@.len(),
    ensures
        r@ == src@.subrange(start as int, end as int),
{
    let mut r: Vec<u8> = Vec::new();
    let mut i: usize = start;
    while i < end
        invariant
            start <= i <= end,
            end <= src@.len(),
            r@ == src@.subrange(start as int, i as int),
        decreases end - i,
    {
        r.push(src[i]);
        i = i + 1;
    }
    r
}

/// Appends all of `src` to `dst`.
pub fn append_bytes(dst: &mut Vec<u8>, src: &Vec<u8>)
    ensures
        final(dst)@ == old(dst)@ + src@,
{
    let mut i: usize = 0;
    while i < src.len()
        invariant
            i <= src@.len(),
            dst@ == old(dst)@ + src@.subrange(0, i as int),
        decreases src@.len() - i,
    {
        dst.push(src[i]);
        i = i + 1;
    }
    assert(dst@ == old(dst)@ + src@);
}

/// Whether two byte vectors hold the same bytes.
pub fn bytes_equal(a: &Vec<u8>, b: &Vec<u8>) -> (r: bool)
    ensures
        r == (a@ == b@),
{
    if a.len() != b.len() {
        assert(a@ != b@);
        return false;
    }
    let mut i: usize = 0;
    while i < a.len()
        invariant
            i <= a@.len(),
            a@.len() == b@.len(),
            forall|j: int| 0 <= j < i ==> a@[j] == b@[j],
        decreases a@.len() - i,
    {
        if a[i] != b[i] {
            return false;
        }
        i = i + 1;
    }
    assert(a@ =~= b@);
    true
}

} // verus!
