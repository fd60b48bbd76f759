//! The attestation engine's verified half: the combined artifact format,
//! the flag protocol, the key selection, and the migration key assembly.
//!
//! Hardware produces the EPID certificate and the DCAP quote/collateral;
//! this module decides which key the evidence binds, lays the evidence out
//! as one combined artifact — a 12-byte little-endian size header followed
//! by the sections — and judges success: an artifact with no EPID and no
//! quote bytes is a failure, never an empty success.

use vstd::prelude::*;

use crate::crypto;
use crate::crypto::{x25519_pk_of, KeyPair};
use crate::errors::RegError;
use crate::keys::Keychain;

verus! {

/// Flag bit: skip the EPID scheme.
pub const FLAG_SKIP_EPID: u32 = 1;

/// Flag bit: skip the DCAP scheme.
pub const FLAG_SKIP_DCAP: u32 = 2;

/// Flag bit: produce a migration report with the derived migration key.
pub const FLAG_MIGRATION: u32 = 16;

/// Byte length of the combined artifact's size header.
pub const HEADER_SIZE: usize = 12;

/// The packed flag word, unpacked into explicit booleans.
pub struct AttestationFlags {
    pub skip_epid: bool,
    pub skip_dcap: bool,
    pub migration: bool,
}

/// Unpacks the flag word: bit 0 skips EPID, bit 1 skips DCAP, bit 4 asks
/// for a migration report.
pub fn decode_flags(flags: u32) -> (r: AttestationFlags)
    ensures
        r.skip_epid == ((flags & FLAG_SKIP_EPID) != 0),
        r.skip_dcap == ((flags & FLAG_SKIP_DCAP) != 0),
        r.migration == ((flags & FLAG_MIGRATION) != 0),
{
    AttestationFlags {
        skip_epid: flags & FLAG_SKIP_EPID != 0,
        skip_dcap: flags & FLAG_SKIP_DCAP != 0,
        migration: flags & FLAG_MIGRATION != 0,
    }
}

/// Where a combined artifact is to be written: migration artifacts never
/// overwrite standard registration artifacts.
#[derive(Clone, Copy, PartialEq, Eq, Structural, Debug)]
pub enum ArtifactDest {
    Standard,
    Migration,
}

/// The little-endian bytes of a 32-bit length.
pub open spec fn le32(n: u32) -> Seq<u8> {
    seq![
        (n & 0xff) as u8,
        ((n >> 8) & 0xff) as u8,
        ((n >> 16) & 0xff) as u8,
        ((n >> 24) & 0xff) as u8,
    ]
}

/// The 32-bit length named by four little-endian bytes.
pub open spec fn le32_val(b: Seq<u8>) -> u32
    recommends
        b.len() == 4,
{
    (b[0] as u32) | ((b[1] as u32) << 8) | ((b[2] as u32) << 16) | ((b[3] as u32) << 24)
}

/// Reading back four little-endian bytes yields the length they encode.
pub proof fn lemma_le32_round_trip(n: u32)
    ensures
        le32(n).len() == 4,
        le32_val(le32(n)) == n,
{
    assert(((n & 0xff) as u8 as u32) | ((((n >> 8) & 0xff) as u8 as u32) << 8) | ((((n >> 16)
        & 0xff) as u8 as u32) << 16) | ((((n >> 24) & 0xff) as u8 as u32) << 24) == n)
        by (bit_vector);
}

/// The combined artifact for three sections: the 12-byte size header, then
/// the sections in order. The header lengths are exactly the byte lengths
/// of the sections that follow.
pub open spec fn artifact_bytes(epid: Seq<u8>, quote: Seq<u8>, collateral: Seq<u8>) -> Seq<u8> {
    le32(epid.len() as u32) + le32(quote.len() as u32) + le32(collateral.len() as u32) + epid
        + quote + collateral
}

/// The EPID section an evidence result contributes: its bytes on success,
/// nothing on failure.
pub open spec fn epid_section(epid: Result<Vec<u8>, RegError>) -> Seq<u8> {
    match epid {
        Ok(cert) => cert@,
        Err(_) => Seq::empty(),
    }
}

/// The quote section a DCAP evidence result contributes.
pub open spec fn quote_section(dcap: Result<(Vec<u8>, Vec<u8>), RegError>) -> Seq<u8> {
    match dcap {
        Ok(pair) => pair.0@,
        Err(_) => Seq::empty(),
    }
}

/// The collateral section a DCAP evidence result contributes.
pub open spec fn collateral_section(dcap: Result<(Vec<u8>, Vec<u8>), RegError>) -> Seq<u8> {
    match dcap {
        Ok(pair) => pair.1@,
        Err(_) => Seq::empty(),
    }
}

/// What combining evidence produced: the artifact bytes, where they go,
/// and whether the attestation as a whole succeeded.
pub struct CombineOutcome {
    pub artifact: Vec<u8>,
    pub dest: ArtifactDest,
    pub status: Result<(), RegError>,
}

/// Appends the little-endian bytes of `n`.
fn push_le32(out: &mut Vec<u8>, n: u32)
    ensures
        final(out)@ == old(out)@ + le32(n),
{
    out.push((n & 0xff) as u8);
    out.push(((n >> 8) & 0xff) as u8);
    out.push(((n >> 16) & 0xff) as u8);
    out.push(((n >> 24) & 0xff) as u8);
    assert(out@ =~= old(out)@ + le32(n));
}

/// Builds the combined attestation artifact from the two schemes' results.
///
/// The artifact is the exact header-plus-sections layout of
/// `artifact_bytes`, with an empty section for a scheme that failed or was
/// skipped. The destination is the migration location exactly when a
/// migration report was asked for. The status is success exactly when some
/// EPID or quote bytes are present; when both schemes came back empty, the
/// EPID failure (or a generic attestation failure) is returned rather than
/// an empty success.
pub fn combine_attestation(
    res_dcap: &Result<(Vec<u8>, Vec<u8>), RegError>,
    res_epid: &Result<Vec<u8>, RegError>,
    is_migration: bool,
) -> (r: CombineOutcome)
    requires
        (res_epid matches Ok(cert) ==> cert@.len() <= u32::MAX),
        (res_dcap matches Ok(pair) ==> pair.0@.len() <= u32::MAX && pair.1@.len() <= u32::MAX),
    ensures
        r.artifact@ == artifact_bytes(
            epid_section(*res_epid),
            quote_section(*res_dcap),
            collateral_section(*res_dcap),
        ),
        r.dest == (if is_migration {
            ArtifactDest::Migration
        } else {
            ArtifactDest::Standard
        }),
        r.status is Ok <==> (epid_section(*res_epid).len() > 0 || quote_section(*res_dcap).len()
            > 0),
        r.status matches Err(e) ==> (match *res_epid {
            Ok(_) => e == RegError::AttestationFailure,
            Err(epid_err) => e == epid_err,
        }),
{
    let empty: Vec<u8> = Vec::new();
    let epid_bytes: &Vec<u8> = match res_epid {
        Ok(cert) => cert,
        Err(_) => &empty,
    };
    let (quote_bytes, collateral_bytes): (&Vec<u8>, &Vec<u8>) = match res_dcap {
        Ok(pair) => (&pair.0, &pair.1),
        Err(_) => (&empty, &empty),
    };
    let size_epid: u32 = epid_bytes.len() as u32;
    let size_quote: u32 = quote_bytes.len() as u32;
    let size_collateral: u32 = collateral_bytes.len() as u32;
    let mut artifact: Vec<u8> = Vec::new();
    push_le32(&mut artifact, size_epid);
    push_le32(&mut artifact, size_quote);
    push_le32(&mut artifact, size_collateral);
    crypto::append_bytes(&mut artifact, epid_bytes);
    crypto::append_bytes(&mut artifact, quote_bytes);
    crypto::append_bytes(&mut artifact, collateral_bytes);
    proof {
        assert(artifact@ =~= artifact_bytes(
            epid_section(*res_epid),
            quote_section(*res_dcap),
            collateral_section(*res_dcap),
        ));
    }
    let dest = if is_migration {
        ArtifactDest::Migration
    } else {
        ArtifactDest::Standard
    };
    let status: Result<(), RegError> = if size_epid == 0 && size_quote == 0 {
        match res_epid {
            Err(epid_err) => Err(*epid_err),
            Ok(_) => Err(RegError::AttestationFailure),
        }
    } else {
        Ok(())
    };
    CombineOutcome { artifact, dest, status }
}

/// How a combined artifact reads back: the header names three section
/// lengths, which must account for every remaining byte.
pub open spec fn parse_artifact_spec(bytes: Seq<u8>) -> Option<(Seq<u8>, Seq<u8>, Seq<u8>)> {
    if bytes.len() < HEADER_SIZE {
        None
    } else {
        let epid_len = le32_val(bytes.subrange(0, 4)) as int;
        let quote_len = le32_val(bytes.subrange(4, 8)) as int;
        let collateral_len = le32_val(bytes.subrange(8, 12)) as int;
        if bytes.len() == HEADER_SIZE + epid_len + quote_len + collateral_len {
            Some(
                (
                    bytes.subrange(12, 12 + epid_len),
                    bytes.subrange(12 + epid_len, 12 + epid_len + quote_len),
                    bytes.subrange(12 + epid_len + quote_len, bytes.len() as int),
                ),
            )
        } else {
            None
        }
    }
}

/// The 32-bit length at `offset`.
fn read_le32(bytes: &Vec<u8>, offset: usize) -> (r: u32)
    requires
        offset + 4 <= bytes@.len(),
    ensures
        r == le32_val(bytes@.subrange(offset as int, offset as int + 4)),
{
    let total = bytes.len();
    assert(offset + 4 <= total);
    let r = (bytes[offset] as u32) | ((bytes[offset + 1] as u32) << 8) | ((bytes[offset + 2]
        as u32) << 16) | ((bytes[offset + 3] as u32) << 24);
    proof {
        let sub = bytes@.subrange(offset as int, offset as int + 4);
        assert(sub[0] == bytes@[offset as int]);
        assert(sub[1] == bytes@[offset as int + 1]);
        assert(sub[2] == bytes@[offset as int + 2]);
        assert(sub[3] == bytes@[offset as int + 3]);
    }
    r
}

/// Splits a combined artifact back into its three sections, exactly as
/// `parse_artifact_spec` says; a buffer whose header does not account for
/// every byte is rejected.
pub fn parse_attestation_artifact(bytes: &Vec<u8>) -> (r: Result<
    (Vec<u8>, Vec<u8>, Vec<u8>),
    RegError,
>)
    ensures
        match parse_artifact_spec(bytes@) {
            Some(sections) => r matches Ok(got) && got.0@ == sections.0 && got.1@ == sections.1
                && got.2@ == sections.2,
            None => r matches Err(e) && e == RegError::InvalidInput,
        },
{
    if bytes.len() < HEADER_SIZE {
        return Err(RegError::InvalidInput);
    }
    let epid_len = read_le32(bytes, 0);
    let quote_len = read_le32(bytes, 4);
    let collateral_len = read_le32(bytes, 8);
    let expected: u64 = (HEADER_SIZE as u64) + (epid_len as u64) + (quote_len as u64)
        + (collateral_len as u64);
    if (bytes.len() as u64) != expected {
        return Err(RegError::InvalidInput);
    }
    let epid_end: usize = HEADER_SIZE + (epid_len as usize);
    let quote_end: usize = epid_end + (quote_len as usize);
    let epid = crypto::copy_range(bytes, HEADER_SIZE, epid_end);
    let quote = crypto::copy_range(bytes, epid_end, quote_end);
    let collateral = crypto::copy_range(bytes, quote_end, bytes.len());
    Ok((epid, quote, collateral))
}

/// Reading back a written artifact recovers exactly the sections it was
/// built from: the header lengths always equal the byte lengths of the
/// sections that follow.
pub proof fn lemma_artifact_round_trip(epid: Seq<u8>, quote: Seq<u8>, collateral: Seq<u8>)
    requires
        epid.len() <= u32::MAX,
        quote.len() <= u32::MAX,
        collateral.len() <= u32::MAX,
    ensures
        parse_artifact_spec(artifact_bytes(epid, quote, collateral)) == Some(
            (epid, quote, collateral),
        ),
{
    let bytes = artifact_bytes(epid, quote, collateral);
    lemma_le32_round_trip(epid.len() as u32);
    lemma_le32_round_trip(quote.len() as u32);
    lemma_le32_round_trip(collateral.len() as u32);
    assert(bytes.subrange(0, 4) =~= le32(epid.len() as u32));
    assert(bytes.subrange(4, 8) =~= le32(quote.len() as u32));
    assert(bytes.subrange(8, 12) =~= le32(collateral.len() as u32));
    let epid_len = epid.len() as int;
    let quote_len = quote.len() as int;
    let collateral_len = collateral.len() as int;
    assert(bytes.subrange(12, 12 + epid_len) =~= epid);
    assert(bytes.subrange(12 + epid_len, 12 + epid_len + quote_len) =~= quote);
    assert(bytes.subrange(12 + epid_len + quote_len, bytes.len() as int) =~= collateral);
}

/// Which key the attestation evidence binds.
#[derive(Debug)]
pub enum AttestationKey {
    /// The derived migration key; the caller assembles it with
    /// `migration_keypair` from hardware-derived material.
    Migration,
    /// The persistent registration key.
    Registration(KeyPair),
}

/// Everything decided before hardware evidence is requested.
#[derive(Debug)]
pub struct AttestationPlan {
    pub run_epid: bool,
    pub run_dcap: bool,
    pub dest: ArtifactDest,
    pub key: AttestationKey,
    pub export_public_key: Option<Vec<u8>>,
}

/// Decides an attestation request from the flag word and the vault.
///
/// A migration report uses the derived migration key and never exports a
/// public key to the standard location; a standard report uses the
/// registration key — absent, the request fails — and exports its public
/// key for pickup.
pub fn plan_attestation(kc: &Keychain, flags: u32) -> (r: Result<AttestationPlan, RegError>)
    requires
        kc.wf(),
    ensures
        ((flags & FLAG_MIGRATION) == 0 && kc.spec_registration_secret() is None) ==> (r matches
            Err(e) && e == RegError::NotFound),
        (flags & FLAG_MIGRATION) != 0 ==> (r matches Ok(plan) && plan.key is Migration
            && plan.export_public_key is None && plan.dest == ArtifactDest::Migration),
        ((flags & FLAG_MIGRATION) == 0 && kc.spec_registration_secret() is Some) ==> (r matches Ok(
            plan,
        ) && (plan.key matches AttestationKey::Registration(kp) && kp.secret@ == kc
            .spec_registration_secret().unwrap() && kp.wf() && kp.consistent()) && (
        plan.export_public_key matches Some(pk) && pk@ == x25519_pk_of(
            kc.spec_registration_secret().unwrap(),
        )) && plan.dest == ArtifactDest::Standard),
        r matches Ok(plan) ==> plan.run_epid == ((flags & FLAG_SKIP_EPID) == 0)
            && plan.run_dcap == ((flags & FLAG_SKIP_DCAP) == 0),
{
    let unpacked = decode_flags(flags);
    if unpacked.migration {
        Ok(AttestationPlan {
            run_epid: !unpacked.skip_epid,
            run_dcap: !unpacked.skip_dcap,
            dest: ArtifactDest::Migration,
            key: AttestationKey::Migration,
            export_public_key: None,
        })
    } else {
        let registration = match kc.get_registration_key() {
            Ok(kp) => kp,
            Err(e) => {
                return Err(e);
            }
        };
        let export = crypto::clone_bytes(&registration.public);
        Ok(AttestationPlan {
            run_epid: !unpacked.skip_epid,
            run_dcap: !unpacked.skip_dcap,
            dest: ArtifactDest::Standard,
            key: AttestationKey::Registration(registration),
            export_public_key: Some(export),
        })
    }
}

/// The hardware key-request identifier for a derivation label: the label
/// left-aligned in a zero-filled 32-byte field. A label longer than the
/// field is a build-time misconfiguration and is excluded outright.
pub fn seal_key_request_id(label: &Vec<u8>) -> (r: Vec<u8>)
    requires
        label@.len() <= 32,
    ensures
        r@.len() == 32,
        r@.subrange(0, label@.len() as int) == label@,
        forall|i: int| label@.len() <= i < 32 ==> r@[i] == 0,
{
    let mut id = crypto::clone_bytes(label);
    while id.len() < 32
        invariant
            label@.len() <= id@.len() <= 32,
            id@.subrange(0, label@.len() as int) == label@,
            forall|i: int| label@.len() <= i < id@.len() ==> id@[i] == 0,
        decreases 32 - id@.len(),
    {
        id.push(0);
        assert(id@.subrange(0, label@.len() as int) =~= label@);
    }
    id
}

/// Assembles the migration key pair from the two hardware-derived 16-byte
/// halves. The key is a function of the sealing entropy alone; it has no
/// persisted state and is recomputed on demand.
pub fn migration_keypair(half1: &Vec<u8>, half2: &Vec<u8>) -> (r: KeyPair)
    requires
        half1@.len() == 16,
        half2@.len() == 16,
    ensures
        r.wf(),
        r.consistent(),
        r.secret@ == half1@ + half2@,
{
    let mut secret = crypto::clone_bytes(half1);
    crypto::append_bytes(&mut secret, half2);
    KeyPair::from_secret(secret)
}

} // verus!
