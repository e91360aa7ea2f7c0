//! Measurement retrieval, the sealing-key transform, private-key derivation,
//! and the zeroing of sensitive buffers.
use vstd::prelude::*;

use crate::error::TdxError;

verus! {

/// The ASCII bytes of "TDX_SEALING_PRIVATE_KEY_DERIVATION", mixed into the
/// hash to bind the derived key to this use case.
pub open spec fn domain_separator() -> Seq<u8> {
    seq![
        0x54u8, 0x44u8, 0x58u8, 0x5fu8, 0x53u8, 0x45u8, 0x41u8, 0x4cu8, 0x49u8, 0x4eu8, 0x47u8,
        0x5fu8, 0x50u8, 0x52u8, 0x49u8, 0x56u8, 0x41u8, 0x54u8, 0x45u8, 0x5fu8, 0x4bu8, 0x45u8,
        0x59u8, 0x5fu8, 0x44u8, 0x45u8, 0x52u8, 0x49u8, 0x56u8, 0x41u8, 0x54u8, 0x49u8, 0x4fu8,
        0x4eu8,
    ]
}

/// The domain separator as a buffer ready for hashing.
pub fn domain_separator_bytes() -> (r: Vec<u8>)
    ensures
        r@ == domain_separator(),
{
    let mut v: Vec<u8> = Vec::new();
    v.push(0x54);
    v.push(0x44);
    v.push(0x58);
    v.push(0x5f);
    v.push(0x53);
    v.push(0x45);
    v.push(0x41);
    v.push(0x4c);
    v.push(0x49);
    v.push(0x4e);
    v.push(0x47);
    v.push(0x5f);
    v.push(0x50);
    v.push(0x52);
    v.push(0x49);
    v.push(0x56);
    v.push(0x41);
    v.push(0x54);
    v.push(0x45);
    v.push(0x5f);
    v.push(0x4b);
    v.push(0x45);
    v.push(0x59);
    v.push(0x5f);
    v.push(0x44);
    v.push(0x45);
    v.push(0x52);
    v.push(0x49);
    v.push(0x56);
    v.push(0x41);
    v.push(0x54);
    v.push(0x49);
    v.push(0x4f);
    v.push(0x4e);
    proof {
        assert(v@ =~= domain_separator());
    }
    v
}

/// The per-byte sealing-key transform: add the fixed constant, mod 256.
pub open spec fn sealing_byte(m: u8) -> u8 {
    ((m + 0xCD) % 256) as u8
}

/// The byte the simulated measurement holds at index `i`.
pub open spec fn simulated_measurement_byte(i: int) -> u8 {
    ((i + 0xAB) % 256) as u8
}

/// Produces the 32-byte measurement value standing for the platform and
/// workload identity. Simulated: byte `i` is `(i + 0xAB) mod 256`; this form
/// always succeeds.
pub fn get_tdx_measurement_report() -> (r: Result<Vec<u8>, TdxError>)
    ensures
        r is Ok,
        r matches Ok(m) ==> m@.len() == 32 && (forall|i: int|
            0 <= i < 32 ==> #[trigger] m@[i] == simulated_measurement_byte(i)),
{
    let mut mrenclave: Vec<u8> = Vec::new();
    let mut i: usize = 0;
    while i < 32
        invariant
            i <= 32,
            mrenclave@.len() == i,
            forall|j: int| 0 <= j < i ==> mrenclave@[j] == simulated_measurement_byte(j),
        decreases 32 - i,
    {
        mrenclave.push((i as u8).wrapping_add(0xAB));
        i = i + 1;
    }
    Ok(mrenclave)
}

/// Derives the 32-byte sealing key from the measurement value: each byte is
/// the measurement byte plus the fixed constant, mod 256. Simulated: always
/// succeeds.
pub fn get_sealing_key(mrenclave: &Vec<u8>) -> (r: Result<Vec<u8>, TdxError>)
    requires
        mrenclave@.len() == 32,
    ensures
        r is Ok,
        r matches Ok(k) ==> k@.len() == 32 && (forall|i: int|
            0 <= i < 32 ==> #[trigger] k@[i] == sealing_byte(mrenclave@[i])),
{
    let mut sealing_key: Vec<u8> = Vec::new();
    let mut i: usize = 0;
    while i < 32
        invariant
            i <= 32,
            mrenclave@.len() == 32,
            sealing_key@.len() == i,
            forall|j: int| 0 <= j < i ==> sealing_key@[j] == sealing_byte(mrenclave@[j]),
        decreases 32 - i,
    {
        sealing_key.push(mrenclave[i].wrapping_add(0xCD));
        i = i + 1;
    }
    Ok(sealing_key)
}

/// What SHA-256 returns on a byte sequence: a function of the bytes alone.
pub uninterp spec fn sha256_of(data: Seq<u8>) -> Seq<u8>;

/// Relies on sha2::Sha256 (Digest::digest): the SHA-256 digest of the input,
/// a function of the input bytes alone, 32 bytes long.
#[verifier::external_body]
fn sha256(data: &Vec<u8>) -> (r: Vec<u8>)
    ensures
        r@ == sha256_of(data@),
        r@.len() == 32,
{
    let digest = <sha2::Sha256 as sha2::Digest>::digest(data.as_slice());
    digest.as_slice().to_vec()
}

/// Derives the private key: the SHA-256 digest of the domain separator
/// followed by the sealing key. Pure; no failure path.
pub fn derive_private_key(sealing_key: &Vec<u8>) -> (r: Result<Vec<u8>, TdxError>)
    requires
        sealing_key@.len() == 32,
    ensures
        r is Ok,
        r matches Ok(k) ==> k@ == sha256_of(domain_separator() + sealing_key@) && k@.len() == 32,
{
    let mut input = domain_separator_bytes();
    let mut i: usize = 0;
    while i < 32
        invariant
            i <= 32,
            sealing_key@.len() == 32,
            input@ == domain_separator() + sealing_key@.take(i as int),
        decreases 32 - i,
    {
        input.push(sealing_key[i]);
        proof {
            assert(input@ =~= domain_separator() + sealing_key@.take(i + 1));
        }
        i = i + 1;
    }
    proof {
        assert(sealing_key@.take(32) =~= sealing_key@);
    }
    Ok(sha256(&input))
}

/// Deriving from the same sealing key twice yields the identical private key:
/// the digest is a function of the separator and key bytes alone.
pub proof fn lemma_derivation_deterministic(k1: Seq<u8>, k2: Seq<u8>)
    requires
        k1 == k2,
    ensures
        sha256_of(domain_separator() + k1) == sha256_of(domain_separator() + k2),
{
}

/// Overwrites every byte of the buffer with zero, keeping its length, so no
/// key material outlives its scope.
pub fn secure_zero_memory(data: &mut Vec<u8>)
    ensures
        final(data)@.len() == old(data)@.len(),
        forall|i: int| 0 <= i < final(data)@.len() ==> final(data)@[i] == 0u8,
{
    let n = data.len();
    data.clear();
    let mut i: usize = 0;
    while i < n
        invariant
            i <= n,
            data@.len() == i,
            forall|j: int| 0 <= j < i ==> data@[j] == 0u8,
        decreases n - i,
    {
        data.push(0);
        i = i + 1;
    }
}

} // verus!
