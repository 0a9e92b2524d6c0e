//! Genomes: sixteen bytes per creature, the crossover that breeds a child
//! genome from two parents under a selector mask, and the derivation of a fresh
//! genome from the host's randomness.

use vstd::bytes::*;
use vstd::prelude::*;

verus! {

/// One creature's genome. It never changes once the creature is minted.
#[derive(Clone, Copy, Debug)]
pub struct Kitty(pub [u8; 16]);

impl View for Kitty {
    type V = Seq<u8>;

    open spec fn view(&self) -> Seq<u8> {
        self.0@
    }
}

/// One byte of a child: where a selector bit is 1 the bit of `a`, where it is
/// 0 the bit of `b`.
pub open spec fn select_bits(s: u8, a: u8, b: u8) -> u8 {
    (s & a) | (!s & b)
}

/// The child genome of parents `a` and `b` under `selector`, byte by byte.
pub open spec fn crossover_spec(a: Seq<u8>, b: Seq<u8>, selector: Seq<u8>) -> Seq<u8> {
    Seq::new(16, |i: int| select_bits(selector[i], a[i], b[i]))
}

/// Breeds a child genome: each bit comes from `dna_1` where the selector has a
/// 1 and from `dna_2` where it has a 0.
pub fn crossover(dna_1: &[u8; 16], dna_2: &[u8; 16], selector: &[u8; 16]) -> (child: [u8; 16])
    ensures
        child@ == crossover_spec(dna_1@, dna_2@, selector@),
{
    let mut child: [u8; 16] = [0u8; 16];
    let mut i: usize = 0;
    while i < 16
        invariant
            i <= 16,
            forall|j: int|
                0 <= j < i ==> child@[j] == select_bits(selector@[j], dna_1@[j], dna_2@[j]),
        decreases 16 - i,
    {
        child[i] = (selector[i] & dna_1[i]) | (!selector[i] & dna_2[i]);
        i += 1;
    }
    assert(child@ =~= crossover_spec(dna_1@, dna_2@, selector@));
    child
}

/// The bytes of an optional 32-bit number in the compact binary encoding: a
/// zero byte for none, a one byte and the number's four little-endian bytes
/// for some.
pub open spec fn optional_u32_encoding(x: Option<u32>) -> Seq<u8> {
    match x {
        None => seq![0u8],
        Some(v) => seq![1u8] + spec_u32_to_le_bytes(v),
    }
}

/// The bytes that are hashed into a fresh genome: the seed, the block since
/// which the seed could be known, the sender and the index of the running
/// call, each in its fixed-width little-endian encoding, one after the other.
pub open spec fn payload_encoding(
    seed: Seq<u8>,
    known_since: u64,
    sender: u64,
    extrinsic_index: Option<u32>,
) -> Seq<u8> {
    seed + spec_u64_to_le_bytes(known_since) + spec_u64_to_le_bytes(sender)
        + optional_u32_encoding(extrinsic_index)
}

/// The 128-bit BLAKE2b digest of `data`.
pub uninterp spec fn blake2_128_digest(data: Seq<u8>) -> Seq<u8>;

/// The genome derived for `sender` from the host's seed and call index.
pub open spec fn random_value_spec(
    seed: Seq<u8>,
    known_since: u64,
    sender: u64,
    extrinsic_index: Option<u32>,
) -> Seq<u8> {
    blake2_128_digest(payload_encoding(seed, known_since, sender, extrinsic_index))
}

/// Calls `parity_scale_codec::Encode::encode` on the tuple
/// `((seed, known_since), &sender, extrinsic_index)`. Trusted: a tuple encodes
/// as its fields in order, a byte array as its bytes, an unsigned integer as
/// its little-endian bytes, and an option as a tag byte followed, for `Some`,
/// by the value.
#[verifier::external_body]
fn encode_payload(
    seed: &[u8; 32],
    known_since: u64,
    sender: u64,
    extrinsic_index: Option<u32>,
) -> (bytes: Vec<u8>)
    ensures
        bytes@ == payload_encoding(seed@, known_since, sender, extrinsic_index),
{
    parity_scale_codec::Encode::encode(&((*seed, known_since), &sender, extrinsic_index))
}

/// Calls `sp_io::hashing::blake2_128`. Trusted: the result is the 128-bit
/// BLAKE2b digest of the input, a function of the input bytes alone.
#[verifier::external_body]
fn blake2_128(data: &[u8]) -> (digest: [u8; 16])
    ensures
        digest@ == blake2_128_digest(data@),
{
    sp_io::hashing::blake2_128(data)
}

/// Derives a genome for `sender`: the digest of the seed, the block since which
/// it could be known, the sender and the index of the running call.
pub fn random_value(
    seed: &[u8; 32],
    known_since: u64,
    sender: u64,
    extrinsic_index: Option<u32>,
) -> (dna: [u8; 16])
    ensures
        dna@ == random_value_spec(seed@, known_since, sender, extrinsic_index),
{
    let payload = encode_payload(seed, known_since, sender, extrinsic_index);
    blake2_128(payload.as_slice())
}

} // verus!
