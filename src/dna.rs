use vstd::prelude::*;

use crate::types::{AccountId, Dna};

verus! {

/// The 16-byte BLAKE2b digest of `data`.
pub uninterp spec fn blake2_128_of(data: Seq<u8>) -> Seq<u8>;

/// Relies on sp_crypto_hashing::blake2_128: a 128-bit BLAKE2b digest of the
/// bytes, which depends on those bytes alone.
#[verifier::external_body]
fn blake2_128(data: &Vec<u8>) -> (r: [u8; 16])
    ensures
        r@ == blake2_128_of(data@),
{
    sp_crypto_hashing::blake2_128(data.as_slice())
}

/// The `n` low bytes of `x`, least significant first.
pub open spec fn le_bytes(x: nat, n: nat) -> Seq<u8>
    decreases n,
{
    if n == 0 {
        seq![]
    } else {
        seq![(x % 256) as u8] + le_bytes(x / 256, (n - 1) as nat)
    }
}

/// The encoding of an optional `u32`: a tag byte, 0 or 1, then the value in
/// four little-endian bytes when present.
pub open spec fn option_u32_bytes(o: Option<u32>) -> Seq<u8> {
    match o {
        None => seq![0u8],
        Some(v) => seq![1u8] + le_bytes(v as nat, 4),
    }
}

/// The bytes hashed to draw a genetic code: the slot's random seed, the
/// requester and the index of the call within the slot, each encoded in turn.
pub open spec fn seed_payload(seed: Seq<u8>, who: AccountId, index: Option<u32>) -> Seq<u8> {
    seed + le_bytes(who as nat, 8) + option_u32_bytes(index)
}

/// One byte of a child's code: each bit comes from `a` where the selector's
/// bit is 0, and from `b` where it is 1.
pub open spec fn mix_byte(a: u8, b: u8, s: u8) -> u8 {
    (a & !s) | (b & s)
}

/// Appends the `n` low bytes of `x`, least significant first.
pub(crate) fn push_le(out: &mut Vec<u8>, x: u64, n: usize)
    ensures
        final(out)@ == old(out)@ + le_bytes(x as nat, n as nat),
{
    let mut i: usize = 0;
    let mut rest: u64 = x;
    while i < n
        invariant
            i <= n,
            out@ + le_bytes(rest as nat, (n - i) as nat) == old(out)@ + le_bytes(x as nat, n as nat),
        decreases n - i,
    {
        let ghost before = out@;
        out.push((rest % 256) as u8);
        proof {
            let tail = le_bytes((rest / 256) as nat, (n - i - 1) as nat);
            assert(le_bytes(rest as nat, (n - i) as nat) == seq![(rest % 256) as u8] + tail);
            assert(out@ + tail == before + (seq![(rest % 256) as u8] + tail));
        }
        rest = rest / 256;
        i = i + 1;
    }
    assert(out@ + le_bytes(rest as nat, 0) == out@);
}

/// The bytes that `random_value` hashes.
pub fn encode_seed_payload(seed: &[u8; 32], who: AccountId, index: Option<u32>) -> (r: Vec<u8>)
    ensures
        r@ == seed_payload(seed@, who, index),
{
    let mut out: Vec<u8> = Vec::new();
    let mut i: usize = 0;
    while i < 32
        invariant
            i <= 32,
            seed@.len() == 32,
            out@ == seed@.subrange(0, i as int),
        decreases 32 - i,
    {
        out.push(seed[i]);
        i = i + 1;
        assert(out@ =~= seed@.subrange(0, i as int));
    }
    assert(out@ =~= seed@);
    push_le(&mut out, who, 8);
    match index {
        None => {
            out.push(0u8);
        },
        Some(v) => {
            out.push(1u8);
            let ghost before = out@;
            push_le(&mut out, v as u64, 4);
            assert(out@ == before + le_bytes(v as nat, 4));
        },
    }
    assert(out@ =~= seed_payload(seed@, who, index));
    out
}

/// A genetic code drawn from the slot's random seed, the requester and the
/// index of the call within the slot.
pub fn random_value(seed: &[u8; 32], who: AccountId, index: Option<u32>) -> (r: Dna)
    ensures
        r@ == blake2_128_of(seed_payload(seed@, who, index)),
{
    let payload = encode_seed_payload(seed, who, index);
    blake2_128(&payload)
}

/// The child of parents with codes `a` and `b`: bit by bit, `a`'s bit where
/// the selector's bit is 0, `b`'s where it is 1.
pub fn mix_dna(a: &Dna, b: &Dna, selector: &Dna) -> (r: Dna)
    ensures
        r@.len() == 16,
        forall|i: int| 0 <= i < 16 ==> #[trigger] r@[i] == mix_byte(a@[i], b@[i], selector@[i]),
{
    let mut out: Dna = [0u8; 16];
    let mut i: usize = 0;
    while i < 16
        invariant
            i <= 16,
            a@.len() == 16,
            b@.len() == 16,
            selector@.len() == 16,
            out@.len() == 16,
            forall|j: int| 0 <= j < i ==> #[trigger] out@[j] == mix_byte(a@[j], b@[j], selector@[j]),
        decreases 16 - i,
    {
        out[i] = (a[i] & !selector[i]) | (b[i] & selector[i]);
        i = i + 1;
    }
    out
}

} // verus!
