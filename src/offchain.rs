use vstd::prelude::*;

use crate::dna::{le_bytes, push_le};

verus! {

/// The star count of a source repository, as a code host reports it.
#[derive(Clone, Copy, Debug, PartialEq, Eq)]
pub struct RepoInfo {
    pub stargazers_count: u64,
}

/// A price in cents, as a price feed reports it.
#[derive(Clone, Copy, Debug, PartialEq, Eq, Default)]
pub struct PriceStructData {
    pub price: u32,
}

/// What is written to the off-chain index: a tag and a number.
#[derive(Debug, PartialEq, Eq, Default)]
pub struct IndexingData(pub Vec<u8>, pub u64);

/// The index key of `key` at block `block_number`: the key, an `@`, then the
/// block number in four little-endian bytes.
pub open spec fn derived_key_spec(block_number: u32, key: Seq<u8>) -> Seq<u8> {
    key + seq![64u8] + le_bytes(block_number as nat, 4)
}

/// The index key of `key` at block `block_number`.
pub fn derived_key(block_number: u32, key: &[u8]) -> (r: Vec<u8>)
    ensures
        r@ == derived_key_spec(block_number, key@),
{
    let mut out: Vec<u8> = Vec::new();
    let mut i: usize = 0;
    while i < key.len()
        invariant
            i <= key@.len(),
            out@ == key@.subrange(0, i as int),
        decreases key@.len() - i,
    {
        out.push(key[i]);
        i = i + 1;
        assert(out@ =~= key@.subrange(0, i as int));
    }
    assert(out@ =~= key@);
    out.push(64u8);
    push_le(&mut out, block_number as u64, 4);
    out
}

/// The priority that an accepted unsigned submission gets in the pool.
pub const UNSIGNED_PRIORITY: u64 = 100;

/// For how many blocks an accepted unsigned submission stays valid.
pub const UNSIGNED_LONGEVITY: u64 = 3;

/// The prefix of the tags that accepted unsigned submissions carry.
pub const UNSIGNED_TAG_PREFIX: &'static str = "my-pallet";

/// The tag that an accepted signed-payload submission provides, as bytes of
/// this text.
pub const SIGNED_PAYLOAD_TAG: &'static str = "unsigned_extrinsic_with_signed_payload";

/// How the transaction pool is to treat an unsigned call.
#[derive(Clone, Copy, Debug, PartialEq, Eq)]
pub enum UnsignedValidity {
    /// Accepted, with its tag prefix, the tag it provides, its pool priority,
    /// its lifetime in blocks and whether it is passed on to other nodes.
    Valid {
        tag_prefix: &'static str,
        provides: &'static str,
        priority: u64,
        longevity: u64,
        propagate: bool,
    },
    /// A submission of a signed payload whose signature does not verify.
    BadProof,
    /// A call that is never accepted unsigned.
    UnknownCall,
}

/// Whether an unsigned call is accepted: only a submission of a signed
/// payload is, and only when `signature_valid`, the outcome of verifying the
/// payload's signature against its public key.
pub fn validate_unsigned(is_signed_payload_submission: bool, signature_valid: bool) -> (r: UnsignedValidity)
    ensures
        !is_signed_payload_submission ==> r == UnsignedValidity::UnknownCall,
        is_signed_payload_submission && !signature_valid ==> r == UnsignedValidity::BadProof,
        is_signed_payload_submission && signature_valid ==> r == (UnsignedValidity::Valid {
            tag_prefix: UNSIGNED_TAG_PREFIX,
            provides: SIGNED_PAYLOAD_TAG,
            priority: UNSIGNED_PRIORITY,
            longevity: UNSIGNED_LONGEVITY,
            propagate: true,
        }),
{
    if !is_signed_payload_submission {
        UnsignedValidity::UnknownCall
    } else if !signature_valid {
        UnsignedValidity::BadProof
    } else {
        UnsignedValidity::Valid {
            tag_prefix: UNSIGNED_TAG_PREFIX,
            provides: SIGNED_PAYLOAD_TAG,
            priority: UNSIGNED_PRIORITY,
            longevity: UNSIGNED_LONGEVITY,
            propagate: true,
        }
    }
}

} // verus!
