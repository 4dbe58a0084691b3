//! Deterministic pseudo-random derivation.
//!
//! A 16-byte value is derived by hashing the canonical encoding of the
//! chain randomness seed, the caller identity, and the extrinsic index
//! with Blake2b-128. The encoding is fixed little-endian concatenation,
//! so the derived value is a pure function of those three inputs: two
//! calls within the same execution context return the same bytes.

use vstd::prelude::*;

use crate::types::{AccountId, ChainContext};

verus! {

/// The 16-byte Blake2b digest of `data`, as the outside hash function
/// computes it. The digest depends on `data` alone; nothing else is
/// assumed of it.
pub uninterp spec fn blake2_128_of(data: Seq<u8>) -> Seq<u8>;

/// Relies on `sp_io::hashing::blake2_128`: a keyless 16-byte Blake2b
/// digest of the input bytes, a pure function of those bytes.
#[verifier::external_body]
pub(crate) fn blake2_128(data: &[u8]) -> (r: [u8; 16])
    ensures
        r@ == blake2_128_of(data@),
{
    sp_io::hashing::blake2_128(data)
}

/// Canonical encoding hashed by the derivation: the 32 seed bytes,
/// then the caller identity as 8 little-endian bytes, then the
/// extrinsic index as 4 little-endian bytes.
pub open spec fn spec_random_payload(seed: Seq<u8>, sender: AccountId, extrinsic_index: u32) -> Seq<u8> {
    seed + vstd::bytes::spec_u64_to_le_bytes(sender) + vstd::bytes::spec_u32_to_le_bytes(extrinsic_index)
}

/// The 16-byte pseudo-random value derived for `sender` in context
/// `(seed, extrinsic_index)`.
pub open spec fn spec_random_value(seed: Seq<u8>, extrinsic_index: u32, sender: AccountId) -> Seq<u8> {
    blake2_128_of(spec_random_payload(seed, sender, extrinsic_index))
}

/// Builds the canonical payload for the derivation.
pub(crate) fn encode_random_payload(ctx: &ChainContext, sender: AccountId) -> (r: Vec<u8>)
    ensures
        r@ == spec_random_payload(ctx.randomness_seed@, sender, ctx.extrinsic_index),
{
    let mut out: Vec<u8> = Vec::new();
    for i in 0..32
        invariant
            out@ =~= ctx.randomness_seed@.subrange(0, i as int),
    {
        out.push(ctx.randomness_seed[i]);
        proof {
            assert(out@ =~= ctx.randomness_seed@.subrange(0, i + 1));
        }
    }
    proof {
        assert(ctx.randomness_seed@.subrange(0, 32) =~= ctx.randomness_seed@);
    }
    let mut sender_bytes = vstd::bytes::u64_to_le_bytes(sender);
    out.append(&mut sender_bytes);
    let mut index_bytes = vstd::bytes::u32_to_le_bytes(ctx.extrinsic_index);
    out.append(&mut index_bytes);
    out
}

/// Derives the 16-byte pseudo-random value for `sender` in `ctx`.
pub fn derive_random_value(ctx: &ChainContext, sender: AccountId) -> (r: [u8; 16])
    ensures
        r@ == spec_random_value(ctx.randomness_seed@, ctx.extrinsic_index, sender),
{
    let payload = encode_random_payload(ctx, sender);
    blake2_128(payload.as_slice())
}

} // verus!
