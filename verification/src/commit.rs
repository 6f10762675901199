//! The commitment function: a deterministic map from a sequence of words to a
//! single 64-bit digest.  It links a header to its parent and commits a block
//! body to an `extrinsics_root`.
//!
//! The only property the rest of the crate relies on is determinism, which
//! holds by construction: the function is pure.  The word-wise absorption
//! step is an invertible shift-xor-multiply scramble with strong avalanche,
//! so for fixed remaining inputs the digest is a bijection of the last word
//! absorbed and digests are spread out enough for proof-of-work mining to
//! make progress.

use vstd::prelude::*;

verus! {

/// Seed from which every commitment starts; an arbitrary odd constant.
pub const COMMIT_SEED: u64 = 0x9E37_79B9_7F4A_7C15;

/// First multiplier of the scramble; an arbitrary odd constant.
pub const SCRAMBLE_MUL_1: u64 = 0xBF58_476D_1CE4_E5B9;

/// Second multiplier of the scramble; an arbitrary odd constant.
pub const SCRAMBLE_MUL_2: u64 = 0x94D0_49BB_1331_11EB;

/// One invertible shift-xor-multiply scramble round.
pub open spec fn spec_scramble(x: u64) -> u64 {
    let a = (x ^ (x >> 30u64)).wrapping_mul(SCRAMBLE_MUL_1);
    let b = (a ^ (a >> 27u64)).wrapping_mul(SCRAMBLE_MUL_2);
    b ^ (b >> 31u64)
}

/// Absorb one word into a running digest.
pub open spec fn spec_mix(h: u64, w: u64) -> u64 {
    spec_scramble(h ^ w)
}

/// Absorb one word into a running digest.
pub fn mix(h: u64, w: u64) -> (r: u64)
    ensures
        r == spec_mix(h, w),
{
    let x = h ^ w;
    let a = (x ^ (x >> 30u64)).wrapping_mul(SCRAMBLE_MUL_1);
    let b = (a ^ (a >> 27u64)).wrapping_mul(SCRAMBLE_MUL_2);
    b ^ (b >> 31u64)
}

/// Commitment to a sequence of words: the seed with every word absorbed into
/// it, left to right.
pub open spec fn spec_commit_words(ws: Seq<u64>) -> u64
    decreases ws.len(),
{
    if ws.len() == 0 {
        COMMIT_SEED
    } else {
        spec_mix(spec_commit_words(ws.drop_last()), ws.last())
    }
}

/// Commitment to a list of words, for example a block body.
pub fn commit_words(ws: &Vec<u64>) -> (r: u64)
    ensures
        r == spec_commit_words(ws@),
{
    let mut h: u64 = COMMIT_SEED;
    for i in 0..ws.len()
        invariant
            h == spec_commit_words(ws@.take(i as int)),
    {
        h = mix(h, ws[i]);
        proof {
            assert(ws@.take(i + 1).drop_last() =~= ws@.take(i as int));
            assert(ws@.take(i + 1).last() == ws@[i as int]);
        }
    }
    proof {
        assert(ws@.take(ws.len() as int) =~= ws@);
    }
    h
}

} // verus!
