//! Class scores as IEEE 754 binary32 bit patterns, and their order.
//!
//! A score travels through this library as the 32 bits of a single-precision
//! number. `rank` maps a pattern to an integer such that a number that is
//! smaller has the smaller rank and numbers that compare equal (the two zeros
//! among them) have the same rank.

use vstd::prelude::*;

verus! {

/// Patterns from here on carry the sign bit.
pub const SIGN_BIT: u32 = 0x8000_0000;

/// The pattern of positive infinity: all exponent bits, no fraction bit.
pub const INFINITY_BITS: u32 = 0x7f80_0000;

/// The pattern without its sign bit.
pub open spec fn magnitude(bits: u32) -> int {
    bits as int % 0x8000_0000
}

/// Whether the sign bit is set.
pub open spec fn is_negative(bits: u32) -> bool {
    bits >= 0x8000_0000
}

/// Whether the pattern is a NaN: all exponent bits and some fraction bit.
pub open spec fn is_nan(bits: u32) -> bool {
    magnitude(bits) > 0x7f80_0000
}

/// The rank of a NaN: one below the rank of negative infinity.
pub open spec fn nan_rank() -> int {
    -0x7f80_0001
}

/// The place of a pattern in the order of the numbers. A NaN is no number
/// and ranks below all of them.
pub open spec fn rank(bits: u32) -> int {
    if is_nan(bits) {
        nan_rank()
    } else if is_negative(bits) {
        -magnitude(bits)
    } else {
        magnitude(bits)
    }
}

/// The rank tells the numbers apart: two patterns that are no NaN have the
/// same rank exactly when they are the same pattern or both a zero, and the
/// rank of a NaN is that of no number.
pub proof fn lemma_rank_tells_numbers_apart(a: u32, b: u32)
    ensures
        is_nan(a) <==> rank(a) == nan_rank(),
        !is_nan(a) ==> -0x7f80_0000 <= rank(a) <= 0x7f80_0000,
        !is_nan(a) && !is_nan(b) ==> (rank(a) == rank(b) <==> a == b || (magnitude(a) == 0
            && magnitude(b) == 0)),
{
}

/// The rank follows the size of the numbers: of two patterns without the sign
/// bit the larger has the larger rank, of two with it the smaller has, and one
/// with it never ranks above one without. A NaN is left out.
pub proof fn lemma_rank_follows_size(a: u32, b: u32)
    requires
        !is_nan(a),
        !is_nan(b),
    ensures
        !is_negative(a) && !is_negative(b) ==> (rank(a) < rank(b) <==> a < b),
        is_negative(a) && is_negative(b) ==> (rank(a) < rank(b) <==> a > b),
        is_negative(a) && !is_negative(b) ==> rank(a) <= 0 <= rank(b),
{
}

/// Computes the rank of a pattern.
pub fn rank_of(bits: u32) -> (r: i64)
    ensures
        r == rank(bits),
{
    let mag: u32 = bits % SIGN_BIT;
    if mag > INFINITY_BITS {
        -0x7f80_0001
    } else if bits >= SIGN_BIT {
        -(mag as i64)
    } else {
        mag as i64
    }
}

/// Whether `i` is the index of the maximum of `scores`: no score ranks above
/// the one at `i`, and every score before `i` ranks strictly below it, so
/// that among equal maxima the first one is meant.
pub open spec fn is_argmax(scores: Seq<u32>, i: int) -> bool {
    &&& 0 <= i < scores.len()
    &&& forall|j: int| 0 <= j < scores.len() ==> rank(#[trigger] scores[j]) <= rank(scores[i])
    &&& forall|j: int| 0 <= j < i ==> rank(#[trigger] scores[j]) < rank(scores[i])
}

/// The index of the maximum of `scores`, where there is one.
pub open spec fn argmax_of(scores: Seq<u32>) -> int {
    choose|i: int| is_argmax(scores, i)
}

/// The index of the maximum score, the first one where several are equal.
/// An empty slice has no maximum.
pub fn argmax(scores: &[u32]) -> (r: Option<usize>)
    ensures
        r is None <==> scores@.len() == 0,
        r matches Some(i) ==> is_argmax(scores@, i as int) && i == argmax_of(scores@),
{
    if scores.len() == 0 {
        return None;
    }
    let mut best: usize = 0;
    let mut best_rank: i64 = rank_of(scores[0]);
    let mut k: usize = 1;
    while k < scores.len()
        invariant
            1 <= k <= scores@.len(),
            best < k,
            best_rank == rank(scores@[best as int]),
            forall|j: int| 0 <= j < k ==> rank(#[trigger] scores@[j]) <= best_rank,
            forall|j: int| 0 <= j < best ==> rank(#[trigger] scores@[j]) < best_rank,
        decreases scores@.len() - k,
    {
        let r: i64 = rank_of(scores[k]);
        if r > best_rank {
            best = k;
            best_rank = r;
        }
        k += 1;
    }
    proof {
        lemma_argmax_unique(scores@, best as int, argmax_of(scores@));
    }
    Some(best)
}

/// Every sequence of scores but the empty one has a maximum, and `argmax_of`
/// is its index.
pub proof fn lemma_argmax_exists(scores: Seq<u32>)
    requires
        scores.len() > 0,
    ensures
        is_argmax(scores, argmax_of(scores)),
    decreases scores.len(),
{
    if scores.len() == 1 {
        assert(is_argmax(scores, 0));
    } else {
        let front = scores.drop_last();
        lemma_argmax_exists(front);
        let i = argmax_of(front);
        let last = scores.len() - 1;
        assert forall|j: int| 0 <= j < front.len() implies front[j] == scores[j] by {}
        if rank(scores[last]) > rank(scores[i]) {
            assert forall|j: int| 0 <= j < last implies rank(#[trigger] scores[j]) < rank(
                scores[last],
            ) by {
                assert(rank(front[j]) <= rank(front[i]));
            }
            assert(is_argmax(scores, last));
        } else {
            assert forall|j: int| 0 <= j < scores.len() implies rank(#[trigger] scores[j]) <= rank(
                scores[i],
            ) by {
                if j < last {
                    assert(rank(front[j]) <= rank(front[i]));
                }
            }
            assert forall|j: int| 0 <= j < i implies rank(#[trigger] scores[j]) < rank(
                scores[i],
            ) by {
                assert(rank(front[j]) < rank(front[i]));
            }
            assert(is_argmax(scores, i));
        }
    }
}

/// The maximum of a sequence of scores has one index only: whatever finds an
/// index that `is_argmax` accepts finds the same one.
pub proof fn lemma_argmax_unique(scores: Seq<u32>, i: int, j: int)
    requires
        is_argmax(scores, i),
        is_argmax(scores, j),
    ensures
        i == j,
{
    if i < j {
        assert(rank(scores[i]) < rank(scores[j]));
        assert(rank(scores[j]) <= rank(scores[i]));
    } else if j < i {
        assert(rank(scores[j]) < rank(scores[i]));
        assert(rank(scores[i]) <= rank(scores[j]));
    }
}

} // verus!
