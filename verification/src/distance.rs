//! Distance measures.
//!
//! Fingerprint digests are compared with a Hamming distance, never with
//! equality, because timing noise may perturb low bits. Timeline results
//! and belief words are compared position by position; the positions that
//! disagree are the engine's raw notion of a paradox or a belief gap.

use vstd::prelude::*;

verus! {

/// The bit of `x` at position `i`, as 0 or 1.
pub open spec fn bit_of(x: u64, i: u64) -> u64 {
    (x >> i) & 1
}

/// How many of the low `n` bits of `x` are set.
pub open spec fn pop_below(x: u64, n: int) -> int
    decreases n,
{
    if n <= 0 {
        0
    } else {
        pop_below(x, n - 1) + bit_of(x, (n - 1) as u64)
    }
}

/// None of the low bits of zero are set.
pub proof fn lemma_pop_zero(n: int)
    ensures
        pop_below(0, n) == 0,
    decreases n,
{
    if n > 0 {
        lemma_pop_zero(n - 1);
        let j = (n - 1) as u64;
        assert((0u64 >> j) & 1 == 0) by (bit_vector);
    }
}

/// At most `n` of the low `n` bits can be set.
pub proof fn lemma_pop_bound(x: u64, n: int)
    requires
        n >= 0,
    ensures
        0 <= pop_below(x, n) <= n,
    decreases n,
{
    if n > 0 {
        lemma_pop_bound(x, n - 1);
        let j = (n - 1) as u64;
        assert((x >> j) & 1 <= 1) by (bit_vector);
    }
}

/// The number of set bits in `x`.
pub fn popcount(x: u64) -> (r: u32)
    ensures
        r == pop_below(x, 64),
{
    let mut r: u32 = 0;
    let mut i: u64 = 0;
    while i < 64
        invariant
            0 <= i <= 64,
            r == pop_below(x, i as int),
            r <= i,
        decreases 64 - i,
    {
        let b: u64 = (x >> i) & 1;
        assert((x >> i) & 1 <= 1) by (bit_vector);
        r = r + b as u32;
        i = i + 1;
    }
    r
}

/// The Hamming distance between two digests: the number of bit positions
/// where they disagree.
pub fn digest_distance(a: u64, b: u64) -> (r: u32)
    ensures
        r == pop_below(a ^ b, 64),
{
    popcount(a ^ b)
}

/// A digest is at distance zero from itself.
pub proof fn lemma_digest_distance_self(a: u64)
    ensures
        pop_below(a ^ a, 64) == 0,
{
    assert(a ^ a == 0) by (bit_vector);
    lemma_pop_zero(64);
}

/// True when `x` and `y` disagree at position `i`: either only one of them
/// has such a position, or both do and the values differ.
pub open spec fn differs_at<T>(x: Seq<T>, y: Seq<T>, i: int) -> bool {
    i >= x.len() || i >= y.len() || x[i] != y[i]
}

/// The positions below `n` where `x` and `y` disagree, in increasing order.
pub open spec fn mismatch_offsets<T>(x: Seq<T>, y: Seq<T>, n: int) -> Seq<int>
    decreases n,
{
    if n <= 0 {
        Seq::empty()
    } else if differs_at(x, y, n - 1) {
        mismatch_offsets(x, y, n - 1).push(n - 1)
    } else {
        mismatch_offsets(x, y, n - 1)
    }
}

/// A sequence compared against itself has no mismatching position.
pub proof fn lemma_mismatch_of_equal<T>(x: Seq<T>, n: int)
    requires
        n <= x.len(),
    ensures
        mismatch_offsets(x, x, n).len() == 0,
    decreases n,
{
    if n > 0 {
        lemma_mismatch_of_equal(x, n - 1);
    }
}

/// Every recorded mismatch position lies below `n` and genuinely disagrees,
/// and every disagreeing position below `n` is recorded.
pub proof fn lemma_mismatch_sound<T>(x: Seq<T>, y: Seq<T>, n: int)
    ensures
        forall|k: int|
            0 <= k < mismatch_offsets(x, y, n).len() ==> {
                let off = #[trigger] mismatch_offsets(x, y, n)[k];
                0 <= off < n && differs_at(x, y, off)
            },
        forall|i: int| 0 <= i < n && differs_at(x, y, i) ==> mismatch_offsets(x, y, n).contains(i),
    decreases n,
{
    if n > 0 {
        lemma_mismatch_sound(x, y, n - 1);
        let prev = mismatch_offsets(x, y, n - 1);
        let cur = mismatch_offsets(x, y, n);
        if differs_at(x, y, n - 1) {
            assert(cur == prev.push(n - 1));
            assert forall|k: int| 0 <= k < cur.len() implies {
                let off = #[trigger] cur[k];
                0 <= off < n && differs_at(x, y, off)
            } by {
                if k < prev.len() {
                    assert(cur[k] == prev[k]);
                } else {
                    assert(cur[k] == n - 1);
                }
            }
            assert forall|i: int| 0 <= i < n && differs_at(x, y, i) implies cur.contains(i) by {
                if i < n - 1 {
                    let k = choose|k: int| 0 <= k < prev.len() && #[trigger] prev[k] == i;
                    assert(cur[k] == i);
                } else {
                    assert(cur[cur.len() - 1] == i);
                }
            }
        } else {
            assert(cur == prev);
        }
    }
}

} // verus!
