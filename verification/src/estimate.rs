//! Arithmetic for the memory estimator.
//!
//! The specialized accumulators model the footprint of an open-addressing
//! hash table at its target load factor of 7/8: the expected bucket count is
//! the element count scaled by 8/7 and rounded up to the next power of two,
//! and the table costs one entry plus one control byte per bucket.

use vstd::prelude::*;

verus! {

/// The smallest power of two that is at least `n` (and at least 1).
pub open spec fn spec_next_pow2(n: int) -> int
    decreases n,
{
    if n <= 1 {
        1
    } else {
        2 * spec_next_pow2((n + 1) / 2)
    }
}

/// The next power of two lies between `n` and `2 n - 1`.
pub proof fn lemma_next_pow2_bounds(n: int)
    requires
        n >= 1,
    ensures
        n <= spec_next_pow2(n) <= 2 * n - 1,
    decreases n,
{
    if n > 1 {
        lemma_next_pow2_bounds((n + 1) / 2);
    }
}

/// The smallest power of two greater than or equal to `n`.
pub fn next_pow2(n: usize) -> (r: usize)
    requires
        n as int <= usize::MAX as int / 7,
    ensures
        r as int == spec_next_pow2(n as int),
    decreases n,
{
    if n <= 1 {
        1
    } else {
        let half = (n - 1) / 2 + 1;
        assert(half as int == (n as int + 1) / 2);
        let sub = next_pow2(half);
        proof {
            lemma_next_pow2_bounds(half as int);
        }
        2 * sub
    }
}

/// The expected bucket count for a set of `len` elements: `len` scaled by
/// 8/7 (the reciprocal of the target load factor, saturating at the machine
/// limit) and rounded up to the next power of two.
pub open spec fn spec_buckets(len: int) -> int {
    spec_next_pow2(
        (if 8 * len > usize::MAX as int {
            usize::MAX as int
        } else {
            8 * len
        }) / 7,
    )
}

/// Executable counterpart of [`spec_buckets`].
pub fn estimated_buckets(len: usize) -> (r: usize)
    ensures
        r as int == spec_buckets(len as int),
{
    let scaled = match len.checked_mul(8) {
        Some(v) => v,
        None => usize::MAX,
    };
    next_pow2(scaled / 7)
}

/// The byte length of a string's encoded payload, as the machine reports
/// it.
pub open spec fn string_heap_bytes(s: String) -> int {
    (vstd::utf8::encode_utf8(s@).len() as usize) as int
}

/// Relies on Vec::capacity: the number of elements the vector can hold
/// without reallocating, which is never less than its length.
#[verifier::external_body]
pub fn vec_capacity<T>(v: &Vec<T>) -> (r: usize)
    ensures
        v@.len() <= r,
{
    v.capacity()
}

/// Adds with saturation at the machine limit, keeping an exact account: the
/// result is the true sum clipped to the limit.
pub fn add_sat(a: usize, b: usize) -> (r: usize)
    ensures
        r as int == if a + b <= usize::MAX as int {
            a + b
        } else {
            usize::MAX as int
        },
{
    a.saturating_add(b)
}

/// Multiplies with saturation at the machine limit.
pub fn mul_sat(a: usize, b: usize) -> (r: usize)
    ensures
        r as int == if a * b <= usize::MAX as int {
            a * b
        } else {
            usize::MAX as int
        },
{
    match a.checked_mul(b) {
        Some(v) => v,
        None => usize::MAX,
    }
}

} // verus!
