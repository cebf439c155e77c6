//! Operations usually written with raw pointers, done with safe references:
//! splitting a slice, summing, swapping, copying, and a boxed value.

use vstd::prelude::*;

verus! {

/// Splits `slice` at `mid` into two disjoint mutable halves.
pub fn my_split_at_mut<'a>(slice: &'a mut [i32], mid: usize) -> (r: (&'a mut [i32], &'a mut [i32]))
    requires
        mid <= old(slice)@.len(),
    ensures
        r.0@ == old(slice)@.subrange(0, mid as int),
        r.1@ == old(slice)@.subrange(mid as int, old(slice)@.len() as int),
        final(slice)@ == final(r.0)@ + final(r.1)@,
{
    slice.split_at_mut(mid)
}

/// The sum of the first `n` elements of `s`.
pub open spec fn prefix_sum(s: Seq<i32>, n: int) -> int
    decreases n,
{
    if n <= 0 {
        0
    } else {
        prefix_sum(s, n - 1) + s[n - 1]
    }
}

/// Every running total of `s` fits in an `i32`.
pub open spec fn sums_fit(s: Seq<i32>) -> bool {
    forall|k: int| 0 <= k <= s.len() ==> i32::MIN <= #[trigger] prefix_sum(s, k) <= i32::MAX
}

/// Adds the elements in order; every running total must fit in an `i32`.
pub fn safe_sum_via_pointer(data: &[i32]) -> (r: i32)
    requires
        sums_fit(data@),
    ensures
        r == prefix_sum(data@, data@.len() as int),
{
    let mut sum: i32 = 0;
    let mut i: usize = 0;
    while i < data.len()
        invariant
            i <= data.len(),
            sums_fit(data@),
            sum == prefix_sum(data@, i as int),
        decreases data.len() - i,
    {
        assert(i32::MIN <= prefix_sum(data@, i + 1) <= i32::MAX);
        sum = sum + data[i];
        i = i + 1;
    }
    sum
}

/// The sum of all elements; every running total must fit in an `i32`.
pub fn safe_parallel_sum(data: &[i32]) -> (r: i32)
    requires
        sums_fit(data@),
    ensures
        r == prefix_sum(data@, data@.len() as int),
{
    safe_sum_via_pointer(data)
}

/// Exchanges the two values.
pub fn raw_swap(a: &mut i32, b: &mut i32)
    ensures
        *final(a) == *old(b),
        *final(b) == *old(a),
{
    std::mem::swap(a, b);
}

/// Copies `src` into `dst`, which must have the same length.
pub fn raw_copy(src: &[i32], dst: &mut [i32])
    requires
        src@.len() == old(dst)@.len(),
    ensures
        final(dst)@ == src@,
{
    let n = src.len();
    let mut i: usize = 0;
    while i < n
        invariant
            n == src@.len(),
            dst@.len() == n,
            i <= n,
            forall|j: int| 0 <= j < i ==> dst@[j] == src@[j],
        decreases n - i,
    {
        dst[i] = src[i];
        i = i + 1;
    }
    assert(dst@ =~= src@);
}

/// An integer kept on the heap.
pub struct SafePointerWrapper {
    value: Box<i32>,
}

impl SafePointerWrapper {
    /// The stored integer.
    pub closed spec fn stored(&self) -> i32 {
        *self.value
    }

    /// Stores `value` on the heap.
    pub fn new(value: i32) -> (w: Self)
        ensures
            w.stored() == value,
    {
        SafePointerWrapper { value: Box::new(value) }
    }

    /// The stored integer.
    pub fn get(&self) -> (r: i32)
        ensures
            r == self.stored(),
    {
        *self.value
    }
}

} // verus!
