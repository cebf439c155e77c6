//! The arithmetic that worker threads share out: sums of integer ranges,
//! and the fact that the partial sums of consecutive chunks add up to the sum
//! of the whole range.

use vstd::prelude::*;

verus! {

/// `a + (a + 1) + ... + b`; zero when the range is empty.
pub open spec fn range_total(a: int, b: int) -> int
    decreases b - a + 1,
{
    if b < a {
        0
    } else {
        range_total(a, b - 1) + b
    }
}

/// Every running total of `a..=b` fits in an `i64`.
pub open spec fn range_sums_fit(a: int, b: int) -> bool {
    forall|k: int| a <= k <= b ==> i64::MIN <= #[trigger] range_total(a, k) <= i64::MAX
}

/// The sum of `start..=end`, added one number at a time; every running total
/// must fit in an `i64`.
pub fn range_sum(start: i64, end: i64) -> (r: i64)
    requires
        range_sums_fit(start as int, end as int),
    ensures
        r == range_total(start as int, end as int),
{
    if start > end {
        return 0;
    }
    let mut sum: i64 = start;
    let mut i: i64 = start;
    assert(range_total(start as int, start as int - 1) == 0);
    while i < end
        invariant
            start <= i <= end,
            sum == range_total(start as int, i as int),
            range_sums_fit(start as int, end as int),
        decreases end - i,
    {
        i = i + 1;
        assert(i64::MIN <= range_total(start as int, i as int) <= i64::MAX);
        sum = sum + i;
    }
    sum
}

/// A range splits at any point into two consecutive ranges.
pub proof fn lemma_range_split(a: int, m: int, b: int)
    requires
        a - 1 <= m <= b,
    ensures
        range_total(a, b) == range_total(a, m) + range_total(m + 1, b),
    decreases b - m,
{
    if m < b {
        lemma_range_split(a, m, b - 1);
    }
}

/// The sum of `1..=n` is `n (n + 1) / 2`.
pub proof fn lemma_range_closed_form(n: nat)
    ensures
        2 * range_total(1, n as int) == n * (n + 1),
    decreases n,
{
    if n == 0 {
        assert(n * (n + 1) == 0) by (nonlinear_arith)
            requires
                n == 0,
        ;
    } else {
        let m = (n - 1) as nat;
        lemma_range_closed_form(m);
        assert(range_total(1, n as int) == range_total(1, m as int) + n);
        assert(n * (n + 1) == m * (m + 1) + 2 * n) by (nonlinear_arith)
            requires
                m == n - 1,
        ;
    }
}

/// The partial sums of the first `k` chunks of `size` numbers each, chunk
/// `i` covering `i * size + 1 ..= (i + 1) * size`.
pub open spec fn chunk_totals(k: nat, size: int) -> int
    decreases k,
{
    if k == 0 {
        0
    } else {
        chunk_totals((k - 1) as nat, size) + range_total((k - 1) * size + 1, k * size)
    }
}

/// The partial sums of consecutive chunks add up to the sum of the whole range.
pub proof fn lemma_chunks_add_up(k: nat, size: nat)
    ensures
        chunk_totals(k, size as int) == range_total(1, (k * size) as int),
    decreases k,
{
    if k > 0 {
        let j = (k - 1) as nat;
        lemma_chunks_add_up(j, size);
        assert(k * size == j * size + size) by (nonlinear_arith)
            requires
                j == k - 1,
        ;
        assert(0 <= j * size) by (nonlinear_arith);
        assert((k - 1) * size == j * size);
        assert(chunk_totals(k, size as int) == chunk_totals(j, size as int) + range_total((j * size + 1) as int, (k * size) as int));
        lemma_range_split(1, (j * size) as int, (k * size) as int);
    } else {
        assert(k * size == 0) by (nonlinear_arith)
            requires
                k == 0,
        ;
    }
}

/// The bounds of chunk `i` when chunks hold `size` numbers and start at 1.
pub fn chunk_bounds(i: i64, size: i64) -> (r: (i64, i64))
    requires
        0 <= i < i64::MAX,
        0 <= size,
        (i + 1) * size <= i64::MAX,
    ensures
        r.0 == i * size + 1,
        r.1 == (i + 1) * size,
{
    assert(0 <= i * size && i * size + 1 <= i64::MAX) by (nonlinear_arith)
        requires
            0 <= size,
            0 <= i,
            (i + 1) * size <= i64::MAX,
    ;
    assert(0 <= (i + 1) * size) by (nonlinear_arith)
        requires
            0 <= size,
            0 <= i,
    ;
    let next = i + 1;
    (i * size + 1, next * size)
}

} // verus!
