//! Small functions with exact results: addition, parity, bracketing, a
//! bounded guess and the sum of the first `n` naturals.

use vstd::prelude::*;
use crate::text::concat3;

verus! {

/// `a + b`.
pub fn add(a: i32, b: i32) -> (r: i32)
    requires
        i32::MIN <= a + b <= i32::MAX,
    ensures
        r == a + b,
{
    a + b
}

/// Whether `n` is even (negative numbers included).
pub fn is_even(n: i32) -> (r: bool)
    ensures
        r == (n % 2 == 0),
{
    n % 2 == 0
}

/// `s` between square brackets.
pub fn wrap_in_brackets(s: &str) -> (r: String)
    ensures
        r@ == "["@ + s@ + "]"@,
{
    concat3("[", s, "]")
}

/// A guess between 1 and 100.
pub struct Guess {
    value: i32,
}

impl Guess {
    /// Every guess lies in `1..=100`.
    #[verifier::type_invariant]
    spec fn in_range(self) -> bool {
        1 <= self.value <= 100
    }

    /// The guessed number.
    pub closed spec fn spec_value(&self) -> i32 {
        self.value
    }

    /// A guess of `value`, which must lie in `1..=100`.
    pub fn new(value: i32) -> (g: Guess)
        requires
            1 <= value <= 100,
        ensures
            g.spec_value() == value,
    {
        Guess { value }
    }

    /// The guessed number, always in `1..=100`.
    pub fn value(&self) -> (r: i32)
        ensures
            r == self.spec_value(),
            1 <= r <= 100,
    {
        proof {
            use_type_invariant(self);
        }
        self.value
    }
}

/// `0 + 1 + ... + (n - 1)`.
pub open spec fn sum_below(n: nat) -> nat
    decreases n,
{
    if n == 0 {
        0
    } else {
        sum_below((n - 1) as nat) + (n - 1) as nat
    }
}

/// The closed form of `sum_below`.
pub proof fn lemma_sum_below(n: nat)
    ensures
        2 * sum_below(n) == n * (n - 1),
    decreases n,
{
    if n > 0 {
        let m = (n - 1) as nat;
        lemma_sum_below(m);
        assert(sum_below(n) == sum_below(m) + m);
        assert(n * (n - 1) == m * (m - 1) + 2 * m) by (nonlinear_arith)
            requires
                m == n - 1,
        ;
    } else {
        assert(n * (n - 1) == 0) by (nonlinear_arith)
            requires
                n == 0,
        ;
    }
}

/// `sum_below` never decreases.
proof fn lemma_sum_below_monotonic(i: nat, j: nat)
    requires
        i <= j,
    ensures
        sum_below(i) <= sum_below(j),
    decreases j - i,
{
    if i < j {
        lemma_sum_below_monotonic(i, (j - 1) as nat);
    }
}

/// Adds up `0..n` one number at a time.
pub fn slow_computation(n: u64) -> (r: u64)
    requires
        sum_below(n as nat) <= u64::MAX,
    ensures
        r == sum_below(n as nat),
{
    let mut result: u64 = 0;
    let mut i: u64 = 0;
    while i < n
        invariant
            i <= n,
            result == sum_below(i as nat),
            sum_below(n as nat) <= u64::MAX,
        decreases n - i,
    {
        proof {
            lemma_sum_below_monotonic((i + 1) as nat, n as nat);
        }
        result = result + i;
        i = i + 1;
    }
    result
}

} // verus!
