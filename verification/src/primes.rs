//! Divisibility and primality, as specifications with the lemmas that
//! trial division relies on.

use vstd::prelude::*;
use vstd::arithmetic::div_mod::{lemma_fundamental_div_mod, lemma_mod_multiples_basic};

verus! {

/// `d` divides `n`.
pub open spec fn divides(d: nat, n: nat) -> bool {
    d != 0 && n % d == 0
}

/// `n` is a prime number: at least 2, with no divisor strictly between 1 and `n`.
pub open spec fn is_prime_spec(n: nat) -> bool {
    n >= 2 && forall|d: nat| 2 <= d < n ==> !#[trigger] divides(d, n)
}

/// The number of primes in `2..=limit`.
pub open spec fn prime_count(limit: nat) -> nat
    decreases limit,
{
    if limit < 2 {
        0
    } else {
        prime_count((limit - 1) as nat) + (if is_prime_spec(limit) { 1nat } else { 0nat })
    }
}

/// Divisibility is transitive.
pub proof fn lemma_divides_trans(a: nat, b: nat, c: nat)
    requires
        divides(a, b),
        divides(b, c),
    ensures
        divides(a, c),
{
    lemma_fundamental_div_mod(b as int, a as int);
    lemma_fundamental_div_mod(c as int, b as int);
    let x = b / a;
    let y = c / b;
    assert(b == a * x);
    assert(c == b * y);
    assert(c == (x * y) * a) by (nonlinear_arith)
        requires
            b == a * x,
            c == b * y,
    ;
    lemma_mod_multiples_basic((x * y) as int, a as int);
}

/// A number with a divisor strictly between 1 and itself has one whose
/// square is at most the number.
pub proof fn lemma_small_divisor(n: nat, d: nat) -> (m: nat)
    requires
        2 <= d < n,
        divides(d, n),
    ensures
        2 <= m,
        m * m <= n,
        divides(m, n),
{
    lemma_fundamental_div_mod(n as int, d as int);
    let e = n / d;
    assert(n == d * e);
    assert(e >= 2) by (nonlinear_arith)
        requires
            n == d * e,
            d < n,
            d >= 2,
    ;
    if d * d <= n {
        d
    } else {
        assert(e * e <= n) by (nonlinear_arith)
            requires
                n == d * e,
                d * d > n,
                e >= 2,
                d >= 2,
        ;
        assert(n == e * d) by (nonlinear_arith)
            requires
                n == d * e,
        ;
        lemma_mod_multiples_basic(d as int, e as int);
        e
    }
}

/// If no number in `2..bound` divides `n` and `bound * bound > n`, then `n` is prime.
pub proof fn lemma_prime_by_trial(n: nat, bound: nat)
    requires
        n >= 2,
        bound * bound > n,
        forall|m: nat| 2 <= m < bound ==> !#[trigger] divides(m, n),
    ensures
        is_prime_spec(n),
{
    assert forall|d: nat| 2 <= d < n implies !#[trigger] divides(d, n) by {
        if divides(d, n) {
            let m = lemma_small_divisor(n, d);
            assert(m < bound) by (nonlinear_arith)
                requires
                    m * m <= n,
                    bound * bound > n,
                    m >= 2,
            ;
        }
    }
}

/// An even divisor of `n` makes `n` even; a divisor that is a multiple of 3
/// makes `n` a multiple of 3.
pub proof fn lemma_divisor_factor(m: nat, n: nat, f: nat)
    requires
        divides(m, n),
        f != 0,
        m % f == 0,
    ensures
        divides(f, n),
{
    lemma_divides_trans(f, m, n);
}

} // verus!
