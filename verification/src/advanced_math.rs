//! Factorials, Fibonacci numbers, primality by 6k±1 trial division and the
//! greatest common divisor.

use vstd::prelude::*;
use vstd::arithmetic::div_mod::{lemma_fundamental_div_mod, lemma_mod_multiples_basic};
use crate::benchmark::{fib, lemma_fib_monotonic};
use crate::primes::{divides, is_prime_spec, lemma_divides_trans, lemma_divisor_factor, lemma_prime_by_trial};

verus! {

/// `n!`, with `0! == 1! == 1`.
pub open spec fn factorial_spec(n: nat) -> nat
    decreases n,
{
    if n <= 1 {
        1
    } else {
        n * factorial_spec((n - 1) as nat)
    }
}

/// `n!`, computed recursively; defined where the result fits in a `u64`.
pub fn factorial(n: u64) -> (r: u64)
    requires
        factorial_spec(n as nat) <= u64::MAX,
    ensures
        r == factorial_spec(n as nat),
    decreases n,
{
    if n <= 1 {
        1
    } else {
        let ghost prev = factorial_spec((n - 1) as nat);
        assert(prev <= factorial_spec(n as nat)) by (nonlinear_arith)
            requires
                factorial_spec(n as nat) == n * prev,
                n >= 2,
        ;
        n * factorial(n - 1)
    }
}

/// The `n`-th Fibonacci number, computed bottom-up.
pub fn fibonacci(n: u32) -> (r: u64)
    requires
        fib(n as nat) <= u64::MAX,
    ensures
        r == fib(n as nat),
{
    if n == 0 {
        return 0;
    }
    if n == 1 {
        return 1;
    }
    let mut a: u64 = 0;
    let mut b: u64 = 1;
    let mut k: u32 = 1;
    while k < n
        invariant
            1 <= k <= n,
            fib(n as nat) <= u64::MAX,
            a == fib((k - 1) as nat),
            b == fib(k as nat),
        decreases n - k,
    {
        proof {
            lemma_fib_monotonic((k + 1) as nat, n as nat);
        }
        let temp = b;
        b = a + b;
        a = temp;
        k = k + 1;
    }
    b
}

/// The last candidate `i` whose square still fits in a `u64`; trial division
/// reaches the next candidate only for primes at least its square.
pub open spec fn last_square_candidate() -> nat {
    4294967291
}

/// Primality by trial division with 2, 3 and the numbers `6k ± 1`.
pub fn is_prime(n: u64) -> (r: bool)
    requires
        !(is_prime_spec(n as nat) && n >= last_square_candidate() * last_square_candidate()),
    ensures
        r == is_prime_spec(n as nat),
{
    if n < 2 {
        return false;
    }
    if n == 2 || n == 3 {
        assert forall|d: nat| 2 <= d < n implies !#[trigger] divides(d, n as nat) by {
            assert(d == 2);
        }
        return true;
    }
    if n % 2 == 0 || n % 3 == 0 {
        if n % 2 == 0 {
            assert(divides(2, n as nat));
        } else {
            assert(divides(3, n as nat));
        }
        return false;
    }
    assert forall|m: nat| 2 <= m < 5 implies !#[trigger] divides(m, n as nat) by {
        if m == 4 && divides(m, n as nat) {
            lemma_divisor_factor(m, n as nat, 2);
        }
    }
    let mut i: u64 = 5;
    loop
        invariant
            5 <= i <= 4294967291,
            i % 6 == 5,
            n % 2 != 0,
            n % 3 != 0,
            n >= 5,
            !(is_prime_spec(n as nat) && n >= last_square_candidate() * last_square_candidate()),
            forall|m: nat| 2 <= m < i ==> !#[trigger] divides(m, n as nat),
        ensures
            i * i > n,
            forall|m: nat| 2 <= m < i ==> !#[trigger] divides(m, n as nat),
        decreases 4294967291 - i,
    {
        assert(i * i <= 4294967291 * 4294967291) by (nonlinear_arith)
            requires
                i <= 4294967291,
        ;
        if i * i > n {
            break;
        }
        if n % i == 0 || n % (i + 2) == 0 {
            assert(i + 2 < n) by (nonlinear_arith)
                requires
                    i * i <= n,
                    i >= 5,
            ;
            if n % i == 0 {
                assert(divides(i as nat, n as nat));
            } else {
                assert(divides((i + 2) as nat, n as nat));
            }
            return false;
        }
        assert forall|m: nat| 2 <= m < i + 6 implies !#[trigger] divides(m, n as nat) by {
            if i <= m && divides(m, n as nat) {
                if m == i + 1 || m == i + 3 || m == i + 5 {
                    lemma_divisor_factor(m, n as nat, 2);
                } else if m == i + 4 {
                    lemma_divisor_factor(m, n as nat, 3);
                }
            }
        }
        if i == 4294967291 {
            proof {
                assert(!is_prime_spec(n as nat));
                assert(is_prime_spec(n as nat)) by {
                    assert(forall|m: nat| 2 <= m < i ==> !#[trigger] divides(m, n as nat));
                    assert(n < (i + 6) * (i + 6)) by (nonlinear_arith)
                        requires
                            i == 4294967291,
                            n <= 18446744073709551615,
                    ;
                    lemma_prime_by_trial(n as nat, (i + 6) as nat);
                }
            }
        }
        i = i + 6;
    }
    proof {
        lemma_prime_by_trial(n as nat, i as nat);
    }
    true
}

/// The greatest common divisor by Euclid's remainder sequence.
pub open spec fn gcd_spec(a: nat, b: nat) -> nat
    decreases b,
{
    if b == 0 {
        a
    } else {
        gcd_spec(b, a % b)
    }
}

/// Euclid's algorithm.
pub fn gcd(x: u64, y: u64) -> (r: u64)
    ensures
        r == gcd_spec(x as nat, y as nat),
{
    let mut a = x;
    let mut b = y;
    while b != 0
        invariant
            gcd_spec(a as nat, b as nat) == gcd_spec(x as nat, y as nat),
        decreases b,
    {
        let temp = b;
        b = a % b;
        a = temp;
    }
    a
}

/// A common divisor of `x` and `y` divides `k * x + y`.
proof fn lemma_divides_sum(d: nat, x: nat, y: nat, k: nat)
    requires
        divides(d, x),
        divides(d, y),
    ensures
        divides(d, k * x + y),
{
    lemma_fundamental_div_mod(x as int, d as int);
    lemma_fundamental_div_mod(y as int, d as int);
    let p = x / d;
    let q = y / d;
    assert(k * x + y == (k * p + q) * d) by (nonlinear_arith)
        requires
            x == d * p,
            y == d * q,
    ;
    lemma_mod_multiples_basic((k * p + q) as int, d as int);
}

/// A common divisor of `x` and `y` divides `y - k * x` when that is not negative.
proof fn lemma_divides_difference(d: nat, x: nat, y: nat, k: nat)
    requires
        divides(d, x),
        divides(d, y),
        k * x <= y,
    ensures
        divides(d, (y - k * x) as nat),
{
    lemma_fundamental_div_mod(x as int, d as int);
    lemma_fundamental_div_mod(y as int, d as int);
    let p = x / d;
    let q = y / d;
    assert(y - k * x == (q - k * p) * d) by (nonlinear_arith)
        requires
            x == d * p,
            y == d * q,
    ;
    lemma_mod_multiples_basic(q - k * p, d as int);
}

/// The result of `gcd` divides both arguments (unless both are zero), and
/// every common divisor of the arguments divides it.
pub proof fn lemma_gcd_is_greatest_common_divisor(a: nat, b: nat)
    ensures
        a > 0 || b > 0 ==> divides(gcd_spec(a, b), a) && divides(gcd_spec(a, b), b),
        forall|d: nat| divides(d, a) && divides(d, b) ==> #[trigger] divides(d, gcd_spec(a, b)),
    decreases b,
{
    if b == 0 {
        if a > 0 {
            assert(a % a == 0) by {
                lemma_mod_multiples_basic(1, a as int);
            }
        }
    } else {
        let r = a % b;
        lemma_gcd_is_greatest_common_divisor(b, r);
        lemma_fundamental_div_mod(a as int, b as int);
        let k = a / b;
        assert(a == k * b + r) by (nonlinear_arith)
            requires
                a == b * k + r,
        ;
        let g = gcd_spec(b, r);
        lemma_divides_sum(g, b, r, k);
        assert forall|d: nat| divides(d, a) && divides(d, b) implies #[trigger] divides(d, gcd_spec(a, b)) by {
            lemma_divides_difference(d, b, a, k);
            assert((a - k * b) as nat == r);
        }
    }
}

} // verus!
