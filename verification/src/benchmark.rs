//! Sorting, Fibonacci numbers, primality and string building, each with a
//! full functional contract.

use vstd::prelude::*;
use vstd::arithmetic::mul::*;
use crate::text::{decimal, join, join_seq, u64_to_string, views};
use crate::primes::{divides, is_prime_spec, prime_count, lemma_divisor_factor, lemma_prime_by_trial};

verus! {

broadcast use vstd::seq_lib::group_to_multiset_ensures;

/// Whether `s` is in non-decreasing order.
pub open spec fn sorted(s: Seq<i32>) -> bool {
    forall|i: int, j: int| 0 <= i <= j < s.len() ==> s[i] <= s[j]
}

/// Swapping two positions keeps the multiset of elements.
pub proof fn lemma_swap_multiset(s: Seq<i32>, i: int, j: int)
    requires
        0 <= i < s.len(),
        0 <= j < s.len(),
    ensures
        s.update(i, s[j]).update(j, s[i]).to_multiset() == s.to_multiset(),
{
    broadcast use vstd::seq_lib::to_multiset_update;
    broadcast use vstd::multiset::group_multiset_axioms;
    let t = s.update(i, s[j]);
    assert(t[j] == s[j]) by {
        if i == j {
        }
    }
    assert(t.update(j, s[i]).to_multiset() =~= s.to_multiset());
}

/// Bubble sort: repeatedly swaps adjacent out-of-order elements.
pub fn bubble_sort(arr: &mut [i32])
    ensures
        sorted(final(arr)@),
        final(arr)@.to_multiset() == old(arr)@.to_multiset(),
{
    let n = arr.len();
    let ghost orig = arr@;
    let mut i: usize = 0;
    while i < n
        invariant
            n == arr@.len(),
            i <= n,
            arr@.to_multiset() == orig.to_multiset(),
            // the last `i` elements are in final position
            forall|a: int, b: int| n - i <= a <= b < n ==> arr@[a] <= arr@[b],
            forall|a: int, b: int| 0 <= a < n - i <= b < n ==> arr@[a] <= arr@[b],
        decreases n - i,
    {
        let mut j: usize = 0;
        while j < n - 1 - i
            invariant
                n == arr@.len(),
                i < n,
                j <= n - 1 - i,
                arr@.to_multiset() == orig.to_multiset(),
                forall|a: int, b: int| n - i <= a <= b < n ==> arr@[a] <= arr@[b],
                forall|a: int, b: int| 0 <= a < n - i <= b < n ==> arr@[a] <= arr@[b],
                forall|a: int| 0 <= a <= j ==> arr@[a] <= arr@[j as int],
            decreases n - 1 - i - j,
        {
            if arr[j] > arr[j + 1] {
                let ghost before = arr@;
                let x = arr[j];
                let y = arr[j + 1];
                arr[j] = y;
                arr[j + 1] = x;
                proof {
                    lemma_swap_multiset(before, j as int, j + 1);
                    assert(arr@ == before.update(j as int, before[j + 1]).update(j + 1, before[j as int]));
                }
            }
            j = j + 1;
        }
        i = i + 1;
    }
}

/// Insertion sort: grows a sorted prefix one element at a time.
pub fn insertion_sort(arr: &mut [i32])
    ensures
        sorted(final(arr)@),
        final(arr)@.to_multiset() == old(arr)@.to_multiset(),
{
    let n = arr.len();
    let ghost orig = arr@;
    if n == 0 {
        return;
    }
    let mut i: usize = 1;
    while i < n
        invariant
            n == arr@.len(),
            1 <= i <= n,
            arr@.to_multiset() == orig.to_multiset(),
            forall|a: int, b: int| 0 <= a <= b < i ==> arr@[a] <= arr@[b],
        decreases n - i,
    {
        let key = arr[i];
        let mut j = i;
        let ghost start = arr@;
        while j > 0 && arr[j - 1] > key
            invariant
                n == arr@.len(),
                0 <= j <= i < n,
                arr@.update(j as int, key).to_multiset() == orig.to_multiset(),
                forall|k: int| i < k < n ==> arr@[k] == start[k],
                forall|a: int, b: int| 0 <= a <= b < j ==> arr@[a] <= arr@[b],
                forall|a: int, b: int| j < a <= b <= i ==> arr@[a] <= arr@[b],
                forall|a: int, b: int| 0 <= a < j && j < b <= i ==> arr@[a] <= arr@[b],
                forall|b: int| j < b <= i ==> key < arr@[b],
            decreases j,
        {
            let ghost before = arr@;
            let prev = arr[j - 1];
            arr[j] = prev;
            proof {
                let g0 = before.update(j as int, key);
                lemma_swap_multiset(g0, j - 1, j as int);
                assert(arr@.update(j - 1, key) =~= g0.update(j - 1, g0[j as int]).update(j as int, g0[j - 1]));
            }
            j = j - 1;
        }
        arr[j] = key;
        i = i + 1;
    }
}

/// The Fibonacci numbers: 0, 1, 1, 2, 3, 5, ...
pub open spec fn fib(n: nat) -> nat
    decreases n,
{
    if n == 0 {
        0
    } else if n == 1 {
        1
    } else {
        fib((n - 2) as nat) + fib((n - 1) as nat)
    }
}

/// `fib` never decreases.
pub proof fn lemma_fib_monotonic(i: nat, j: nat)
    requires
        i <= j,
    ensures
        fib(i) <= fib(j),
    decreases j - i,
{
    if j < 2 {
    } else if i == j {
    } else if i == j - 1 {
    } else {
        lemma_fib_monotonic(i, (j - 1) as nat);
    }
}

/// The `n`-th Fibonacci number, computed iteratively.
/// Defined exactly when the result fits in a `u64`; beyond that the additions overflow.
pub fn fibonacci_iterative(n: u64) -> (r: u64)
    requires
        fib(n as nat) <= u64::MAX,
    ensures
        r == fib(n as nat),
{
    if n <= 1 {
        return n;
    }
    let mut a: u64 = 0;
    let mut b: u64 = 1;
    let mut k: u64 = 1;
    while k < n
        invariant
            1 <= k <= n,
            fib(n as nat) <= u64::MAX,
            a == fib((k - 1) as nat),
            b == fib(k as nat),
        decreases n - k,
    {
        proof {
            lemma_fib_monotonic((k + 1) as nat, n as nat);
        }
        let temp = a + b;
        a = b;
        b = temp;
        k = k + 1;
    }
    b
}

/// The `n`-th Fibonacci number, computed by the naive recursion.
pub fn fibonacci_recursive(n: u64) -> (r: u64)
    requires
        fib(n as nat) <= u64::MAX,
    ensures
        r == fib(n as nat),
    decreases n,
{
    if n <= 1 {
        return n;
    }
    proof {
        lemma_fib_monotonic((n - 1) as nat, n as nat);
        lemma_fib_monotonic((n - 2) as nat, n as nat);
    }
    fibonacci_recursive(n - 1) + fibonacci_recursive(n - 2)
}

/// The smallest `n` whose trial division would overflow `u32` arithmetic:
/// squaring the odd candidate in `u32` overflows once it passes 65535, and
/// the candidate only gets there for primes at least `65535 * 65535`.
pub open spec fn trial_square_limit() -> nat {
    4294836225
}

/// Trial division by 2 and odd numbers up to the square root.
pub fn is_prime(n: u32) -> (r: bool)
    requires
        n < trial_square_limit() || !is_prime_spec(n as nat),
    ensures
        r == is_prime_spec(n as nat),
{
    if n < 2 {
        return false;
    }
    if n == 2 {
        assert forall|d: nat| 2 <= d < 2 implies !#[trigger] divides(d, 2) by {}
        return true;
    }
    if n % 2 == 0 {
        assert(divides(2, n as nat));
        return false;
    }
    let mut i: u64 = 3;
    loop
        invariant
            3 <= i,
            i % 2 == 1,
            n % 2 == 1,
            n >= 3,
            i <= 65537,
            forall|m: nat| 2 <= m < i ==> !#[trigger] divides(m, n as nat),
        ensures
            i * i > n,
            forall|m: nat| 2 <= m < i ==> !#[trigger] divides(m, n as nat),
        decreases n as u64 + 2 - i,
    {
        assert(i * i <= 65537 * 65537) by (nonlinear_arith)
            requires
                i <= 65537,
        ;
        if i * i > n as u64 {
            break;
        }
        if n as u64 % i == 0 {
            assert(divides(i as nat, n as nat));
            assert(i < n) by (nonlinear_arith)
                requires
                    i * i <= n,
                    i >= 3,
            ;
            return false;
        }
        assert forall|m: nat| 2 <= m < i + 2 implies !#[trigger] divides(m, n as nat) by {
            if m == i + 1 {
                if divides(m, n as nat) {
                    lemma_divisor_factor(m, n as nat, 2);
                }
            }
        }
        assert(i + 2 <= n as u64 + 2 && i <= 65535) by (nonlinear_arith)
            requires
                i * i <= n,
                n <= 4294967295,
                i >= 3,
        ;
        i = i + 2;
    }
    proof {
        lemma_prime_by_trial(n as nat, i as nat);
    }
    true
}

/// Counts the primes in `2..=limit`.
pub fn count_primes(limit: u32) -> (r: u32)
    requires
        forall|k: nat| 2 <= k <= limit ==> k < trial_square_limit() || !is_prime_spec(k),
    ensures
        r == prime_count(limit as nat),
{
    if limit < 2 {
        return 0;
    }
    let mut count: u32 = 0;
    let mut n: u64 = 2;
    while n <= limit as u64
        invariant
            2 <= n <= limit as u64 + 1,
            count == prime_count((n - 1) as nat),
            count <= n - 1,
            forall|k: nat| 2 <= k <= limit ==> k < trial_square_limit() || !is_prime_spec(k),
        decreases limit as u64 + 1 - n,
    {
        if is_prime(n as u32) {
            count = count + 1;
        }
        n = n + 1;
    }
    count
}

/// The concatenation of the decimal renderings of `0, 1, ..., n - 1`.
pub open spec fn concat_decimals(n: nat) -> Seq<char>
    decreases n,
{
    if n == 0 {
        Seq::empty()
    } else {
        concat_decimals((n - 1) as nat) + decimal((n - 1) as nat)
    }
}

/// Builds the concatenation by appending each number in turn.
pub fn string_concat_push(n: usize) -> (s: String)
    ensures
        s@ == concat_decimals(n as nat),
{
    let mut result = String::new();
    let mut i: usize = 0;
    while i < n
        invariant
            i <= n,
            result@ == concat_decimals(i as nat),
        decreases n - i,
    {
        let d = u64_to_string(i as u64);
        result.append(d.as_str());
        i = i + 1;
    }
    result
}

/// Joining the decimals of `0..k` with the empty separator is their concatenation.
pub proof fn lemma_join_decimals(parts: Seq<Seq<char>>, k: nat)
    requires
        k <= parts.len(),
        forall|j: int| 0 <= j < parts.len() ==> #[trigger] parts[j] == decimal(j as nat),
    ensures
        join_seq(parts.subrange(0, k as int), Seq::empty()) == concat_decimals(k),
    decreases k,
{
    let sub = parts.subrange(0, k as int);
    if k == 0 {
    } else if k == 1 {
        assert(sub[0] == decimal(0));
        assert(concat_decimals(0) == Seq::<char>::empty());
        assert(concat_decimals(1) =~= Seq::<char>::empty() + decimal(0));
    } else {
        lemma_join_decimals(parts, (k - 1) as nat);
        assert(sub.drop_last() =~= parts.subrange(0, k - 1));
        assert(join_seq(sub, Seq::empty()) =~= join_seq(sub.drop_last(), Seq::empty()) + Seq::empty() + sub.last());
    }
}

/// Builds the list of decimal renderings, then joins it with the empty separator.
pub fn string_concat_join(n: usize) -> (s: String)
    ensures
        s@ == concat_decimals(n as nat),
{
    let mut parts: Vec<String> = Vec::new();
    let mut i: usize = 0;
    while i < n
        invariant
            i <= n,
            parts.len() == i,
            forall|j: int| 0 <= j < i ==> #[trigger] parts@[j]@ == decimal(j as nat),
        decreases n - i,
    {
        parts.push(u64_to_string(i as u64));
        i = i + 1;
    }
    let s = join(&parts, "");
    proof {
        let ps = views(parts@);
        assert forall|j: int| 0 <= j < ps.len() implies #[trigger] ps[j] == decimal(j as nat) by {
            assert(ps[j] == parts@[j]@);
        }
        lemma_join_decimals(ps, n as nat);
        assert(ps.subrange(0, n as int) =~= ps);
        assert(""@ == Seq::<char>::empty()) by {
            reveal_strlit("");
        }
    }
    s
}

} // verus!
