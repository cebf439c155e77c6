//! Small documented functions: addition, greetings, a fetch message and
//! Fibonacci numbers.

use vstd::prelude::*;
use crate::benchmark::{fib, lemma_fib_monotonic};
use crate::text::concat3;

verus! {

/// `a + b`.
pub fn add(a: i32, b: i32) -> (r: i32)
    requires
        i32::MIN <= a + b <= i32::MAX,
    ensures
        r == a + b,
{
    a + b
}

/// "你好，" + name + "！".
pub open spec fn greet_text(name: Seq<char>) -> Seq<char> {
    "你好，"@ + name + "！"@
}

/// Greets a person by a non-empty name.
pub fn greet(name: &str) -> (r: String)
    requires
        name@.len() > 0,
    ensures
        r@ == greet_text(name@),
{
    concat3("你好，", name, "！")
}

/// "来自 " + url + " 的数据".
pub open spec fn fetched_text(url: Seq<char>) -> Seq<char> {
    "来自 "@ + url + " 的数据"@
}

/// The message describing data fetched from `url`.
pub fn fetch_data(url: &str) -> (r: String)
    ensures
        r@ == fetched_text(url@),
{
    concat3("来自 ", url, " 的数据")
}

/// The `n`-th Fibonacci number, computed bottom-up.
pub fn fibonacci(n: u64) -> (r: u64)
    requires
        fib(n as nat) <= u64::MAX,
    ensures
        r == fib(n as nat),
{
    if n == 0 {
        return 0;
    }
    if n == 1 {
        return 1;
    }
    let mut a: u64 = 0;
    let mut b: u64 = 1;
    let mut k: u64 = 1;
    while k < n
        invariant
            1 <= k <= n,
            fib(n as nat) <= u64::MAX,
            a == fib((k - 1) as nat),
            b == fib(k as nat),
        decreases n - k,
    {
        proof {
            lemma_fib_monotonic((k + 1) as nat, n as nat);
        }
        let temp = a + b;
        a = b;
        b = temp;
        k = k + 1;
    }
    b
}

} // verus!
