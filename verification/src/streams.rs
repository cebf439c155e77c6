//! The decisions inside a few streams, as step functions: counters, an
//! interval ticker, a Fibonacci generator, countdown messages and pages of
//! items.

use vstd::prelude::*;
use crate::benchmark::{fib, lemma_fib_monotonic};
use crate::text::{concat2, decimal, u64_to_string};

verus! {

/// Yields `1, 2, ..., max`, then ends.
pub struct CounterStream {
    pub current: u32,
    pub max: u32,
}

impl CounterStream {
    /// A counter that will yield `1..=max`.
    pub fn new(max: u32) -> (s: Self)
        ensures
            s.current == 0,
            s.max == max,
    {
        CounterStream { current: 0, max }
    }

    /// The next value, or `None` once `max` has been yielded.
    pub fn poll_next(&mut self) -> (r: Option<u32>)
        ensures
            final(self).max == old(self).max,
            old(self).current < old(self).max ==> r == Some((old(self).current + 1) as u32)
                && final(self).current == old(self).current + 1,
            old(self).current >= old(self).max ==> r is None && final(self).current == old(self).current,
    {
        if self.current < self.max {
            self.current = self.current + 1;
            Some(self.current)
        } else {
            None
        }
    }
}

/// Yields `1..=max`, with a pause of `interval_ms` between consecutive values.
pub struct IntervalStream {
    pub interval_ms: u64,
    pub current: u32,
    pub max: u32,
}

/// One step of the interval ticker: a value (or the end), and whether a pause
/// must pass before the next step.
pub struct IntervalStep {
    pub value: Option<u32>,
    pub pause_next: bool,
}

impl IntervalStream {
    /// A ticker yielding `1..=max`.
    pub fn new(interval_ms: u64, max: u32) -> (s: Self)
        ensures
            s.interval_ms == interval_ms,
            s.current == 0,
            s.max == max,
    {
        IntervalStream { interval_ms, current: 0, max }
    }

    /// Called once any pause has passed: the next value, and whether to pause after it.
    pub fn step(&mut self) -> (r: IntervalStep)
        ensures
            final(self).max == old(self).max,
            final(self).interval_ms == old(self).interval_ms,
            old(self).current < old(self).max ==> r.value == Some((old(self).current + 1) as u32)
                && final(self).current == old(self).current + 1
                && r.pause_next == (final(self).current < final(self).max),
            old(self).current >= old(self).max ==> r.value is None && !r.pause_next
                && final(self).current == old(self).current,
    {
        if self.current < self.max {
            self.current = self.current + 1;
            IntervalStep { value: Some(self.current), pause_next: self.current < self.max }
        } else {
            IntervalStep { value: None, pause_next: false }
        }
    }
}

/// Produces Fibonacci numbers one at a time, starting from 0.
pub struct FibonacciGenerator {
    a: u64,
    b: u64,
    index: Ghost<nat>,
}

impl FibonacciGenerator {
    /// How many numbers have been passed so far.
    pub closed spec fn position(&self) -> nat {
        self.index@
    }

    /// The generator is in step with the sequence.
    pub closed spec fn wf(&self) -> bool {
        self.a == fib(self.index@) && self.b == fib(self.index@ + 1)
    }

    /// A generator at the start of the sequence.
    pub fn new() -> (g: Self)
        ensures
            g.wf(),
            g.position() == 0,
    {
        FibonacciGenerator { a: 0, b: 1, index: Ghost(0) }
    }

    /// The number at the current position.
    pub fn current(&self) -> (r: u64)
        requires
            self.wf(),
        ensures
            r == fib(self.position()),
    {
        self.a
    }

    /// Moves to the next position; the number after it must fit in a `u64`.
    pub fn advance(&mut self)
        requires
            old(self).wf(),
            fib(old(self).position() + 2) <= u64::MAX,
        ensures
            final(self).wf(),
            final(self).position() == old(self).position() + 1,
    {
        let next = self.a + self.b;
        self.a = self.b;
        self.b = next;
        self.index = Ghost(self.index@ + 1);
    }
}

/// The first `count` Fibonacci numbers, stepping the generator as a stream does.
pub fn fibonacci_values(count: usize) -> (r: Vec<u64>)
    requires
        fib(count as nat + 1) <= u64::MAX,
    ensures
        r@.len() == count,
        forall|i: int| 0 <= i < count ==> r@[i] == fib(i as nat),
{
    let mut g = FibonacciGenerator::new();
    let mut r: Vec<u64> = Vec::new();
    let mut i: usize = 0;
    while i < count
        invariant
            i <= count,
            g.wf(),
            g.position() == i,
            r@.len() == i,
            fib(count as nat + 1) <= u64::MAX,
            forall|j: int| 0 <= j < i ==> r@[j] == fib(j as nat),
        decreases count - i,
    {
        r.push(g.current());
        proof {
            lemma_fib_monotonic(i as nat + 2, count as nat + 1);
        }
        g.advance();
        i = i + 1;
    }
    r
}

/// "🚀 发射！" at zero, else "倒计时: <i>".
pub open spec fn countdown_text(i: nat) -> Seq<char> {
    if i == 0 {
        "🚀 发射！"@
    } else {
        "倒计时: "@ + decimal(i)
    }
}

/// The message announced at count `i`.
pub fn countdown_message(i: u32) -> (r: String)
    ensures
        r@ == countdown_text(i as nat),
{
    if i == 0 {
        String::from_str("🚀 发射！")
    } else {
        let n = u64_to_string(i as u64);
        concat2("倒计时: ", n.as_str())
    }
}

/// The messages of a countdown from `from` down to zero.
pub fn countdown_messages(from: u32) -> (r: Vec<String>)
    ensures
        r@.len() == from + 1,
        forall|k: int| 0 <= k <= from ==> (#[trigger] r@[k])@ == countdown_text((from - k) as nat),
{
    let mut r: Vec<String> = Vec::new();
    let mut j: u64 = 0;
    while j <= from as u64
        invariant
            j <= from + 1,
            r@.len() == j,
            forall|k: int| 0 <= k < j ==> (#[trigger] r@[k])@ == countdown_text((from - k) as nat),
        decreases from + 1 - j,
    {
        r.push(countdown_message((from as u64 - j) as u32));
        j = j + 1;
    }
    r
}

/// The number of pages of `page_size` items needed for `total` items.
pub open spec fn page_count(total: nat, page_size: nat) -> nat {
    ((total + page_size - 1) / page_size as int) as nat
}

/// The number of pages of `page_size` items needed for `total` items.
pub fn total_pages(total: usize, page_size: usize) -> (r: usize)
    requires
        page_size > 0,
        total + page_size <= usize::MAX,
    ensures
        r == page_count(total as nat, page_size as nat),
{
    (total + page_size - 1) / page_size
}

/// The first item on page `page`.
pub open spec fn page_start(page: nat, page_size: nat) -> nat {
    page * page_size
}

/// One past the last item on page `page`: the next page's start, or `total`.
pub open spec fn page_end(page: nat, page_size: nat, total: nat) -> nat {
    if page_start(page, page_size) + page_size < total {
        page_start(page, page_size) + page_size
    } else {
        total
    }
}

/// Paging covers every item exactly where expected: item `i` falls on page
/// `i / page_size`, which is one of the `page_count` pages, inside that page's range.
pub proof fn lemma_pages_cover_items(total: nat, page_size: nat, i: nat)
    requires
        page_size > 0,
        i < total,
    ensures
        i / page_size < page_count(total, page_size),
        page_start(i / page_size, page_size) <= i < page_end(i / page_size, page_size, total),
{
    let p = i / page_size;
    assert(p * page_size <= i < p * page_size + page_size) by (nonlinear_arith)
        requires
            page_size > 0,
            p == i / page_size,
    ;
    assert(p < (total + page_size - 1) / page_size as int) by (nonlinear_arith)
        requires
            page_size > 0,
            p * page_size <= i,
            i < total,
    ;
}

/// "item_<i>".
pub open spec fn item_name(i: nat) -> Seq<char> {
    "item_"@ + decimal(i)
}

/// The names of the items on page `page` (counting from 0).
pub fn page_items(page: usize, page_size: usize, total: usize) -> (r: Vec<String>)
    requires
        page * page_size + page_size <= usize::MAX,
    ensures
        ({
            let start = page_start(page as nat, page_size as nat);
            let end = page_end(page as nat, page_size as nat, total as nat);
            &&& r@.len() == if end > start { end - start } else { 0 }
            &&& forall|k: int| 0 <= k < r@.len() ==> (#[trigger] r@[k])@ == item_name((start + k) as nat)
        }),
{
    let start = page * page_size;
    let end = if start + page_size < total { start + page_size } else { total };
    let mut r: Vec<String> = Vec::new();
    let mut i = start;
    while i < end
        invariant
            start == page * page_size,
            end == (if start + page_size < total { start + page_size } else { total as int }),
            start <= i,
            i <= end || end < start,
            end < start ==> i == start,
            end <= start + page_size,
            r@.len() == i - start,
            forall|k: int| 0 <= k < r@.len() ==> (#[trigger] r@[k])@ == item_name((start + k) as nat),
        decreases end - i,
    {
        let n = u64_to_string(i as u64);
        r.push(concat2("item_", n.as_str()));
        i = i + 1;
    }
    r
}

} // verus!
