//! The decisions inside a few hand-written futures, as state machines: the
//! executor polls, the machine says whether the result is ready.

use vstd::prelude::*;
use crate::text::{concat3, decimal, u64_to_string};

verus! {

/// A future that is ready on its first poll.
pub struct ReadyFuture<T> {
    value: Option<T>,
}

impl<T> ReadyFuture<T> {
    /// The value not yet handed out, if any.
    pub closed spec fn pending_value(&self) -> Option<T> {
        self.value
    }

    /// A future holding `value`.
    pub fn new(value: T) -> (f: Self)
        ensures
            f.pending_value() == Some(value),
    {
        ReadyFuture { value: Some(value) }
    }

    /// Polls the future: hands out the value, which must still be there.
    pub fn poll_ready(&mut self) -> (v: T)
        requires
            old(self).pending_value() is Some,
        ensures
            v == old(self).pending_value()->0,
            final(self).pending_value() is None,
    {
        self.value.take().unwrap()
    }
}

/// The outcome of one poll.
pub enum PollStep<T> {
    Ready(T),
    Pending,
}

/// A future that becomes ready once a duration has elapsed since its first poll.
pub struct DelayFuture {
    pub duration_nanos: u128,
    pub started: bool,
    pub poll_count: u32,
}

/// What a poll of a delay decides: ready, or pending with the time still to wait.
pub enum DelayStep {
    Ready,
    Pending { remaining_nanos: u128 },
}

impl DelayFuture {
    /// A delay of `duration_nanos` nanoseconds, not yet polled.
    pub fn new(duration_nanos: u128) -> (f: Self)
        ensures
            f.duration_nanos == duration_nanos,
            !f.started,
            f.poll_count == 0,
    {
        DelayFuture { duration_nanos, started: false, poll_count: 0 }
    }

    /// Records a poll made `elapsed_nanos` after the first one and decides.
    pub fn poll_step(&mut self, elapsed_nanos: u128) -> (r: DelayStep)
        requires
            old(self).poll_count < u32::MAX,
        ensures
            final(self).poll_count == old(self).poll_count + 1,
            final(self).started,
            final(self).duration_nanos == old(self).duration_nanos,
            elapsed_nanos >= old(self).duration_nanos ==> r is Ready,
            elapsed_nanos < old(self).duration_nanos ==> r == (DelayStep::Pending {
                remaining_nanos: (old(self).duration_nanos - elapsed_nanos) as u128,
            }),
    {
        self.poll_count = self.poll_count + 1;
        self.started = true;
        if elapsed_nanos >= self.duration_nanos {
            DelayStep::Ready
        } else {
            DelayStep::Pending { remaining_nanos: self.duration_nanos - elapsed_nanos }
        }
    }
}

/// A future that stays pending for `count` polls, then completes.
pub struct CountdownFuture {
    pub count: u32,
}

/// The message of a finished countdown.
pub open spec fn countdown_done_text() -> Seq<char> {
    "倒计时完成！"@
}

impl CountdownFuture {
    /// Counts down by one, or completes when the count is zero.
    pub fn poll_step(&mut self) -> (r: PollStep<String>)
        ensures
            old(self).count == 0 ==> (r matches PollStep::Ready(s) && s@ == countdown_done_text())
                && final(self).count == 0,
            old(self).count > 0 ==> r is Pending && final(self).count == old(self).count - 1,
    {
        if self.count == 0 {
            PollStep::Ready(String::from_str("倒计时完成！"))
        } else {
            self.count = self.count - 1;
            PollStep::Pending
        }
    }
}

/// "经过 <n> 次 poll 完成".
pub open spec fn poll_done_text(n: nat) -> Seq<char> {
    "经过 "@ + decimal(n) + " 次 poll 完成"@
}

/// A future built from a closure that completes on its third poll.
pub struct ThirdPollFuture {
    pub count: u32,
}

impl ThirdPollFuture {
    /// Counts the poll; ready from the third on.
    pub fn poll_step(&mut self) -> (r: PollStep<String>)
        requires
            old(self).count < u32::MAX,
        ensures
            final(self).count == old(self).count + 1,
            final(self).count >= 3 ==> (r matches PollStep::Ready(s) && s@ == poll_done_text(final(self).count as nat)),
            final(self).count < 3 ==> r is Pending,
    {
        self.count = self.count + 1;
        if self.count >= 3 {
            let n = u64_to_string(self.count as u64);
            PollStep::Ready(concat3("经过 ", n.as_str(), " 次 poll 完成"))
        } else {
            PollStep::Pending
        }
    }
}

} // verus!
