//! The counter that the lock protects, seen by whoever holds the lock.

use vstd::prelude::*;
use crate::event::LogEvent;

verus! {

/// How exclusive access to the counter was obtained.
#[derive(Clone, Copy, Debug, PartialEq, Eq, Structural)]
pub enum LockOutcome {
    /// The lock was healthy.
    Acquired,
    /// An earlier holder terminated abnormally; access was reclaimed anyway.
    PoisonedButRecoverable,
}

/// The events that one handled request gives rise to, in the order in which they
/// are reported. `counter` is the value stored by that request.
pub open spec fn request_events(lock: LockOutcome, counter: i32) -> Seq<LogEvent> {
    match lock {
        LockOutcome::Acquired => seq![LogEvent::Handled { counter }],
        LockOutcome::PoisonedButRecoverable => seq![
            LogEvent::PoisonRecovered,
            LogEvent::HandledAfterPoisoning { counter },
        ],
    }
}

/// The value that follows `value` when one more request is counted: one more,
/// however the lock was found, except that a counter at `i32::MAX` stays there.
pub open spec fn counted(value: int, lock: LockOutcome) -> int {
    if value < i32::MAX {
        value + 1
    } else {
        value
    }
}

/// The value that follows `value` when one request is counted for each entry of
/// `locks`, in that order.
pub open spec fn counted_all(value: int, locks: Seq<LockOutcome>) -> int
    decreases locks.len(),
{
    if locks.len() == 0 {
        value
    } else {
        counted(counted_all(value, locks.drop_last()), locks.last())
    }
}

/// Every request counts exactly once: as long as the result fits the counter,
/// `n` requests raise it by `n`, in whatever order they were served and however
/// many of them found the lock poisoned. From zero, the counter reads `n`.
pub proof fn lemma_every_request_counts(value: int, locks: Seq<LockOutcome>)
    requires
        value + locks.len() <= i32::MAX,
    ensures
        counted_all(value, locks) == value + locks.len(),
    decreases locks.len(),
{
    if locks.len() > 0 {
        lemma_every_request_counts(value, locks.drop_last());
    }
}

/// Number of requests handled so far.
#[derive(Clone, Copy, Debug, PartialEq, Eq, Structural)]
pub struct Counter {
    value: i32,
}

impl View for Counter {
    type V = i32;

    closed spec fn view(&self) -> i32 {
        self.value
    }
}

impl Counter {
    /// A counter at zero.
    pub fn new() -> (counter: Counter)
        ensures
            counter@ == 0,
    {
        Counter { value: 0 }
    }

    /// A counter that has `value` requests behind it.
    pub fn starting_at(value: i32) -> (counter: Counter)
        ensures
            counter@ == value,
    {
        Counter { value }
    }

    /// The stored value.
    pub fn value(&self) -> (value: i32)
        ensures
            value == self@,
    {
        self.value
    }

    /// Counts one request. The caller holds the lock, and says in `lock` how it
    /// came by it: a poisoned lock changes what is reported, not what is
    /// counted. Returns `None`, and leaves the counter alone, only where the
    /// value cannot grow any more.
    pub fn increment(&mut self, lock: LockOutcome) -> (events: Option<Vec<LogEvent>>)
        ensures
            final(self)@ == counted(old(self)@ as int, lock),
            events is Some <==> old(self)@ < i32::MAX,
            events matches Some(list) ==> list@ == request_events(lock, final(self)@),
    {
        if self.value == i32::MAX {
            return None;
        }
        self.value = self.value + 1;
        let counter: i32 = self.value;
        let list = match lock {
            LockOutcome::Acquired => vec![LogEvent::Handled { counter }],
            LockOutcome::PoisonedButRecoverable => vec![
                LogEvent::PoisonRecovered,
                LogEvent::HandledAfterPoisoning { counter },
            ],
        };
        Some(list)
    }
}

} // verus!
