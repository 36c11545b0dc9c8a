//! Structured events that the library hands to whoever does the logging.

use vstd::prelude::*;

verus! {

/// Severity of an event.
#[derive(Clone, Copy, Debug, PartialEq, Eq, Structural)]
pub enum Level {
    /// Normal progress.
    Info,
    /// A classified failure, or the recovery from a poisoned lock.
    Error,
}

/// Something worth reporting, with the values that give it context.
#[derive(Clone, Copy, Debug, PartialEq, Eq, Structural)]
pub enum LogEvent {
    /// A request was handled under a healthy lock; `counter` is the value stored.
    Handled { counter: i32 },
    /// The lock was found poisoned and access to the counter was reclaimed.
    PoisonRecovered,
    /// A request was handled after such a recovery; `counter` is the value stored.
    HandledAfterPoisoning { counter: i32 },
    /// An HTTP exchange completed with a status in the success range.
    RequestCompleted { status: u16 },
    /// An HTTP exchange completed with a status outside the success range.
    RequestFailed { status: u16 },
}

impl LogEvent {
    /// The severity of each event: recovery from poisoning and failed requests
    /// are errors, everything else is informational.
    pub open spec fn spec_level(self) -> Level {
        match self {
            LogEvent::PoisonRecovered => Level::Error,
            LogEvent::RequestFailed { .. } => Level::Error,
            _ => Level::Info,
        }
    }

    /// The severity at which this event is to be logged.
    pub fn level(&self) -> (level: Level)
        ensures
            level == self.spec_level(),
    {
        match self {
            LogEvent::PoisonRecovered => Level::Error,
            LogEvent::RequestFailed { .. } => Level::Error,
            _ => Level::Info,
        }
    }
}

} // verus!
