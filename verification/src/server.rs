//! The handle through which concurrently running units reach the shared counter.
//!
//! The counter sits behind a `std::sync::Mutex`. What a unit finds when it takes
//! the lock depends on the units that held it before, so nothing here is stated
//! about the value found. What happens to that value while the lock is held is
//! the business of [`Counter`], and is stated there.

use vstd::prelude::*;
use std::sync::Arc;
use std::sync::LockResult;
use std::sync::Mutex;
use std::sync::MutexGuard;
use std::sync::PoisonError;
use crate::counter::Counter;
use crate::counter::LockOutcome;
use crate::counter::request_events;
use crate::event::LogEvent;

verus! {

/// `std::sync::Mutex`, taken as given. Its content can change whenever the lock
/// is free, so a value of this type tells nothing about what it protects.
#[verifier::external_type_specification]
#[verifier::external_body]
#[verifier::reject_recursive_types(T)]
pub struct ExMutex<T: ?Sized>(Mutex<T>);

/// `std::sync::MutexGuard`, taken as given: exclusive access to what a mutex
/// protects, given up when the guard is dropped.
#[verifier::external_type_specification]
#[verifier::external_body]
#[verifier::reject_recursive_types(T)]
pub struct ExMutexGuard<'a, T: ?Sized + 'a>(MutexGuard<'a, T>);

/// `std::sync::PoisonError`, taken as given: what `lock` returns in place of
/// the guard when an earlier holder panicked. It carries the guard.
#[verifier::external_type_specification]
#[verifier::external_body]
#[verifier::reject_recursive_types(T)]
pub struct ExPoisonError<T>(PoisonError<T>);

/// The counter that a mutex was made around. This is a fact about how the
/// mutex came to be and stays true of it for life; it says nothing of what the
/// mutex protects now.
pub uninterp spec fn created_with(mutex: Mutex<Counter>) -> Counter;

/// `Mutex::new` makes an unlocked mutex around `counter`: the result is a
/// mutex that was created with `counter`.
#[verifier::external_body]
fn new_mutex(counter: Counter) -> (mutex: Mutex<Counter>)
    ensures
        created_with(mutex) == counter,
{
    Mutex::new(counter)
}

/// `Mutex::lock` blocks until the lock is free and returns the guard, inside
/// an error where the mutex is poisoned. Which of the two comes back, and what
/// the guard protects at that moment, is left open. std does not say what
/// happens when the calling thread holds the lock already, only that the call
/// does not return: this crate takes the lock at one place at a time and drops
/// the guard before it returns, and callers that lock `Server::counter`
/// themselves have to let go of their guard first.
pub assume_specification<'a, T: ?Sized>[ Mutex::<T>::lock ](mutex: &'a Mutex<T>) -> (locked:
    LockResult<MutexGuard<'a, T>>);

/// `PoisonError::into_inner` hands over what the error carries: for the error
/// of a `lock`, the guard. Nothing is claimed of it.
pub assume_specification<T>[ PoisonError::<T>::into_inner ](error: PoisonError<T>) -> (inner: T);

/// `Deref` of a guard gives a shared reference to what the mutex protects.
/// Nothing is claimed of the value behind it.
pub assume_specification<'a, 'b, T: ?Sized>[ <MutexGuard<'a, T> as core::ops::Deref>::deref ](
    guard: &'b MutexGuard<'a, T>,
) -> (protected: &'b T);

/// `DerefMut` of a guard gives a mutable reference to what the mutex protects.
/// Nothing is claimed of the value behind it, before or after.
pub assume_specification<'a, 'b, T: ?Sized>[ <MutexGuard<'a, T> as core::ops::DerefMut>::deref_mut ](
    guard: &'b mut MutexGuard<'a, T>,
) -> (protected: &'b mut T);

/// Time that a unit lets pass before it counts its request, in milliseconds.
/// Waiting is left to the driver.
pub const SIMULATED_LATENCY_MS: u64 = 100;

/// A handle on the shared counter. Clones share one counter.
#[derive(Clone)]
pub struct Server {
    /// The counter and the lock that guards it.
    pub counter: Arc<Mutex<Counter>>,
}

impl Server {
    /// The value at which the counter of this server started.
    pub open spec fn started_at(self) -> i32 {
        created_with(*self.counter)@
    }

    /// A server with a counter of its own, which starts at zero.
    pub fn new() -> (server: Server)
        ensures
            server.started_at() == 0,
    {
        Server { counter: Arc::new(new_mutex(Counter::new())) }
    }

    /// Handles one request: takes the lock, reclaiming it where an earlier
    /// holder left it poisoned, and counts the request with
    /// [`Counter::increment`] while holding it. Returns the events to report,
    /// or `None` where the counter had no room left and was not touched.
    ///
    /// The value reported is one more than the value found under the lock, so
    /// it lies above `i32::MIN`; no more can be said of it here, since other
    /// holders of the handle decide what is found. Must not be called by a
    /// thread that holds the lock.
    pub fn handle_request(&self) -> (events: Option<Vec<LogEvent>>)
        ensures
            events matches Some(list) ==> exists|lock: LockOutcome, counter: i32|
                i32::MIN < counter && list@ == #[trigger] request_events(lock, counter),
    {
        match self.counter.lock() {
            Ok(mut guard) => guard.increment(LockOutcome::Acquired),
            Err(poisoned) => {
                let mut guard = poisoned.into_inner();
                guard.increment(LockOutcome::PoisonedButRecoverable)
            },
        }
    }

    /// The value stored at the moment of the call, read under the lock, poisoned
    /// or not. It is stable once every unit has ended. Must not be called by a
    /// thread that holds the lock.
    pub fn value(&self) -> (value: i32) {
        match self.counter.lock() {
            Ok(guard) => guard.value(),
            Err(poisoned) => poisoned.into_inner().value(),
        }
    }
}

} // verus!
