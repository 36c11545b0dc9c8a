//! What an outbound HTTP GET came to.
//!
//! The exchange itself is made elsewhere. This module tells a response that
//! arrived with a non-success status, which is an ordinary result, from an
//! exchange that never completed, which is an error.

use vstd::prelude::*;
use crate::event::LogEvent;

verus! {

/// Whether `status` lies in the success range of HTTP, 200 to 299.
pub open spec fn is_success(status: u16) -> bool {
    200 <= status < 300
}

/// A completed exchange, classified by the status code of the response.
#[derive(Clone, Copy, Debug, PartialEq, Eq, Structural)]
pub enum RequestOutcome {
    /// The response carried this status code, in the success range.
    Success(u16),
    /// The response carried this status code, outside the success range.
    Failure(u16),
}

/// An exchange that did not complete: no response arrived at all.
#[derive(Clone, Debug, PartialEq, Eq)]
pub struct TransportError {
    /// What the transport said went wrong.
    pub detail: String,
}

impl RequestOutcome {
    /// The outcome that a response with `status` stands for.
    pub open spec fn of_status(status: u16) -> RequestOutcome {
        if is_success(status) {
            RequestOutcome::Success(status)
        } else {
            RequestOutcome::Failure(status)
        }
    }

    /// The event by which the outcome is reported.
    pub open spec fn spec_event(self) -> LogEvent {
        match self {
            RequestOutcome::Success(status) => LogEvent::RequestCompleted { status },
            RequestOutcome::Failure(status) => LogEvent::RequestFailed { status },
        }
    }

    /// Classifies the status code of a response.
    pub fn from_status(status: u16) -> (outcome: RequestOutcome)
        ensures
            outcome == RequestOutcome::of_status(status),
    {
        if 200 <= status && status < 300 {
            RequestOutcome::Success(status)
        } else {
            RequestOutcome::Failure(status)
        }
    }

    /// The event by which the outcome is reported: informational for a
    /// success, an error otherwise.
    pub fn event(&self) -> (event: LogEvent)
        ensures
            event == self.spec_event(),
    {
        match self {
            RequestOutcome::Success(status) => LogEvent::RequestCompleted { status: *status },
            RequestOutcome::Failure(status) => LogEvent::RequestFailed { status: *status },
        }
    }
}

/// Turns what the transport handed back into the result of the request:
/// `exchange` is the status code of the response, or the transport's account
/// of why there was none.
pub fn make_request(exchange: Result<u16, String>) -> (result: Result<RequestOutcome, TransportError>)
    ensures
        match exchange {
            Ok(status) => result == Ok::<RequestOutcome, TransportError>(
                RequestOutcome::of_status(status),
            ),
            Err(detail) => result matches Err(error) && error.detail == detail,
        },
{
    match exchange {
        Ok(status) => Ok(RequestOutcome::from_status(status)),
        Err(detail) => Err(TransportError { detail }),
    }
}

} // verus!
