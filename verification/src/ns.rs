//! Structured errors and the throwing-call adapter.
//!
//! Some native entry points report failure only by raising a runtime
//! exception. In this model such a call returns a [`CallOutcome`], which
//! either carries the call's value or the raised exception as data. The
//! adapter [`try_catch`] converts an outcome-producing call into an ordinary
//! `Result`, so no exception ever crosses the adapter boundary unhandled.

use vstd::prelude::*;

verus! {

/// The name of a native exception, telling the broad class of misuse.
#[derive(Clone, Copy, Debug, PartialEq, Eq, Structural)]
pub enum ExceptionName {
    /// A restricted operation was attempted in the wrong state.
    Generic,
    /// An argument was outside the range the receiver supports.
    InvalidArgument,
}

/// A captured native exception: its name and a human-readable reason.
#[derive(Clone, Debug, PartialEq, Eq)]
pub struct Exception {
    pub name: ExceptionName,
    pub reason: String,
}

impl Exception {
    pub fn new(name: ExceptionName, reason: String) -> (e: Exception)
        ensures
            e.name == name,
            e.reason == reason,
    {
        Exception { name, reason }
    }

    /// The exception's description, for display by a caller.
    pub fn description(&self) -> (r: String)
        ensures
            r@ == self.reason@,
    {
        self.reason.clone()
    }
}

/// A structured native error, as populated through an output error
/// parameter: a domain, a code within that domain, and a description.
#[derive(Clone, Debug, PartialEq, Eq)]
pub struct Error {
    pub domain: String,
    pub code: i64,
    pub description: String,
}

impl Error {
    pub fn new(domain: String, code: i64, description: String) -> (e: Error)
        ensures
            e.domain == domain,
            e.code == code,
            e.description == description,
    {
        Error { domain, code, description }
    }
}

/// What one call into exception-raising native code did: either it returned
/// a value, or it raised an exception.
pub enum CallOutcome<T> {
    Returned(T),
    Raised(Exception),
}

/// Run a call whose only failure channel is a raised native exception, and
/// surface the outcome as a structured result. A raised exception is
/// captured and returned as `Err`; it never propagates past this boundary,
/// and the call's own guarantee carries over to whichever side comes back.
pub fn try_catch<T, F: FnOnce() -> CallOutcome<T>>(f: F) -> (r: Result<T, Exception>)
    requires
        f.requires(()),
    ensures
        match r {
            Ok(v) => f.ensures((), CallOutcome::Returned(v)),
            Err(e) => f.ensures((), CallOutcome::Raised(e)),
        },
{
    match f() {
        CallOutcome::Returned(v) => Ok(v),
        CallOutcome::Raised(e) => Err(e),
    }
}

/// Surface an already-obtained outcome as a structured result: `Ok` exactly
/// for a returned value, `Err` exactly for a raised exception.
pub fn capture<T>(outcome: CallOutcome<T>) -> (r: Result<T, Exception>)
    ensures
        match outcome {
            CallOutcome::Returned(v) => r == Result::<T, Exception>::Ok(v),
            CallOutcome::Raised(e) => r == Result::<T, Exception>::Err(e),
        },
{
    match outcome {
        CallOutcome::Returned(v) => Ok(v),
        CallOutcome::Raised(e) => Err(e),
    }
}

} // verus!
