//! How the failures of a synchronisation cycle are classified.

use vstd::prelude::*;

verus! {

/// The classes of failure that a cycle reports.
#[derive(Debug, Clone, Copy, PartialEq, Eq, Structural)]
pub enum ErrorClass {
    /// Safe to try again on the next cycle.
    Transient,
    /// The payload is malformed or does not fit the schema; it is not tried
    /// again by itself.
    DataError,
    /// Storage failed; the cycle of the affected source stops.
    Fatal,
}

/// What went wrong with one item.
#[derive(Debug, Clone, Copy, PartialEq, Eq, Structural)]
pub enum FailureCause {
    /// The request did not get through.
    Network,
    /// Upstream answered with a server error.
    ServerError,
    /// The request ran into its time limit.
    Timeout,
    /// The payload failed validation against the expected shape.
    Validation,
    /// An identifier is not of the form that its grammar wants.
    PatternMismatch,
    /// An archive lacks an entry that the build is expected to have.
    MissingEntry,
    /// Storage could not be read or written.
    Storage,
    /// The task itself broke down instead of returning a failure.
    TaskFault,
}

/// The class of a cause.
pub open spec fn class_of(cause: FailureCause) -> ErrorClass {
    match cause {
        FailureCause::Network => ErrorClass::Transient,
        FailureCause::ServerError => ErrorClass::Transient,
        FailureCause::Timeout => ErrorClass::Transient,
        FailureCause::Validation => ErrorClass::DataError,
        FailureCause::PatternMismatch => ErrorClass::DataError,
        FailureCause::MissingEntry => ErrorClass::DataError,
        FailureCause::Storage => ErrorClass::Fatal,
        FailureCause::TaskFault => ErrorClass::Fatal,
    }
}

/// A cause that stops the dispatch of further items: a failure of storage. A
/// task that broke down is fatal for its item alone.
pub open spec fn halts(cause: FailureCause) -> bool {
    cause == FailureCause::Storage
}

/// The class of `cause`.
pub fn classify(cause: FailureCause) -> (r: ErrorClass)
    ensures
        r == class_of(cause),
{
    match cause {
        FailureCause::Network => ErrorClass::Transient,
        FailureCause::ServerError => ErrorClass::Transient,
        FailureCause::Timeout => ErrorClass::Transient,
        FailureCause::Validation => ErrorClass::DataError,
        FailureCause::PatternMismatch => ErrorClass::DataError,
        FailureCause::MissingEntry => ErrorClass::DataError,
        FailureCause::Storage => ErrorClass::Fatal,
        FailureCause::TaskFault => ErrorClass::Fatal,
    }
}

/// Whether `cause` stops the dispatch of further items.
pub fn stops_dispatch(cause: FailureCause) -> (r: bool)
    ensures
        r == halts(cause),
{
    match cause {
        FailureCause::Storage => true,
        _ => false,
    }
}

} // verus!
