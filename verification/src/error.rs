//! Error taxonomy for flow and ring-buffer operations.

use vstd::prelude::*;

verus! {

/// Convenience result type using [`Error`] as the error variant.
pub type Result<T> = core::result::Result<T, Error>;

/// Errors that flow and ring-buffer operations can return.
///
/// `Timeout` and `FlowNotFound` on the reader path are recoverable ("no data
/// this cycle"); `Conflict` and an invalid grain are hard errors.
#[derive(Debug, Clone, PartialEq, Eq)]
pub enum Error {
    /// The requested flow does not exist in the domain.
    FlowNotFound,
    /// The requested data has been overwritten by newer data.
    OutOfRangeTooLate,
    /// The requested data has not been written yet.
    OutOfRangeTooEarly,
    /// The flow reader handle is invalid or has been released.
    InvalidFlowReader,
    /// The flow writer handle is invalid or has been released.
    InvalidFlowWriter,
    /// A blocking operation exceeded its time bound.
    Timeout,
    /// An argument was invalid (zero rate, oversized batch, bad index).
    InvalidArg,
    /// A second writer was requested for a flow that already has one.
    Conflict,
    /// A failure described only by a message.
    Other(String),
}

impl Error {
    /// A short human-readable description of the error.
    pub fn message(&self) -> (r: &str)
        ensures
            self is FlowNotFound ==> r@ == "flow not found"@,
            self is OutOfRangeTooLate ==> r@ == "out of range - too late"@,
            self is OutOfRangeTooEarly ==> r@ == "out of range - too early"@,
            self is InvalidFlowReader ==> r@ == "invalid flow reader"@,
            self is InvalidFlowWriter ==> r@ == "invalid flow writer"@,
            self is Timeout ==> r@ == "timeout"@,
            self is InvalidArg ==> r@ == "invalid argument"@,
            self is Conflict ==> r@ == "conflict"@,
            self matches Error::Other(m) ==> r@ == m@,
    {
        match self {
            Error::FlowNotFound => "flow not found",
            Error::OutOfRangeTooLate => "out of range - too late",
            Error::OutOfRangeTooEarly => "out of range - too early",
            Error::InvalidFlowReader => "invalid flow reader",
            Error::InvalidFlowWriter => "invalid flow writer",
            Error::Timeout => "timeout",
            Error::InvalidArg => "invalid argument",
            Error::Conflict => "conflict",
            Error::Other(message) => message.as_str(),
        }
    }
}

} // verus!
