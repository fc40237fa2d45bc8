//! The structured error a caller receives in place of a result.

use vstd::prelude::*;

verus! {

/// Category of a request failure. An invalid intent (a structurally
/// required option was absent) is a client-side error; everything the
/// backend reports, and every row the marshaling layer cannot type, is a
/// driver error. Empty result sets are not errors.
#[derive(Clone, Copy, Debug, PartialEq, Eq, Structural)]
pub enum ErrorKind {
    /// A structurally required option was absent from the intent.
    MissingRequiredOption,
    /// The backend reported an execution failure, or handed back rows
    /// that cannot be marshaled.
    DriverError,
}

/// A structured request error: callers always receive either a
/// fully-formed result or exactly one of these.
#[derive(Debug)]
pub struct AppError {
    pub kind: ErrorKind,
    pub message: String,
}

impl AppError {
    /// The client error reported when a required option is missing.
    pub fn missing_option(message: &str) -> (e: AppError)
        ensures
            e.kind == ErrorKind::MissingRequiredOption,
            e.message@ == message@,
    {
        AppError { kind: ErrorKind::MissingRequiredOption, message: message.to_owned() }
    }

    /// The server error wrapping a backend or marshaling failure.
    pub fn driver(message: &str) -> (e: AppError)
        ensures
            e.kind == ErrorKind::DriverError,
            e.message@ == message@,
    {
        AppError { kind: ErrorKind::DriverError, message: message.to_owned() }
    }
}

} // verus!
