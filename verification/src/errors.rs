//! The error that is handed to the callback.

use vstd::prelude::*;

verus! {

/// Outcome of a call as the caller gets to see it.
#[derive(Debug, PartialEq, Eq)]
pub enum Error {
    /// Everything went well.
    NoError,
    /// No runtime has been started.
    MissingRuntimeError,
    /// The runtime could not be used; the text says why.
    RuntimeError(String),
    /// A string of the request is no valid UTF-8.
    InvalidStringError,
    /// A date of the request does not exist.
    InvalidDateError,
    /// A time of the request does not exist.
    InvalidTimeError,
    /// A date with time of the request does not exist.
    InvalidDateTimeError,
    /// The database reported an error; the text is its message.
    DatabaseError(String),
    /// The stream has been read to its end.
    NoRowsLeftInStream,
}

impl Error {
    /// One of the errors by which a request is refused before it reaches the database.
    pub open spec fn refuses_input(self) -> bool {
        ||| self is InvalidStringError
        ||| self is InvalidDateError
        ||| self is InvalidTimeError
        ||| self is InvalidDateTimeError
    }
}

} // verus!
