//! Error values of the library.

use vstd::prelude::*;
use vstd::string::*;

verus! {

/// Failures of the embedding application as a whole.
#[derive(Debug)]
pub enum AppError {
    InitializeFailed,
    RunningError,
}

impl AppError {
    /// The text that describes the error to a user.
    pub open spec fn spec_message(&self) -> Seq<char> {
        match self {
            AppError::InitializeFailed => "Failed to Initialize"@,
            AppError::RunningError => "Something went wrong when running"@,
        }
    }

    pub fn message(&self) -> (text: String)
        ensures
            text@ == self.spec_message(),
    {
        match self {
            AppError::InitializeFailed => String::from_str("Failed to Initialize"),
            AppError::RunningError => String::from_str("Something went wrong when running"),
        }
    }
}

/// Why a bitmap payload could not be decoded. A fault is not fatal: the
/// capture that caused it is dropped.
#[derive(Clone, Copy, Debug, PartialEq, Eq, Structural)]
pub enum DecodeFault {
    /// The payload is shorter than the bitmap header.
    TruncatedHeader,
    /// The header is complete, but the payload is shorter than the pixel rows
    /// that its dimensions call for.
    TruncatedPixels,
}

} // verus!
