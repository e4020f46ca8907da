//! The closed set of failures that the bridge reports.

use vstd::prelude::*;
use vstd::string::StringExecFns;

verus! {

/// Why a bridge operation failed. Every variant carries a message for the user.
#[derive(Debug, Clone)]
pub enum THSError {
    /// The machine's architecture cannot run the native module.
    UnsupportedPlatform(String),
    /// The native module or its call symbol could not be loaded.
    LibraryError(String),
    /// The caller supplied a malformed security code.
    InvalidCode(String),
    /// Any other failure of a call: encoding, decoding, exhausted retries,
    /// a native error code, or a session that is not connected.
    ApiError(String),
}

impl THSError {
    /// The message that the error carries.
    pub open spec fn message(self) -> Seq<char> {
        match self {
            THSError::UnsupportedPlatform(m) => m@,
            THSError::LibraryError(m) => m@,
            THSError::InvalidCode(m) => m@,
            THSError::ApiError(m) => m@,
        }
    }

    /// The message that the error carries.
    pub fn message_text(&self) -> (m: &str)
        ensures
            m@ == self.message(),
    {
        match self {
            THSError::UnsupportedPlatform(m) => m.as_str(),
            THSError::LibraryError(m) => m.as_str(),
            THSError::InvalidCode(m) => m.as_str(),
            THSError::ApiError(m) => m.as_str(),
        }
    }

    /// The error as a line for the user: its kind, then its message.
    pub fn describe(&self) -> (line: String)
        ensures
            line@ == self.kind_text() + ": "@ + self.message(),
    {
        let mut line = match self {
            THSError::UnsupportedPlatform(_) => String::from_str("unsupported platform"),
            THSError::LibraryError(_) => String::from_str("library error"),
            THSError::InvalidCode(_) => String::from_str("invalid code"),
            THSError::ApiError(_) => String::from_str("API error"),
        };
        line.append(": ");
        line.append(self.message_text());
        line
    }

    /// The name of the kind of failure.
    pub open spec fn kind_text(self) -> Seq<char> {
        match self {
            THSError::UnsupportedPlatform(_) => "unsupported platform"@,
            THSError::LibraryError(_) => "library error"@,
            THSError::InvalidCode(_) => "invalid code"@,
            THSError::ApiError(_) => "API error"@,
        }
    }
}

/// The catch-all call failure with the given message.
pub fn api_error(message: String) -> (e: THSError)
    ensures
        e == THSError::ApiError(message),
{
    THSError::ApiError(message)
}

} // verus!
