//! The failures that the ingestion core reports.

use vstd::prelude::*;

verus! {

/// Why a message could not be turned into a value or a row.
#[derive(Debug, Clone, Copy, PartialEq, Eq, Structural)]
pub enum Error {
    /// The text is not a JSON document.
    MalformedJson,
    /// The text is a JSON document, but a required member is missing or has
    /// the wrong kind.
    UnexpectedShape,
    /// A message's timestamp, in seconds since 1970, is beyond what a date
    /// can hold.
    TimestampOutOfRange,
}

impl Error {
    /// A short description for log lines.
    pub fn describe(&self) -> (text: &'static str)
        ensures
            text@ == (match *self {
                Error::MalformedJson => "malformed JSON"@,
                Error::UnexpectedShape => "JSON document of unexpected shape"@,
                Error::TimestampOutOfRange => "timestamp out of range"@,
            }),
    {
        match self {
            Error::MalformedJson => "malformed JSON",
            Error::UnexpectedShape => "JSON document of unexpected shape",
            Error::TimestampOutOfRange => "timestamp out of range",
        }
    }
}

pub type SsuResult<T> = Result<T, Error>;

} // verus!
