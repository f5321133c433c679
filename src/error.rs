use vstd::prelude::*;
use crate::time::Seconds;

verus! {

/// Why a segment's time range was rejected.
#[derive(Clone, Copy, Debug, PartialEq, Eq, Structural)]
pub enum BadRange {
    /// The start lies after the end.
    StartAfterEnd { start: Seconds, end: Seconds },
    /// The start lies before zero.
    NegativeStart { start: Seconds },
    /// The end lies before zero.
    NegativeEnd { end: Seconds },
}

/// Which closed lookup table a string was not found in.
#[derive(Clone, Copy, Debug, PartialEq, Eq, Structural)]
pub enum ValueKind {
    Category,
    ActionType,
}

/// Every way a segment lookup can fail.
#[derive(Clone, Debug, PartialEq, Eq)]
pub enum SponsorBlockError {
    /// The server answered with a 4xx status; 404 means no segments exist.
    HttpClient(u16),
    /// The server answered with a 5xx status.
    HttpServer(u16),
    /// The server answered with another status that is not a success.
    HttpUnknown(u16),
    /// The exchange itself failed before a status came back.
    Transport(String),
    /// The body did not have the expected JSON shape.
    Deserialization(String),
    /// No returned hash bucket belongs to the requested video.
    NoMatchingVideoHash,
    /// A segment's time range failed validation.
    BadData(BadRange),
    /// A category or action type that the lookup tables do not know.
    UnknownValue { kind: ValueKind, value: String },
}

/// The outcome for an HTTP status: success (2xx), client error (4xx), server
/// error (5xx), or another status that is not a success.
pub open spec fn status_outcome(status: u16) -> Result<(), SponsorBlockError> {
    if 200 <= status && status < 300 {
        Ok(())
    } else if 400 <= status && status < 500 {
        Err(SponsorBlockError::HttpClient(status))
    } else if 500 <= status && status < 600 {
        Err(SponsorBlockError::HttpServer(status))
    } else {
        Err(SponsorBlockError::HttpUnknown(status))
    }
}

/// Classifies an HTTP status: success, client error, server error, or
/// anything else that is not a success.
pub fn check_status(status: u16) -> (r: Result<(), SponsorBlockError>)
    ensures
        r == status_outcome(status),
{
    if 200 <= status && status < 300 {
        Ok(())
    } else if 400 <= status && status < 500 {
        Err(SponsorBlockError::HttpClient(status))
    } else if 500 <= status && status < 600 {
        Err(SponsorBlockError::HttpServer(status))
    } else {
        Err(SponsorBlockError::HttpUnknown(status))
    }
}

} // verus!
