//! The errors every storage operation reports, and how each is answered
//! over HTTP.
use vstd::prelude::*;
use vstd::string::StringExecFns;

verus! {

/// The three kinds of failure that every storage backend reports.
#[derive(Debug, PartialEq, Eq)]
pub enum ApiError {
    /// An unexpected I/O or parse failure.
    Internal,
    /// The identifier does not name a stored file.
    NotFound,
    /// Malformed client input; the message is passed through verbatim.
    BadRequest(String),
}

/// The HTTP status code that answers an error.
pub open spec fn status_of(e: ApiError) -> u16 {
    match e {
        ApiError::Internal => 500,
        ApiError::NotFound => 404,
        ApiError::BadRequest(_) => 400,
    }
}

/// The text of an error: its message for a bad request, else a fixed
/// description.
pub open spec fn text_of(e: ApiError) -> Seq<char> {
    match e {
        ApiError::Internal => "Internal server error"@,
        ApiError::NotFound => "File not found"@,
        ApiError::BadRequest(m) => m@,
    }
}

impl ApiError {
    /// The HTTP status code of the response to this error.
    pub fn status_code(&self) -> (r: u16)
        ensures
            r == status_of(*self),
    {
        match self {
            ApiError::Internal => 500,
            ApiError::NotFound => 404,
            ApiError::BadRequest(_) => 400,
        }
    }

    /// The body of the response to this error.
    pub fn message(&self) -> (r: String)
        ensures
            r@ == text_of(*self),
    {
        match self {
            ApiError::Internal => String::from_str("Internal server error"),
            ApiError::NotFound => String::from_str("File not found"),
            ApiError::BadRequest(m) => m.clone(),
        }
    }
}

} // verus!
