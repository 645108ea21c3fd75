//! What can go wrong between this client and the service.

use vstd::prelude::*;

verus! {

/// HTTP status of a resource that does not exist.
pub const NOT_FOUND: u16 = 404;

/// Strike rs error
#[derive(Debug, Clone, PartialEq, Eq)]
pub enum Error {
    /// Not Found
    NotFound,
    /// Invalid Url
    InvalidUrl,
    /// A failure of the HTTP client: the status of the response that caused
    /// it, if a response did, and the client's own words for it
    ReqwestError { status: Option<u16>, message: String },
    /// A failure of the JSON codec, in its own words
    SerdeError { message: String },
}

/// The text that describes `error`.
pub open spec fn message_of(error: Error) -> Seq<char> {
    match error {
        Error::NotFound => "Not found"@,
        Error::InvalidUrl => "Invalid Url"@,
        Error::ReqwestError { status, message } => message@,
        Error::SerdeError { message } => message@,
    }
}

/// What a failed lookup comes to: a failure of the HTTP client caused by a
/// response with the status of a missing resource means that the resource
/// does not exist; any other failure is what it is.
pub open spec fn lookup_failure(error: Error) -> Error {
    match error {
        Error::ReqwestError { status, message } => if status == Some(NOT_FOUND) {
            Error::NotFound
        } else {
            error
        },
        _ => error,
    }
}

impl Error {
    /// Describes the error. A failure of the HTTP client or of the JSON codec
    /// is described by that component's own text, unchanged.
    pub fn message(&self) -> (text: String)
        ensures
            text@ == message_of(*self),
    {
        match self {
            Error::NotFound => "Not found".to_owned(),
            Error::InvalidUrl => "Invalid Url".to_owned(),
            Error::ReqwestError { status, message } => message.clone(),
            Error::SerdeError { message } => message.clone(),
        }
    }

    /// Reads the failure of a lookup by identifier.
    pub fn or_not_found(self) -> (failure: Error)
        ensures
            failure == lookup_failure(self),
    {
        match self {
            Error::ReqwestError { status, message } => {
                match status {
                    Some(code) => {
                        if code == NOT_FOUND {
                            Error::NotFound
                        } else {
                            Error::ReqwestError { status, message }
                        }
                    },
                    None => Error::ReqwestError { status, message },
                }
            },
            other => other,
        }
    }
}

} // verus!
