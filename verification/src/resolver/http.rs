//! What the loading of a document over HTTP decides.
//!
//! The exchange itself is the caller's: it sends one GET request that
//! advertises [`ACCEPT`], hands what came of it to [`load_meta`], and where
//! that allows it reads and parses the body and hands what came of that to
//! [`MetaLoad::body`]. Nothing is tried twice.

use crate::status::{status_text, StatusCode};
use vstd::prelude::*;
use vstd::string::*;

verus! {

/// The document formats that a request for a document advertises.
pub const ACCEPT: &'static str = "application/json,application/x-yaml,text/yaml";

/// An error that can happen when loading a document.
#[derive(Debug)]
pub enum LoadError {
    /// The transport failed: the request could not be built or sent, or the
    /// body could not be read. Holds what the transport said of it.
    Reqwest(String),
    /// The server returned a bad status code.
    Server(StatusCode),
    /// The body is not a document of the kind that was asked for. Holds what
    /// the parser said of it.
    Serde(String),
}

impl LoadError {
    /// The text of the message that describes the error.
    pub open spec fn text(self) -> Seq<char> {
        match self {
            LoadError::Reqwest(cause) => "reqwest error: "@ + cause@,
            LoadError::Server(status) => "server error: "@ + status_text(status.value()),
            LoadError::Serde(cause) => "serde error: "@ + cause@,
        }
    }

    /// Describes the error.
    pub fn to_string(&self) -> (r: String)
        ensures
            r@ == self.text(),
    {
        match self {
            LoadError::Reqwest(cause) => "reqwest error: ".to_owned().concat(cause.as_str()),
            LoadError::Server(status) => {
                let shown = status.to_string();
                "server error: ".to_owned().concat(shown.as_str())
            },
            LoadError::Serde(cause) => "serde error: ".to_owned().concat(cause.as_str()),
        }
    }
}

/// What came of the body of an answer.
pub enum Body<T> {
    /// The body could not be read. Holds what the transport said of it.
    Unread(String),
    /// The body is not a document of the kind that was asked for. Holds what
    /// the parser said of it.
    Unparsable(String),
    /// The document that the body holds.
    Parsed(T),
}

/// An answer whose body is to be read and parsed.
pub struct MetaLoad {
    status: StatusCode,
}

/// Takes what came of sending the request: the status of the answer, or
/// what the transport said of its failure to build or send the request.
///
/// A request that failed fails the loading, and so does an answer that
/// reports no success: its body is not inspected. The body of any other
/// answer is to be read.
pub fn load_meta(sent: Result<StatusCode, String>) -> (r: Result<MetaLoad, LoadError>)
    ensures
        match sent {
            Ok(status) => if status.succeeded() {
                r matches Ok(load) && load.status() == status
            } else {
                r matches Err(error) && error == LoadError::Server(status)
            },
            Err(cause) => r matches Err(error) && error == LoadError::Reqwest(cause),
        },
{
    match sent {
        Ok(status) => if status.is_success() {
            Ok(MetaLoad { status })
        } else {
            Err(LoadError::Server(status))
        },
        Err(cause) => Err(LoadError::Reqwest(cause)),
    }
}

impl MetaLoad {
    #[verifier::type_invariant]
    spec fn success(self) -> bool {
        self.status.succeeded()
    }

    /// The status of the answer.
    pub closed spec fn status(self) -> StatusCode {
        self.status
    }

    /// Takes what came of the body: the document, or the failure to read
    /// or to parse it.
    pub fn body<T>(self, body: Body<T>) -> (r: Result<T, LoadError>)
        ensures
            r == match body {
                Body::Unread(cause) => Err::<T, LoadError>(LoadError::Reqwest(cause)),
                Body::Unparsable(cause) => Err::<T, LoadError>(LoadError::Serde(cause)),
                Body::Parsed(document) => Ok::<T, LoadError>(document),
            },
    {
        match body {
            Body::Unread(cause) => Err(LoadError::Reqwest(cause)),
            Body::Unparsable(cause) => Err(LoadError::Serde(cause)),
            Body::Parsed(document) => Ok(document),
        }
    }
}

} // verus!
