//! Verified core of a client for the newsdata.io REST API.
//!
//! The crate turns typed parameter objects into query maps, composes the GET
//! request for each endpoint, and classifies what a transport hands back.
//! It performs no I/O itself: a caller sends the [`Request`] and passes the
//! [`TransportOutcome`] to [`deal_response`], or hands its transport to
//! [`dispatch`].

use vstd::prelude::*;
use vstd::string::StringExecFns;

pub mod apis;
pub mod newsdata_io;
pub mod query;
pub mod text;

pub use newsdata_io::{deal_response, dispatch, Auth, Request, TransportOutcome};
pub use query::QueryMap;

verus! {

/// A JSON document as the upstream API sends it.
pub type Json = serde_json::Value;

/// What a call gives: a value, or the reason why there is none.
pub type ApiResult<T> = Result<T, Error>;

/// Why a call gave no document.
#[derive(Debug)]
pub enum Error {
    /// The upstream API answered with an error status. The message is its
    /// error document in compact form.
    ApiError(String),
    /// The request never completed. The message is the transport's.
    RequestError(String),
    /// The answer's body was no JSON text. The message is the parser's.
    MalformedResponse(String),
}

impl Error {
    /// The error as a line of text: its kind, then its message.
    pub open spec fn text(&self) -> Seq<char> {
        match self {
            Error::ApiError(message) => "API error: "@ + message@,
            Error::RequestError(message) => "Request error: "@ + message@,
            Error::MalformedResponse(message) => "Malformed response: "@ + message@,
        }
    }

    /// Writes the error as a line of text.
    pub fn to_string(&self) -> (line: String)
        ensures
            line@ == self.text(),
    {
        match self {
            Error::ApiError(message) => "API error: ".to_owned().concat(message.as_str()),
            Error::RequestError(message) => "Request error: ".to_owned().concat(
                message.as_str(),
            ),
            Error::MalformedResponse(message) => "Malformed response: ".to_owned().concat(
                message.as_str(),
            ),
        }
    }
}

} // verus!
