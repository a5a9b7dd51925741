//! The classification of what a transport hands back.

use vstd::prelude::*;

use serde_json::Error as ParseError;

use crate::newsdata_io::json::{describe, json_reading, json_text, parse_json, render_json};
use crate::newsdata_io::requests::Request;
use crate::{ApiResult, Error, Json};

verus! {

/// What a transport hands back for one request.
#[derive(Debug)]
pub enum TransportOutcome {
    /// The upstream API answered with a success status and this body.
    Success { body: Vec<u8> },
    /// The upstream API answered with an error status and this body.
    Status { status: u16, body: Vec<u8> },
    /// No answer arrived: the connection, the name lookup or TLS failed.
    Transport { message: String },
}

/// Whether `result` is what `outcome` is classified as: the document of a
/// success body; `ApiError` with the compact text of the document of an
/// error body; `MalformedResponse` for a body that is no JSON text;
/// `RequestError` with the transport's message where no answer arrived.
pub open spec fn classified(outcome: TransportOutcome, result: ApiResult<Json>) -> bool {
    match outcome {
        TransportOutcome::Success { body } => match json_reading(body@) {
            Some(text) => result matches Ok(value) && json_text(value) == text,
            None => result matches Err(Error::MalformedResponse(_)),
        },
        TransportOutcome::Status { status, body } => match json_reading(body@) {
            Some(text) => result matches Err(Error::ApiError(message)) && message@ == text,
            None => result matches Err(Error::MalformedResponse(_)),
        },
        TransportOutcome::Transport { message } => result == Err::<Json, Error>(
            Error::RequestError(message),
        ),
    }
}

/// Turns the parser's verdict on a body into the library's: a document stays
/// as it is, a parse failure becomes `MalformedResponse` with the parser's
/// message.
pub fn decode(parsed: Result<Json, ParseError>) -> (result: ApiResult<Json>)
    ensures
        match parsed {
            Ok(value) => result == Ok::<Json, Error>(value),
            Err(_) => result matches Err(Error::MalformedResponse(_)),
        },
{
    match parsed {
        Ok(value) => Ok(value),
        Err(error) => Err(Error::MalformedResponse(describe(&error))),
    }
}

/// The error that an error body stands for: `ApiError` with the body's
/// document written out in compact form.
pub fn api_error(value: &Json) -> (error: Error)
    ensures
        error matches Error::ApiError(message) && message@ == json_text(*value),
{
    Error::ApiError(render_json(value))
}

/// Classifies what the transport handed back for a request.
pub fn deal_response(outcome: TransportOutcome) -> (result: ApiResult<Json>)
    ensures
        classified(outcome, result),
{
    match outcome {
        TransportOutcome::Success { body } => decode(parse_json(body.as_slice())),
        TransportOutcome::Status { status, body } => {
            match decode(parse_json(body.as_slice())) {
                Ok(value) => Err(api_error(&value)),
                Err(error) => Err(error),
            }
        },
        TransportOutcome::Transport { message } => Err(Error::RequestError(message)),
    }
}

/// Hands `request` to `transport` and classifies what comes back: the result
/// is the classification of an outcome that `transport` gives for `request`.
pub fn dispatch<T: Fn(&Request) -> TransportOutcome>(
    request: &Request,
    transport: T,
) -> (result: ApiResult<Json>)
    requires
        call_requires(transport, (request,)),
    ensures
        exists|outcome: TransportOutcome|
            call_ensures(transport, (request,), outcome) && #[trigger] classified(outcome, result),
{
    let outcome = transport(request);
    let result = deal_response(outcome);
    assert(classified(outcome, result));
    result
}

} // verus!
