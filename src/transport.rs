//! Classification of HTTP responses into payloads and errors.
use vstd::prelude::*;
use crate::error::TelnyxError;
use crate::json::{is_json_text, json_value, parse_json};

verus! {

/// A status code in the 2xx range.
pub open spec fn is_success_spec(status: u16) -> bool {
    200 <= status < 300
}

/// `r` is the `Api` error for a response with this status and body text.
pub open spec fn is_api_error<T>(r: Result<T, TelnyxError>, status: u16, body: Seq<char>) -> bool {
    match r {
        Err(TelnyxError::Api { status: s, message: m }) => s == status && m@ == body,
        _ => false,
    }
}

/// Whether a status code is a success (2xx).
pub fn is_success(status: u16) -> (r: bool)
    ensures
        r == is_success_spec(status),
{
    200 <= status && status < 300
}

/// The body of a response, or the API error that its status stands for.
///
/// `body` is the response text; a caller that could not read it passes an
/// empty string.
pub fn check_status(status: u16, body: String) -> (r: Result<String, TelnyxError>)
    ensures
        is_success_spec(status) ==> (r matches Ok(b) && b@ == body@),
        !is_success_spec(status) ==> is_api_error(r, status, body@),
{
    if is_success(status) {
        Ok(body)
    } else {
        Err(TelnyxError::Api { status, message: body })
    }
}

/// Decodes a response whose payload is a JSON document.
///
/// A success status with a body that is not JSON is a `Parse` error; any
/// other status is an `Api` error carrying that status and the body text.
pub fn parse_response(status: u16, body: String) -> (r: Result<serde_json::Value, TelnyxError>)
    ensures
        is_success_spec(status) ==> (r is Ok <==> is_json_text(body@)),
        r matches Ok(v) ==> v == json_value(body@),
        is_success_spec(status) && !is_json_text(body@) ==> r matches Err(TelnyxError::Parse(_)),
        !is_success_spec(status) ==> is_api_error(r, status, body@),
{
    match check_status(status, body) {
        Ok(text) => match parse_json(text.as_str()) {
            Ok(v) => Ok(v),
            Err(e) => Err(TelnyxError::Parse(e)),
        },
        Err(e) => Err(e),
    }
}

/// The outcome of a call that carries no payload on success (a deletion).
pub fn empty_response(status: u16, body: String) -> (r: Result<(), TelnyxError>)
    ensures
        is_success_spec(status) ==> r is Ok,
        !is_success_spec(status) ==> is_api_error(r, status, body@),
{
    match check_status(status, body) {
        Ok(_) => Ok(()),
        Err(e) => Err(e),
    }
}

} // verus!
