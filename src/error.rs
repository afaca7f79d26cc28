//! The ways a call to the API can fail.
use vstd::prelude::*;

verus! {

#[verifier::external_type_specification]
#[verifier::external_body]
pub struct ExHttpError(reqwest::Error);

/// Error type for every failure the client reports.
#[derive(Debug)]
pub enum TelnyxError {
    /// The HTTP request failed below the HTTP layer (transport, timeout).
    Http(reqwest::Error),
    /// The API answered with a status outside 2xx.
    Api { status: u16, message: String },
    /// The API answered with success, but the body is not of the expected shape.
    Parse(serde_json::Error),
    /// The client was configured without a required setting.
    Config(String),
}

impl TelnyxError {
    /// The HTTP status carried by an `Api` error.
    pub fn status(&self) -> (r: Option<u16>)
        ensures
            r == (match self {
                TelnyxError::Api { status, .. } => Some(*status),
                _ => None,
            }),
    {
        match self {
            TelnyxError::Api { status, .. } => Some(*status),
            _ => None,
        }
    }
}

} // verus!
