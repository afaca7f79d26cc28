//! Typed client library for the address-management operations of the Telnyx
//! REST API: request encoding, response decoding and status classification.

pub mod json;
pub mod error;
pub mod transport;
pub mod wire;
pub mod models;
pub mod client;
pub mod endpoints;

pub use client::{TelnyxClient, TenlyxClientBuilder};
pub use endpoints::{AddressApi, ApiRequest, Method};
pub use error::TelnyxError;
