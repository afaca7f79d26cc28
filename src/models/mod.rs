//! Request and response structures of the address operations.

pub mod requests;
pub mod time;
pub mod address;
pub mod validation;
pub mod envelope;

pub use address::Address;
pub use envelope::{ApiListResponse, ApiResponse, PaginationMeta};
pub use requests::{AddressAcceptSuggestionRequest, CreateAddressRequest, ValidateAddressRequest};
pub use time::Timestamp;
pub use validation::{
    AddressAcceptSuggestionResult, AddressValidationError, AddressValidationStatus, ErrorSource,
    ValidateAddressField, ValidateAddressResult,
};
