//! What the validation and suggestion-acceptance actions return.
use vstd::prelude::*;
use crate::error::TelnyxError;
use crate::json::{
    array_at, as_object, child_array, child_object, has_key, null_at, object_at, object_flags,
    object_keys, object_nulls, object_text, shape_error, value_object, JsonObject,
};
use crate::wire::{
    flag_ok, flag_or_false, lookup, opt_text, opt_text_ok, optional_flag, optional_text,
    required_text,
};

verus! {

/// Whether an address is valid or invalid, with a fallback for any other
/// value the server may send.
#[derive(Clone, Copy, Debug, PartialEq, Eq, Structural)]
pub enum AddressValidationStatus {
    /// The address is valid.
    Valid,
    /// The address is invalid.
    Invalid,
    /// Neither value could be bound.
    Unknown,
}

/// The status that a wire value stands for: `"valid"`, `"invalid"`, and
/// `Unknown` for every other text.
pub open spec fn status_of(s: Seq<char>) -> AddressValidationStatus {
    if s == "valid"@ {
        AddressValidationStatus::Valid
    } else if s == "invalid"@ {
        AddressValidationStatus::Invalid
    } else {
        AddressValidationStatus::Unknown
    }
}

/// `"valid"` reads as `Valid`, `"invalid"` as `Invalid`, and every other
/// text as the fallback `Unknown`: no status text is refused.
pub proof fn lemma_status_fallback(s: Seq<char>)
    ensures
        status_of("valid"@) == AddressValidationStatus::Valid,
        status_of("invalid"@) == AddressValidationStatus::Invalid,
        s != "valid"@ && s != "invalid"@ ==> status_of(s) == AddressValidationStatus::Unknown,
{
    reveal_strlit("valid");
    reveal_strlit("invalid");
    assert("valid"@.len() != "invalid"@.len());
}

impl Default for AddressValidationStatus {
    fn default() -> (r: Self)
        ensures
            r == AddressValidationStatus::Unknown,
    {
        AddressValidationStatus::Unknown
    }
}

impl AddressValidationStatus {
    /// The status that a wire value stands for; an unrecognized value is
    /// `Unknown` rather than an error.
    pub fn from_wire(s: &str) -> (r: Self)
        ensures
            r == status_of(s@),
    {
        let t = s.to_string();
        if t == "valid".to_string() {
            AddressValidationStatus::Valid
        } else if t == "invalid".to_string() {
            AddressValidationStatus::Invalid
        } else {
            AddressValidationStatus::Unknown
        }
    }
}

/// The normalized address that validation suggests.
#[derive(Clone, Debug)]
pub struct ValidateAddressField {
    /// The primary street address information about the address.
    pub street_address: Option<String>,
    /// Additional street address information (unit, apartment).
    pub extended_address: Option<String>,
    /// The locality of the address; for US addresses, the city.
    pub locality: Option<String>,
    /// The administrative area of the address; for US addresses, the state.
    pub administrative_area: Option<String>,
    /// The postal code of the address.
    pub postal_code: Option<String>,
    /// The two-character (ISO 3166-1 alpha-2) country code of the address.
    pub country_code: Option<String>,
}

/// `f` holds the string members of the object, each unset where the object
/// holds no string.
pub open spec fn reads_field(f: ValidateAddressField, m: JsonObject) -> bool {
    let t = object_text(m);
    &&& opt_text(f.street_address) == lookup(t, "street_address"@)
    &&& opt_text(f.extended_address) == lookup(t, "extended_address"@)
    &&& opt_text(f.locality) == lookup(t, "locality"@)
    &&& opt_text(f.administrative_area) == lookup(t, "administrative_area"@)
    &&& opt_text(f.postal_code) == lookup(t, "postal_code"@)
    &&& opt_text(f.country_code) == lookup(t, "country_code"@)
}

/// Each member of a suggested address is a string, `null` or missing.
pub open spec fn field_shape_ok(m: JsonObject) -> bool {
    &&& opt_text_ok(m, "street_address"@)
    &&& opt_text_ok(m, "extended_address"@)
    &&& opt_text_ok(m, "locality"@)
    &&& opt_text_ok(m, "administrative_area"@)
    &&& opt_text_ok(m, "postal_code"@)
    &&& opt_text_ok(m, "country_code"@)
}

impl ValidateAddressField {
    /// Reads the suggested address; every member is optional.
    pub fn from_json(m: &JsonObject) -> (r: Result<Self, TelnyxError>)
        ensures
            r is Ok <==> field_shape_ok(*m),
            r matches Ok(f) ==> reads_field(f, *m),
            r is Err ==> r matches Err(TelnyxError::Parse(_)),
    {
        let street_address = optional_text(m, "street_address")?;
        let extended_address = optional_text(m, "extended_address")?;
        let locality = optional_text(m, "locality")?;
        let administrative_area = optional_text(m, "administrative_area")?;
        let postal_code = optional_text(m, "postal_code")?;
        let country_code = optional_text(m, "country_code")?;
        Ok(ValidateAddressField {
            street_address,
            extended_address,
            locality,
            administrative_area,
            postal_code,
            country_code,
        })
    }
}

/// Where in the request an error was found.
#[derive(Clone, Debug)]
pub struct ErrorSource {
    /// The query parameter that caused the error.
    pub parameter: Option<String>,
    /// A JSON pointer (RFC 6901) to the offending entity.
    pub pointer: Option<String>,
}

/// `s` holds the string members of the object.
pub open spec fn reads_source(s: ErrorSource, m: JsonObject) -> bool {
    &&& opt_text(s.parameter) == lookup(object_text(m), "parameter"@)
    &&& opt_text(s.pointer) == lookup(object_text(m), "pointer"@)
}

/// Both members of an error source are strings, `null` or missing.
pub open spec fn source_shape_ok(m: JsonObject) -> bool {
    opt_text_ok(m, "parameter"@) && opt_text_ok(m, "pointer"@)
}

impl ErrorSource {
    /// Reads an error source; both members are optional.
    pub fn from_json(m: &JsonObject) -> (r: Result<Self, TelnyxError>)
        ensures
            r is Ok <==> source_shape_ok(*m),
            r matches Ok(e) ==> reads_source(e, *m),
            r is Err ==> r matches Err(TelnyxError::Parse(_)),
    {
        let parameter = optional_text(m, "parameter")?;
        let pointer = optional_text(m, "pointer")?;
        Ok(ErrorSource { parameter, pointer })
    }
}

/// One error found by validation.
#[derive(Clone, Debug)]
pub struct AddressValidationError {
    /// The error code.
    pub code: String,
    /// The error title.
    pub title: String,
    /// A detailed description.
    pub detail: Option<String>,
    /// Where the error was found.
    pub source: Option<ErrorSource>,
}

/// An object holds a validation error: `code` and `title` strings, an
/// optional `detail` string, and a `source` that is an error source object,
/// `null` or missing.
pub open spec fn error_shape_ok(m: JsonObject) -> bool {
    &&& object_text(m).contains_key("code"@)
    &&& object_text(m).contains_key("title"@)
    &&& opt_text_ok(m, "detail"@)
    &&& match child_object(m, "source"@) {
        Some(o) => source_shape_ok(o),
        None => !object_keys(m).contains("source"@) || object_nulls(m).contains("source"@),
    }
}

/// `e` holds what the object says; its source is read from the object at
/// `"source"`, and is unset where there is none.
pub open spec fn reads_error(e: AddressValidationError, m: JsonObject) -> bool {
    &&& e.code@ == object_text(m)["code"@]
    &&& e.title@ == object_text(m)["title"@]
    &&& opt_text(e.detail) == lookup(object_text(m), "detail"@)
    &&& match child_object(m, "source"@) {
        Some(o) => e.source is Some && reads_source(e.source.unwrap(), o),
        None => e.source is None,
    }
}

impl AddressValidationError {
    /// Reads a validation error: `code` and `title` are required strings;
    /// a `null` or missing `source` reads as no source.
    pub fn from_json(m: &JsonObject) -> (r: Result<Self, TelnyxError>)
        ensures
            r is Ok <==> error_shape_ok(*m),
            r matches Ok(e) ==> reads_error(e, *m),
            r is Err ==> r matches Err(TelnyxError::Parse(_)),
    {
        let code = required_text(m, "code")?;
        let title = required_text(m, "title")?;
        let detail = optional_text(m, "detail")?;
        let source = match object_at(m, "source") {
            Some(o) => Some(ErrorSource::from_json(&o)?),
            None => {
                if has_key(m, "source") && !null_at(m, "source") {
                    return Err(TelnyxError::Parse(shape_error("source")));
                }
                None
            },
        };
        Ok(AddressValidationError { code, title, detail, source })
    }
}

/// The result of validating an address.
#[derive(Clone, Debug)]
pub struct ValidateAddressResult {
    /// Identifies the type of the resource.
    pub record_type: String,
    /// Whether the address is valid or invalid.
    pub result: AddressValidationStatus,
    /// The normalized address, where one is available.
    pub suggested: ValidateAddressField,
    /// The validation errors, if any.
    pub errors: Vec<AddressValidationError>,
}

/// Every element is an object that holds a validation error.
pub open spec fn items_are_errors(items: Seq<serde_json::Value>) -> bool {
    forall|i: int|
        0 <= i < items.len() ==> (#[trigger] value_object(items[i])) is Some && error_shape_ok(
            value_object(items[i]).unwrap(),
        )
}

/// `errors` holds, in order, the errors that the elements stand for.
pub open spec fn reads_errors(
    errors: Seq<AddressValidationError>,
    items: Seq<serde_json::Value>,
) -> bool {
    &&& errors.len() == items.len()
    &&& forall|i: int|
        0 <= i < items.len() ==> reads_error(#[trigger] errors[i], value_object(items[i]).unwrap())
}

/// An object holds a validation result: `record_type` and `result` strings,
/// a `suggested` object, and, where `errors` is present, an array of error
/// objects.
pub open spec fn validation_shape_ok(m: JsonObject) -> bool {
    &&& object_text(m).contains_key("record_type"@)
    &&& object_text(m).contains_key("result"@)
    &&& child_object(m, "suggested"@) is Some
    &&& field_shape_ok(child_object(m, "suggested"@).unwrap())
    &&& object_keys(m).contains("errors"@) ==> child_array(m, "errors"@) is Some
        && items_are_errors(child_array(m, "errors"@).unwrap())
}

/// `v` holds what the object says; `errors` is empty where the member is
/// missing.
pub open spec fn reads_validation(v: ValidateAddressResult, m: JsonObject) -> bool {
    &&& v.record_type@ == object_text(m)["record_type"@]
    &&& v.result == status_of(object_text(m)["result"@])
    &&& reads_field(v.suggested, child_object(m, "suggested"@).unwrap())
    &&& if object_keys(m).contains("errors"@) {
        reads_errors(v.errors@, child_array(m, "errors"@).unwrap())
    } else {
        v.errors.len() == 0
    }
}

/// Reads the elements of a JSON array of validation errors.
fn read_errors(items: &Vec<serde_json::Value>) -> (r: Result<Vec<AddressValidationError>, TelnyxError>)
    ensures
        r is Ok <==> items_are_errors(items@),
        r matches Ok(es) ==> reads_errors(es@, items@),
        r is Err ==> r matches Err(TelnyxError::Parse(_)),
{
    let mut out: Vec<AddressValidationError> = Vec::new();
    let mut i: usize = 0;
    while i < items.len()
        invariant
            i <= items.len(),
            out.len() == i,
            forall|j: int|
                0 <= j < i ==> (#[trigger] value_object(items@[j])) is Some && error_shape_ok(
                    value_object(items@[j]).unwrap(),
                ),
            forall|j: int|
                0 <= j < i ==> reads_error(#[trigger] out@[j], value_object(items@[j]).unwrap()),
        decreases items.len() - i,
    {
        let o = match as_object(&items[i]) {
            Some(o) => o,
            None => return Err(TelnyxError::Parse(shape_error("errors"))),
        };
        let e = AddressValidationError::from_json(&o)?;
        out.push(e);
        i = i + 1;
    }
    Ok(out)
}

impl ValidateAddressResult {
    /// Reads a validation result.
    ///
    /// `record_type` and `result` are required strings, `suggested` a required
    /// object; `errors`, where present, is an array of error objects. Any
    /// `result` text other than `"valid"` and `"invalid"` reads as `Unknown`,
    /// never as an error.
    pub fn from_json(m: &JsonObject) -> (r: Result<Self, TelnyxError>)
        ensures
            r is Ok <==> validation_shape_ok(*m),
            r matches Ok(v) ==> reads_validation(v, *m),
            r is Err ==> r matches Err(TelnyxError::Parse(_)),
    {
        let record_type = required_text(m, "record_type")?;
        let result_text = required_text(m, "result")?;
        let result = AddressValidationStatus::from_wire(result_text.as_str());
        let suggested = match object_at(m, "suggested") {
            Some(o) => ValidateAddressField::from_json(&o)?,
            None => return Err(TelnyxError::Parse(shape_error("suggested"))),
        };
        let errors = if has_key(m, "errors") {
            match array_at(m, "errors") {
                Some(items) => read_errors(&items)?,
                None => return Err(TelnyxError::Parse(shape_error("errors"))),
            }
        } else {
            Vec::new()
        };
        Ok(ValidateAddressResult { record_type, result, suggested, errors })
    }
}

/// The answer to accepting an address suggestion.
#[derive(Clone, Debug)]
pub struct AddressAcceptSuggestionResult {
    /// Whether the suggestions were accepted.
    pub accepted: bool,
    /// The UUID of the location.
    pub id: Option<String>,
}

/// `a` holds what the object says; `accepted` is `false` where the object
/// holds no boolean there.
pub open spec fn reads_acceptance(a: AddressAcceptSuggestionResult, m: JsonObject) -> bool {
    &&& a.accepted == flag_or_false(object_flags(m), "accepted"@)
    &&& opt_text(a.id) == lookup(object_text(m), "id"@)
}

/// The answer's `accepted` is a boolean or missing, and its `id` a string,
/// `null` or missing.
pub open spec fn acceptance_shape_ok(m: JsonObject) -> bool {
    flag_ok(m, "accepted"@) && opt_text_ok(m, "id"@)
}

impl AddressAcceptSuggestionResult {
    /// Reads the answer; `accepted` is `false` where it is missing.
    pub fn from_json(m: &JsonObject) -> (r: Result<Self, TelnyxError>)
        ensures
            r is Ok <==> acceptance_shape_ok(*m),
            r matches Ok(a) ==> reads_acceptance(a, *m),
            r is Err ==> r matches Err(TelnyxError::Parse(_)),
    {
        let accepted = optional_flag(m, "accepted")?;
        let id = optional_text(m, "id")?;
        Ok(AddressAcceptSuggestionResult { accepted, id })
    }
}

} // verus!
