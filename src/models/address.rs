//! The address record that the API returns.
use vstd::prelude::*;
use crate::error::TelnyxError;
use crate::json::{int_at, object_flags, object_ints, object_text, shape_error, JsonObject};
use crate::models::requests::{lemma_field_keys, CreateAddressRequest};
use crate::models::time::{parse_rfc3339, rfc3339_instant, Timestamp};
use crate::wire::{
    flag_ok, flag_or_false, lookup, opt_text, opt_text_ok, optional_flag, optional_text,
    required_text,
};

verus! {

/// An address record, as the server holds it.
#[derive(Clone, Debug)]
pub struct Address {
    /// Uniquely identifies the address.
    pub id: i64,
    /// Identifies the type of the resource.
    pub record_type: String,
    /// A customer reference string for customer look ups.
    pub customer_reference: Option<String>,
    /// The first name associated with the address.
    pub first_name: Option<String>,
    /// The last name associated with the address.
    pub last_name: Option<String>,
    /// The business name associated with the address.
    pub business_name: Option<String>,
    /// The phone number associated with the address.
    pub phone_number: Option<String>,
    /// The primary street address information about the address.
    pub street_address: String,
    /// Additional street address information (unit, apartment).
    pub extended_address: Option<String>,
    /// The locality of the address; for US addresses, the city.
    pub locality: String,
    /// The administrative area of the address; for US addresses, the state.
    pub administrative_area: Option<String>,
    /// The neighborhood of the address (some international addresses).
    pub neighborhood: Option<String>,
    /// The borough of the address (some international addresses).
    pub borough: Option<String>,
    /// The postal code of the address.
    pub postal_code: Option<String>,
    /// The two-character (ISO 3166-1 alpha-2) country code of the address.
    pub country_code: String,
    /// Whether the address belongs to the list of addresses for regular use.
    pub address_book: bool,
    /// Whether the address is validated for emergency use upon creation.
    pub validate_address: bool,
    /// When the resource was created.
    pub created_at: Timestamp,
    /// When the resource was last updated.
    pub updated_at: Timestamp,
}

/// The text at `k` is an RFC 3339 instant.
pub open spec fn has_instant(t: Map<Seq<char>, Seq<char>>, k: Seq<char>) -> bool {
    t.contains_key(k) && rfc3339_instant(t[k]) is Some
}

/// An object holds every member that an address requires: an integer id,
/// the record type, street address, locality and country code as strings, and
/// both timestamps as RFC 3339 text; each optional string is a string, `null`
/// or missing, and each flag a boolean or missing.
pub open spec fn address_shape_ok(m: JsonObject) -> bool {
    let t = object_text(m);
    &&& opt_text_ok(m, "customer_reference"@)
    &&& opt_text_ok(m, "first_name"@)
    &&& opt_text_ok(m, "last_name"@)
    &&& opt_text_ok(m, "business_name"@)
    &&& opt_text_ok(m, "phone_number"@)
    &&& opt_text_ok(m, "extended_address"@)
    &&& opt_text_ok(m, "administrative_area"@)
    &&& opt_text_ok(m, "neighborhood"@)
    &&& opt_text_ok(m, "borough"@)
    &&& opt_text_ok(m, "postal_code"@)
    &&& flag_ok(m, "address_book"@)
    &&& flag_ok(m, "validate_address"@)
    &&& object_ints(m).contains_key("id"@)
    &&& t.contains_key("record_type"@)
    &&& t.contains_key("street_address"@)
    &&& t.contains_key("locality"@)
    &&& t.contains_key("country_code"@)
    &&& has_instant(t, "created_at"@)
    &&& has_instant(t, "updated_at"@)
}

/// `a` holds what the object says: each field the member of its name, an
/// optional string unset where the object holds no string there, a flag
/// `false` where the object holds no boolean there.
pub open spec fn reads_address(a: Address, m: JsonObject) -> bool {
    let t = object_text(m);
    let f = object_flags(m);
    &&& a.id as int == object_ints(m)["id"@]
    &&& a.record_type@ == t["record_type"@]
    &&& opt_text(a.customer_reference) == lookup(t, "customer_reference"@)
    &&& opt_text(a.first_name) == lookup(t, "first_name"@)
    &&& opt_text(a.last_name) == lookup(t, "last_name"@)
    &&& opt_text(a.business_name) == lookup(t, "business_name"@)
    &&& opt_text(a.phone_number) == lookup(t, "phone_number"@)
    &&& a.street_address@ == t["street_address"@]
    &&& opt_text(a.extended_address) == lookup(t, "extended_address"@)
    &&& a.locality@ == t["locality"@]
    &&& opt_text(a.administrative_area) == lookup(t, "administrative_area"@)
    &&& opt_text(a.neighborhood) == lookup(t, "neighborhood"@)
    &&& opt_text(a.borough) == lookup(t, "borough"@)
    &&& opt_text(a.postal_code) == lookup(t, "postal_code"@)
    &&& a.country_code@ == t["country_code"@]
    &&& a.address_book == flag_or_false(f, "address_book"@)
    &&& a.validate_address == flag_or_false(f, "validate_address"@)
    &&& rfc3339_instant(t["created_at"@]) == Some(a.created_at.instant())
    &&& rfc3339_instant(t["updated_at"@]) == Some(a.updated_at.instant())
}

/// Reads a member that must hold an RFC 3339 instant.
pub(crate) fn required_instant(m: &JsonObject, k: &str) -> (r: Result<Timestamp, TelnyxError>)
    ensures
        r is Ok <==> has_instant(object_text(*m), k@),
        r matches Ok(t) ==> rfc3339_instant(object_text(*m)[k@]) == Some(t.instant()),
        r is Err ==> r matches Err(TelnyxError::Parse(_)),
{
    let s = required_text(m, k)?;
    match parse_rfc3339(s.as_str()) {
        Some(t) => Ok(t),
        None => Err(TelnyxError::Parse(shape_error(k))),
    }
}

impl Address {
    /// Reads an address from the members of a JSON object.
    ///
    /// Fails with a `Parse` error exactly when a required member is missing
    /// or of another type, an optional member is of another type, or a
    /// timestamp is not RFC 3339 text.
    pub fn from_json(m: &JsonObject) -> (r: Result<Address, TelnyxError>)
        ensures
            r is Ok <==> address_shape_ok(*m),
            r matches Ok(a) ==> reads_address(a, *m),
            r is Err ==> r matches Err(TelnyxError::Parse(_)),
    {
        let id = match int_at(m, "id") {
            Some(i) => i,
            None => return Err(TelnyxError::Parse(shape_error("id"))),
        };
        let record_type = required_text(m, "record_type")?;
        let street_address = required_text(m, "street_address")?;
        let locality = required_text(m, "locality")?;
        let country_code = required_text(m, "country_code")?;
        let created_at = required_instant(m, "created_at")?;
        let updated_at = required_instant(m, "updated_at")?;
        let customer_reference = optional_text(m, "customer_reference")?;
        let first_name = optional_text(m, "first_name")?;
        let last_name = optional_text(m, "last_name")?;
        let business_name = optional_text(m, "business_name")?;
        let phone_number = optional_text(m, "phone_number")?;
        let extended_address = optional_text(m, "extended_address")?;
        let administrative_area = optional_text(m, "administrative_area")?;
        let neighborhood = optional_text(m, "neighborhood")?;
        let borough = optional_text(m, "borough")?;
        let postal_code = optional_text(m, "postal_code")?;
        let address_book = optional_flag(m, "address_book")?;
        let validate_address = optional_flag(m, "validate_address")?;
        Ok(Address {
            id,
            record_type,
            customer_reference,
            first_name,
            last_name,
            business_name,
            phone_number,
            street_address,
            extended_address,
            locality,
            administrative_area,
            neighborhood,
            borough,
            postal_code,
            country_code,
            address_book,
            validate_address,
            created_at,
            updated_at,
        })
    }
}

/// The object that the server returns for a created address holds every
/// member of the request as it was sent, with the same value.
pub open spec fn echoes(req: CreateAddressRequest, m: JsonObject) -> bool {
    &&& forall|k: Seq<char>|
        #[trigger] req.wire_text().contains_key(k) ==> object_text(m).contains_key(k)
            && object_text(m)[k] == req.wire_text()[k]
    &&& forall|k: Seq<char>|
        #[trigger] req.wire_flags().contains_key(k) ==> object_flags(m).contains_key(k)
            && object_flags(m)[k] == req.wire_flags()[k]
}

/// Creating an address and reading back the record that echoes the request
/// gives an address whose shared fields are those of the request: street
/// address, locality, country code, both flags, and every optional field that
/// was set.
pub proof fn lemma_create_round_trip(req: CreateAddressRequest, m: JsonObject, a: Address)
    requires
        echoes(req, m),
        reads_address(a, m),
    ensures
        a.street_address@ == req.street_address@,
        a.locality@ == req.locality@,
        a.country_code@ == req.country_code@,
        a.address_book == req.address_book,
        a.validate_address == req.validate_address,
        req.customer_reference is Some ==> opt_text(a.customer_reference) == opt_text(req.customer_reference),
        req.first_name is Some ==> opt_text(a.first_name) == opt_text(req.first_name),
        req.last_name is Some ==> opt_text(a.last_name) == opt_text(req.last_name),
        req.business_name is Some ==> opt_text(a.business_name) == opt_text(req.business_name),
        req.phone_number is Some ==> opt_text(a.phone_number) == opt_text(req.phone_number),
        req.extended_address is Some ==> opt_text(a.extended_address) == opt_text(req.extended_address),
        req.administrative_area is Some ==> opt_text(a.administrative_area) == opt_text(req.administrative_area),
        req.neighborhood is Some ==> opt_text(a.neighborhood) == opt_text(req.neighborhood),
        req.borough is Some ==> opt_text(a.borough) == opt_text(req.borough),
        req.postal_code is Some ==> opt_text(a.postal_code) == opt_text(req.postal_code),
{
    lemma_field_keys();
    let w = req.wire_text();
    assert(w.contains_key("street_address"@));
    assert(w.contains_key("locality"@));
    assert(w.contains_key("country_code"@));
    assert(req.wire_flags().contains_key("address_book"@));
    assert(req.wire_flags().contains_key("validate_address"@));
    if req.customer_reference is Some { assert(w.contains_key("customer_reference"@)); }
    if req.first_name is Some { assert(w.contains_key("first_name"@)); }
    if req.last_name is Some { assert(w.contains_key("last_name"@)); }
    if req.business_name is Some { assert(w.contains_key("business_name"@)); }
    if req.phone_number is Some { assert(w.contains_key("phone_number"@)); }
    if req.extended_address is Some { assert(w.contains_key("extended_address"@)); }
    if req.administrative_area is Some { assert(w.contains_key("administrative_area"@)); }
    if req.neighborhood is Some { assert(w.contains_key("neighborhood"@)); }
    if req.borough is Some { assert(w.contains_key("borough"@)); }
    if req.postal_code is Some { assert(w.contains_key("postal_code"@)); }
}

} // verus!
