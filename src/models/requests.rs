//! What the client sends: requests that carry only the fields that are set.
use vstd::prelude::*;
use crate::json::{
    new_object, object_flags, object_ints, object_keys, object_text, put_flag, put_text,
    JsonObject,
};
use crate::wire::{put_opt_text, with_opt};

verus! {

/// The member names of the address objects differ from one another: each
/// has a length of its own, or a first character of its own among those of
/// the same length.
pub proof fn lemma_field_keys()
    ensures
        "customer_reference"@.len() == 18,
        "first_name"@.len() == 10,
        "last_name"@.len() == 9,
        "business_name"@.len() == 13,
        "phone_number"@.len() == 12,
        "street_address"@.len() == 14,
        "extended_address"@.len() == 16,
        "locality"@.len() == 8,
        "administrative_area"@.len() == 19,
        "neighborhood"@.len() == 12,
        "borough"@.len() == 7,
        "postal_code"@.len() == 11,
        "country_code"@.len() == 12,
        "address_book"@.len() == 12,
        "validate_address"@.len() == 16,
        "id"@.len() == 2,
        "record_type"@.len() == 11,
        "created_at"@.len() == 10,
        "updated_at"@.len() == 10,
        "phone_number"@[0] == 'p',
        "address_book"@[0] == 'a',
        "country_code"@[0] == 'c',
        "neighborhood"@[0] == 'n',
        "extended_address"@[0] == 'e',
        "validate_address"@[0] == 'v',
        "customer_reference"@[0] == 'c',
        "record_type"@[0] == 'r',
        "postal_code"@[0] == 'p',
        "created_at"@[0] == 'c',
        "updated_at"@[0] == 'u',
        "first_name"@[0] == 'f',
{
    reveal_strlit("customer_reference");
    reveal_strlit("first_name");
    reveal_strlit("last_name");
    reveal_strlit("business_name");
    reveal_strlit("phone_number");
    reveal_strlit("street_address");
    reveal_strlit("extended_address");
    reveal_strlit("locality");
    reveal_strlit("administrative_area");
    reveal_strlit("neighborhood");
    reveal_strlit("borough");
    reveal_strlit("postal_code");
    reveal_strlit("country_code");
    reveal_strlit("address_book");
    reveal_strlit("validate_address");
    reveal_strlit("id");
    reveal_strlit("record_type");
    reveal_strlit("created_at");
    reveal_strlit("updated_at");
}

/// A request to create a new address.
#[derive(Clone, Debug)]
pub struct CreateAddressRequest {
    /// A customer reference string for customer look ups.
    pub customer_reference: Option<String>,
    /// The first name associated with the address.
    pub first_name: Option<String>,
    /// The last name associated with the address.
    pub last_name: Option<String>,
    /// The business name associated with the address.
    pub business_name: Option<String>,
    /// The phone number associated with the address.
    pub phone_number: Option<String>,
    /// The primary street address information about the address.
    pub street_address: String,
    /// Additional street address information (unit, apartment).
    pub extended_address: Option<String>,
    /// The locality of the address; for US addresses, the city.
    pub locality: String,
    /// The administrative area of the address; for US addresses, the state.
    pub administrative_area: Option<String>,
    /// The neighborhood of the address (some international addresses).
    pub neighborhood: Option<String>,
    /// The borough of the address (some international addresses).
    pub borough: Option<String>,
    /// The postal code of the address.
    pub postal_code: Option<String>,
    /// The two-character (ISO 3166-1 alpha-2) country code of the address.
    pub country_code: String,
    /// Whether the address belongs to the list of addresses for regular use.
    pub address_book: bool,
    /// Whether the address is validated for emergency use upon creation.
    pub validate_address: bool,
}

impl CreateAddressRequest {
    /// The string members of the request as sent: every set field, no other.
    pub open spec fn wire_text(&self) -> Map<Seq<char>, Seq<char>> {
        let m = Map::<Seq<char>, Seq<char>>::empty();
        let m = with_opt(m, "customer_reference"@, self.customer_reference);
        let m = with_opt(m, "first_name"@, self.first_name);
        let m = with_opt(m, "last_name"@, self.last_name);
        let m = with_opt(m, "business_name"@, self.business_name);
        let m = with_opt(m, "phone_number"@, self.phone_number);
        let m = m.insert("street_address"@, self.street_address@);
        let m = with_opt(m, "extended_address"@, self.extended_address);
        let m = m.insert("locality"@, self.locality@);
        let m = with_opt(m, "administrative_area"@, self.administrative_area);
        let m = with_opt(m, "neighborhood"@, self.neighborhood);
        let m = with_opt(m, "borough"@, self.borough);
        let m = with_opt(m, "postal_code"@, self.postal_code);
        m.insert("country_code"@, self.country_code@)
    }

    /// The boolean members of the request as sent.
    pub open spec fn wire_flags(&self) -> Map<Seq<char>, bool> {
        Map::<Seq<char>, bool>::empty().insert("address_book"@, self.address_book).insert(
            "validate_address"@,
            self.validate_address,
        )
    }

    /// The keys of the object sent.
    pub open spec fn wire_keys(&self) -> Set<Seq<char>> {
        self.wire_text().dom() + self.wire_flags().dom()
    }

    /// A request with the required fields, every optional field unset and
    /// both flags `false`.
    pub fn new(street_address: String, locality: String, country_code: String) -> (r: Self)
        ensures
            r.street_address == street_address,
            r.locality == locality,
            r.country_code == country_code,
            r.customer_reference is None,
            r.first_name is None,
            r.last_name is None,
            r.business_name is None,
            r.phone_number is None,
            r.extended_address is None,
            r.administrative_area is None,
            r.neighborhood is None,
            r.borough is None,
            r.postal_code is None,
            !r.address_book,
            !r.validate_address,
    {
        CreateAddressRequest {
            customer_reference: None,
            first_name: None,
            last_name: None,
            business_name: None,
            phone_number: None,
            street_address,
            extended_address: None,
            locality,
            administrative_area: None,
            neighborhood: None,
            borough: None,
            postal_code: None,
            country_code,
            address_book: false,
            validate_address: false,
        }
    }

    /// The JSON object sent to create the address.
    pub fn to_json(&self) -> (r: JsonObject)
        ensures
            object_text(r) == self.wire_text(),
            object_flags(r) == self.wire_flags(),
            object_keys(r) == self.wire_keys(),
            object_ints(r).dom() == Set::<Seq<char>>::empty(),
    {
        proof {
            lemma_field_keys();
        }
        let mut m = new_object();
        put_flag(&mut m, "address_book", self.address_book);
        put_flag(&mut m, "validate_address", self.validate_address);
        put_opt_text(&mut m, "customer_reference", &self.customer_reference);
        put_opt_text(&mut m, "first_name", &self.first_name);
        put_opt_text(&mut m, "last_name", &self.last_name);
        put_opt_text(&mut m, "business_name", &self.business_name);
        put_opt_text(&mut m, "phone_number", &self.phone_number);
        put_text(&mut m, "street_address", self.street_address.clone());
        put_opt_text(&mut m, "extended_address", &self.extended_address);
        put_text(&mut m, "locality", self.locality.clone());
        put_opt_text(&mut m, "administrative_area", &self.administrative_area);
        put_opt_text(&mut m, "neighborhood", &self.neighborhood);
        put_opt_text(&mut m, "borough", &self.borough);
        put_opt_text(&mut m, "postal_code", &self.postal_code);
        put_text(&mut m, "country_code", self.country_code.clone());
        assert(object_text(m) =~= self.wire_text());
        assert(object_flags(m) =~= self.wire_flags());
        assert(object_keys(m) =~= self.wire_keys());
        assert(object_ints(m).dom() =~= Set::<Seq<char>>::empty());
        m
    }
}

/// A request to validate an address for emergency services.
#[derive(Clone, Debug)]
pub struct ValidateAddressRequest {
    /// The primary street address information about the address.
    pub street_address: String,
    /// Additional street address information (unit, apartment).
    pub extended_address: Option<String>,
    /// The locality of the address; for US addresses, the city.
    pub locality: Option<String>,
    /// The administrative area of the address; for US addresses, the state.
    pub administrative_area: Option<String>,
    /// The postal code of the address.
    pub postal_code: String,
    /// The two-character (ISO 3166-1 alpha-2) country code of the address.
    pub country_code: String,
}

impl ValidateAddressRequest {
    /// The string members of the request as sent: every set field, no other.
    pub open spec fn wire_text(&self) -> Map<Seq<char>, Seq<char>> {
        let m = Map::<Seq<char>, Seq<char>>::empty();
        let m = m.insert("street_address"@, self.street_address@);
        let m = with_opt(m, "extended_address"@, self.extended_address);
        let m = with_opt(m, "locality"@, self.locality);
        let m = with_opt(m, "administrative_area"@, self.administrative_area);
        let m = m.insert("postal_code"@, self.postal_code@);
        m.insert("country_code"@, self.country_code@)
    }

    /// A request with the required fields and every optional field unset.
    pub fn new(street_address: String, postal_code: String, country_code: String) -> (r: Self)
        ensures
            r.street_address == street_address,
            r.postal_code == postal_code,
            r.country_code == country_code,
            r.extended_address is None,
            r.locality is None,
            r.administrative_area is None,
    {
        ValidateAddressRequest {
            street_address,
            extended_address: None,
            locality: None,
            administrative_area: None,
            postal_code,
            country_code,
        }
    }

    /// The JSON object sent to validate the address.
    pub fn to_json(&self) -> (r: JsonObject)
        ensures
            object_text(r) == self.wire_text(),
            object_keys(r) == self.wire_text().dom(),
            object_flags(r).dom() == Set::<Seq<char>>::empty(),
            object_ints(r).dom() == Set::<Seq<char>>::empty(),
    {
        let mut m = new_object();
        put_text(&mut m, "street_address", self.street_address.clone());
        put_opt_text(&mut m, "extended_address", &self.extended_address);
        put_opt_text(&mut m, "locality", &self.locality);
        put_opt_text(&mut m, "administrative_area", &self.administrative_area);
        put_text(&mut m, "postal_code", self.postal_code.clone());
        put_text(&mut m, "country_code", self.country_code.clone());
        assert(object_text(m) =~= self.wire_text());
        assert(object_keys(m) =~= self.wire_text().dom());
        assert(object_flags(m).dom() =~= Set::<Seq<char>>::empty());
        assert(object_ints(m).dom() =~= Set::<Seq<char>>::empty());
        m
    }
}

/// A request to accept the suggested normalization of an address.
#[derive(Clone, Debug)]
pub struct AddressAcceptSuggestionRequest {
    /// The ID of the address.
    pub id: Option<String>,
}

impl Default for AddressAcceptSuggestionRequest {
    fn default() -> (r: Self)
        ensures
            r.id is None,
    {
        AddressAcceptSuggestionRequest { id: None }
    }
}

impl AddressAcceptSuggestionRequest {
    /// The string members of the request as sent.
    pub open spec fn wire_text(&self) -> Map<Seq<char>, Seq<char>> {
        with_opt(Map::<Seq<char>, Seq<char>>::empty(), "id"@, self.id)
    }

    /// The JSON object sent with the acceptance: `{}` when no id is set.
    pub fn to_json(&self) -> (r: JsonObject)
        ensures
            object_text(r) == self.wire_text(),
            object_keys(r) == self.wire_text().dom(),
            object_flags(r).dom() == Set::<Seq<char>>::empty(),
            object_ints(r).dom() == Set::<Seq<char>>::empty(),
    {
        let mut m = new_object();
        proof {
            assert(object_flags(m) =~= Map::<Seq<char>, bool>::empty());
            assert(object_ints(m) =~= Map::<Seq<char>, int>::empty());
        }
        put_opt_text(&mut m, "id", &self.id);
        assert(object_text(m) =~= self.wire_text());
        assert(object_keys(m) =~= self.wire_text().dom());
        m
    }
}

/// An optional field of a request that is left unset has no member in the
/// object sent, and one that is set has: unset fields are never written as
/// `null`.
pub proof fn lemma_unset_fields_absent(
    c: CreateAddressRequest,
    v: ValidateAddressRequest,
    a: AddressAcceptSuggestionRequest,
)
    ensures
        c.customer_reference is None <==> !c.wire_keys().contains("customer_reference"@),
        c.first_name is None <==> !c.wire_keys().contains("first_name"@),
        c.last_name is None <==> !c.wire_keys().contains("last_name"@),
        c.business_name is None <==> !c.wire_keys().contains("business_name"@),
        c.phone_number is None <==> !c.wire_keys().contains("phone_number"@),
        c.extended_address is None <==> !c.wire_keys().contains("extended_address"@),
        c.administrative_area is None <==> !c.wire_keys().contains("administrative_area"@),
        c.neighborhood is None <==> !c.wire_keys().contains("neighborhood"@),
        c.borough is None <==> !c.wire_keys().contains("borough"@),
        c.postal_code is None <==> !c.wire_keys().contains("postal_code"@),
        v.extended_address is None <==> !v.wire_text().dom().contains("extended_address"@),
        v.locality is None <==> !v.wire_text().dom().contains("locality"@),
        v.administrative_area is None <==> !v.wire_text().dom().contains("administrative_area"@),
        a.id is None <==> !a.wire_text().dom().contains("id"@),
{
    lemma_field_keys();
}

} // verus!
