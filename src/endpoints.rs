//! The address operations: each binds an HTTP method and a path to the
//! request it sends, and reads the response into its model.
use vstd::prelude::*;
use crate::client::TelnyxClient;
use crate::error::TelnyxError;
use crate::json::{
    array_at, as_object, child_array, child_object, is_json_text, json_value, object_at,
    object_flags, object_keys, object_text, shape_error, value_object, JsonObject,
};
use crate::models::address::{address_shape_ok, reads_address, Address};
use crate::models::envelope::{
    data_object, document_data, meta_shape_ok, reads_meta, ApiListResponse, ApiResponse,
    PaginationMeta,
};
use crate::models::requests::{
    AddressAcceptSuggestionRequest, CreateAddressRequest, ValidateAddressRequest,
};
use crate::models::validation::{
    acceptance_shape_ok, reads_acceptance, reads_validation, validation_shape_ok, AddressAcceptSuggestionResult,
    ValidateAddressResult,
};
use crate::transport::{empty_response, is_api_error, is_success_spec, parse_response};

verus! {

/// The operations on addresses of one client.
pub struct AddressApi<'a> {
    pub client: &'a TelnyxClient,
}

/// The HTTP methods the API is called with.
#[derive(Clone, Copy, Debug, PartialEq, Eq, Structural)]
pub enum Method {
    Get,
    Post,
    Put,
    Patch,
    Delete,
}

/// One call to send: method, full URL, bearer token, and the JSON object of
/// the body where the call has one.
#[derive(Clone, Debug)]
pub struct ApiRequest {
    pub method: Method,
    pub url: String,
    pub bearer_token: String,
    pub body: Option<JsonObject>,
}

/// The path of the address collection.
pub open spec fn collection_path() -> Seq<char> {
    "/addresses"@
}

/// The path to which new addresses are posted.
pub open spec fn create_path() -> Seq<char> {
    "/address"@
}

/// The path of one address, for reading and deleting it.
pub open spec fn item_path(id: Seq<char>) -> Seq<char> {
    "/.address/"@ + id
}

/// The path of the validation action.
pub open spec fn validate_path() -> Seq<char> {
    "/addresses/actions/validate"@
}

/// The path of the action that accepts the suggestions for one address.
pub open spec fn accept_path(id: Seq<char>) -> Seq<char> {
    "/addresses/"@ + id + "/actions/accept_suggestions"@
}

/// The outcome of reading a response: the `Api` error of its status when that
/// is not 2xx, a `Parse` error when a 2xx body is not JSON, and otherwise the
/// payload or a `Parse` error.
pub open spec fn read_outcome<T>(r: Result<T, TelnyxError>, status: u16, body: Seq<char>) -> bool {
    &&& !is_success_spec(status) ==> is_api_error(r, status, body)
    &&& is_success_spec(status) && !is_json_text(body) ==> (r matches Err(TelnyxError::Parse(_)))
    &&& is_success_spec(status) ==> (r is Ok || (r matches Err(TelnyxError::Parse(_))))
}

/// Every element is an object that holds an address.
pub open spec fn items_are_addresses(items: Seq<serde_json::Value>) -> bool {
    forall|i: int|
        0 <= i < items.len() ==> (#[trigger] value_object(items[i])) is Some && address_shape_ok(
            value_object(items[i]).unwrap(),
        )
}

/// A list document holds an array of addresses under `"data"`, and, where it
/// holds an object under `"meta"`, pagination metadata there.
pub open spec fn list_shape_ok(top: JsonObject) -> bool {
    &&& child_array(top, "data"@) is Some
    &&& items_are_addresses(child_array(top, "data"@).unwrap())
    &&& child_object(top, "meta"@) is Some ==> meta_shape_ok(child_object(top, "meta"@).unwrap())
}

/// `l` holds, in order, the addresses of the document's `"data"` array, and
/// its metadata where the document has a `"meta"` object.
pub open spec fn reads_list(l: ApiListResponse<Address>, top: JsonObject) -> bool {
    let items = child_array(top, "data"@).unwrap();
    &&& l.data.len() == items.len()
    &&& forall|i: int|
        0 <= i < items.len() ==> reads_address(#[trigger] l.data[i], value_object(items[i]).unwrap())
    &&& match child_object(top, "meta"@) {
        Some(mo) => l.meta is Some && reads_meta(l.meta.unwrap(), mo),
        None => l.meta is None,
    }
}

impl<'a> AddressApi<'a> {
    /// The operations on addresses of `client`.
    pub fn new(client: &'a TelnyxClient) -> (r: Self)
        ensures
            r.client == client,
    {
        AddressApi { client }
    }

    /// A call without a body.
    fn bodiless(&self, method: Method, path: &str) -> (r: ApiRequest)
        ensures
            r.method == method,
            r.url@ == self.client.base_url@ + path@,
            r.bearer_token == self.client.api_key,
            r.body is None,
    {
        ApiRequest {
            method,
            url: self.client.url_for(path),
            bearer_token: self.client.api_key.clone(),
            body: None,
        }
    }

    /// A call with a JSON body.
    fn with_body(&self, method: Method, path: &str, body: JsonObject) -> (r: ApiRequest)
        ensures
            r.method == method,
            r.url@ == self.client.base_url@ + path@,
            r.bearer_token == self.client.api_key,
            r.body == Some(body),
    {
        ApiRequest {
            method,
            url: self.client.url_for(path),
            bearer_token: self.client.api_key.clone(),
            body: Some(body),
        }
    }

    /// Lists all addresses: `GET /addresses`.
    pub fn list(&self) -> (r: ApiRequest)
        ensures
            r.method == Method::Get,
            r.url@ == self.client.base_url@ + collection_path(),
            r.bearer_token == self.client.api_key,
            r.body is None,
    {
        self.bodiless(Method::Get, "/addresses")
    }

    /// Gets an address by id: `GET /.address/{id}`.
    pub fn get(&self, id: &str) -> (r: ApiRequest)
        ensures
            r.method == Method::Get,
            r.url@ == self.client.base_url@ + item_path(id@),
            r.bearer_token == self.client.api_key,
            r.body is None,
    {
        let mut path = "/.address/".to_string();
        path.append(id);
        self.bodiless(Method::Get, path.as_str())
    }

    /// Creates an address: `POST /address` with the request's object.
    pub fn create(&self, request: CreateAddressRequest) -> (r: ApiRequest)
        ensures
            r.method == Method::Post,
            r.url@ == self.client.base_url@ + create_path(),
            r.bearer_token == self.client.api_key,
            r.body matches Some(b) && object_text(b) == request.wire_text() && object_keys(b)
                == request.wire_keys() && object_flags(b) == request.wire_flags(),
    {
        self.with_body(Method::Post, "/address", request.to_json())
    }

    /// Deletes an address: `DELETE /.address/{id}`.
    pub fn delete(&self, id: &str) -> (r: ApiRequest)
        ensures
            r.method == Method::Delete,
            r.url@ == self.client.base_url@ + item_path(id@),
            r.bearer_token == self.client.api_key,
            r.body is None,
    {
        let mut path = "/.address/".to_string();
        path.append(id);
        self.bodiless(Method::Delete, path.as_str())
    }

    /// Validates an address: `POST /addresses/actions/validate`.
    pub fn validate(&self, request: ValidateAddressRequest) -> (r: ApiRequest)
        ensures
            r.method == Method::Post,
            r.url@ == self.client.base_url@ + validate_path(),
            r.bearer_token == self.client.api_key,
            r.body matches Some(b) && object_text(b) == request.wire_text() && object_keys(b)
                == request.wire_text().dom(),
    {
        self.with_body(Method::Post, "/addresses/actions/validate", request.to_json())
    }

    /// Accepts the suggestions for an address:
    /// `POST /addresses/{id}/actions/accept_suggestions`.
    pub fn accept_suggestions(&self, id: &str, request: AddressAcceptSuggestionRequest) -> (r:
        ApiRequest)
        ensures
            r.method == Method::Post,
            r.url@ == self.client.base_url@ + accept_path(id@),
            r.bearer_token == self.client.api_key,
            r.body matches Some(b) && object_text(b) == request.wire_text() && object_keys(b)
                == request.wire_text().dom(),
    {
        let mut path = "/addresses/".to_string();
        path.append(id);
        path.append("/actions/accept_suggestions");
        self.with_body(Method::Post, path.as_str(), request.to_json())
    }
}

/// Reads the response to `get` or `create`: one address under `"data"`.
pub fn read_address(status: u16, body: String) -> (r: Result<ApiResponse<Address>, TelnyxError>)
    ensures
        read_outcome(r, status, body@),
        is_success_spec(status) && is_json_text(body@) ==> match document_data(json_value(body@)) {
            Some(d) => (r is Ok <==> address_shape_ok(d)) && (r is Ok ==> reads_address(
                r.unwrap().data,
                d,
            )),
            None => r is Err,
        },
{
    let doc = parse_response(status, body)?;
    let o = data_object(&doc)?;
    let data = Address::from_json(&o)?;
    Ok(ApiResponse { data })
}

/// Reads the elements of a JSON array that must all be objects.
fn objects_of(items: &Vec<serde_json::Value>) -> (r: Result<Vec<JsonObject>, TelnyxError>)
    ensures
        r is Ok <==> forall|i: int| 0 <= i < items.len() ==> (#[trigger] value_object(items@[i])) is Some,
        r matches Ok(os) ==> os.len() == items.len() && forall|i: int|
            0 <= i < items.len() ==> Some(#[trigger] os@[i]) == value_object(items@[i]),
        r is Err ==> r matches Err(TelnyxError::Parse(_)),
{
    let mut out: Vec<JsonObject> = Vec::new();
    let mut i: usize = 0;
    while i < items.len()
        invariant
            i <= items.len(),
            out.len() == i,
            forall|j: int| 0 <= j < i ==> (#[trigger] value_object(items@[j])) is Some,
            forall|j: int| 0 <= j < i ==> Some(#[trigger] out@[j]) == value_object(items@[j]),
        decreases items.len() - i,
    {
        match as_object(&items[i]) {
            Some(o) => out.push(o),
            None => return Err(TelnyxError::Parse(shape_error("data"))),
        }
        i = i + 1;
    }
    Ok(out)
}

/// Reads the response to `list`: an array of addresses under `"data"`, and
/// the pagination metadata under `"meta"` where it is an object.
pub fn read_address_list(status: u16, body: String) -> (r: Result<
    ApiListResponse<Address>,
    TelnyxError,
>)
    ensures
        read_outcome(r, status, body@),
        is_success_spec(status) && is_json_text(body@) ==> match value_object(json_value(body@)) {
            Some(top) => (r is Ok <==> list_shape_ok(top)) && (r is Ok ==> reads_list(
                r.unwrap(),
                top,
            )),
            None => r is Err,
        },
{
    let doc = parse_response(status, body)?;
    let top = match as_object(&doc) {
        Some(o) => o,
        None => return Err(TelnyxError::Parse(shape_error("data"))),
    };
    let items = match array_at(&top, "data") {
        Some(a) => a,
        None => return Err(TelnyxError::Parse(shape_error("data"))),
    };
    let objects = objects_of(&items)?;
    let meta = match object_at(&top, "meta") {
        Some(o) => Some(PaginationMeta::from_json(&o)?),
        None => None,
    };
    let r = ApiListResponse::from_items(&objects, meta);
    assert(items_are_addresses(items@) <==> forall|i: int|
        0 <= i < objects.len() ==> address_shape_ok(#[trigger] objects@[i])) by {
        if items_are_addresses(items@) {
            assert forall|i: int| 0 <= i < objects.len() implies address_shape_ok(
                #[trigger] objects@[i],
            ) by {
                assert(Some(objects@[i]) == value_object(items@[i]));
            }
        } else {
            let i = choose|i: int|
                0 <= i < items.len() && !((#[trigger] value_object(items@[i])) is Some
                    && address_shape_ok(value_object(items@[i]).unwrap()));
            assert(Some(objects@[i]) == value_object(items@[i]));
        }
    }
    r
}

/// Reads the response to `validate`: a validation result under `"data"`.
pub fn read_validation(status: u16, body: String) -> (r: Result<
    ApiResponse<ValidateAddressResult>,
    TelnyxError,
>)
    ensures
        read_outcome(r, status, body@),
        is_success_spec(status) && is_json_text(body@) ==> match document_data(json_value(body@)) {
            Some(d) => (r is Ok <==> validation_shape_ok(d)) && (r is Ok ==> reads_validation(
                r.unwrap().data,
                d,
            )),
            None => r is Err,
        },
{
    let doc = parse_response(status, body)?;
    let o = data_object(&doc)?;
    let data = ValidateAddressResult::from_json(&o)?;
    Ok(ApiResponse { data })
}

/// Reads the response to `accept_suggestions`: the answer under `"data"`.
pub fn read_acceptance(status: u16, body: String) -> (r: Result<
    ApiResponse<AddressAcceptSuggestionResult>,
    TelnyxError,
>)
    ensures
        read_outcome(r, status, body@),
        is_success_spec(status) && is_json_text(body@) ==> match document_data(json_value(body@)) {
            Some(d) => (r is Ok <==> acceptance_shape_ok(d)) && (r is Ok ==> reads_acceptance(
                r.unwrap().data,
                d,
            )),
            None => r is Err,
        },
{
    let doc = parse_response(status, body)?;
    let o = data_object(&doc)?;
    let data = AddressAcceptSuggestionResult::from_json(&o)?;
    Ok(ApiResponse { data })
}

/// Reads the response to `delete`: no payload on success.
pub fn read_deletion(status: u16, body: String) -> (r: Result<(), TelnyxError>)
    ensures
        is_success_spec(status) ==> r is Ok,
        !is_success_spec(status) ==> is_api_error(r, status, body@),
{
    empty_response(status, body)
}

} // verus!
