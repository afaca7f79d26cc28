//! The envelopes around every payload: `{"data": ...}` for one item, and
//! `{"data": [...], "meta": {...}}` for a list.
use vstd::prelude::*;
use crate::error::TelnyxError;
use crate::json::{
    as_object, child_object, int_at, object_at, object_ints, shape_error, value_object, JsonObject,
};
use crate::models::address::{address_shape_ok, reads_address, Address};

verus! {

/// A response that carries one item.
#[derive(Clone, Debug)]
pub struct ApiResponse<T> {
    pub data: T,
}

/// Pagination metadata of a list, as the server reports it.
#[derive(Clone, Copy, Debug, PartialEq, Eq, Structural)]
pub struct PaginationMeta {
    pub total_pages: i64,
    pub total_results: i64,
    pub page_number: i64,
    pub page_size: i64,
}

/// A response that carries a list of items.
#[derive(Clone, Debug)]
pub struct ApiListResponse<T> {
    pub data: Vec<T>,
    pub meta: Option<PaginationMeta>,
}

/// An object holds the four integers of pagination metadata.
pub open spec fn meta_shape_ok(m: JsonObject) -> bool {
    let n = object_ints(m);
    &&& n.contains_key("total_pages"@)
    &&& n.contains_key("total_results"@)
    &&& n.contains_key("page_number"@)
    &&& n.contains_key("page_size"@)
}

/// `p` holds the four integers of the object.
pub open spec fn reads_meta(p: PaginationMeta, m: JsonObject) -> bool {
    let n = object_ints(m);
    &&& p.total_pages as int == n["total_pages"@]
    &&& p.total_results as int == n["total_results"@]
    &&& p.page_number as int == n["page_number"@]
    &&& p.page_size as int == n["page_size"@]
}

/// The object under `"data"` of a document, where the document is an object
/// and holds one there.
pub open spec fn document_data(doc: serde_json::Value) -> Option<JsonObject> {
    match value_object(doc) {
        Some(top) => child_object(top, "data"@),
        None => None,
    }
}

/// Reads a required integer member.
fn required_int(m: &JsonObject, k: &str) -> (r: Result<i64, TelnyxError>)
    ensures
        r is Ok <==> object_ints(*m).contains_key(k@),
        r matches Ok(i) ==> i as int == object_ints(*m)[k@],
        r is Err ==> r matches Err(TelnyxError::Parse(_)),
{
    match int_at(m, k) {
        Some(i) => Ok(i),
        None => Err(TelnyxError::Parse(shape_error(k))),
    }
}

impl PaginationMeta {
    /// Reads pagination metadata; all four members are required integers.
    pub fn from_json(m: &JsonObject) -> (r: Result<Self, TelnyxError>)
        ensures
            r is Ok <==> meta_shape_ok(*m),
            r matches Ok(p) ==> reads_meta(p, *m),
            r is Err ==> r matches Err(TelnyxError::Parse(_)),
    {
        let total_pages = required_int(m, "total_pages")?;
        let total_results = required_int(m, "total_results")?;
        let page_number = required_int(m, "page_number")?;
        let page_size = required_int(m, "page_size")?;
        Ok(PaginationMeta { total_pages, total_results, page_number, page_size })
    }
}

/// The object under `"data"` in a response document.
pub fn data_object(doc: &serde_json::Value) -> (r: Result<JsonObject, TelnyxError>)
    ensures
        r is Ok <==> document_data(*doc) is Some,
        r matches Ok(o) ==> document_data(*doc) == Some(o),
        r is Err ==> r matches Err(TelnyxError::Parse(_)),
{
    let top = match as_object(doc) {
        Some(o) => o,
        None => return Err(TelnyxError::Parse(shape_error("data"))),
    };
    match object_at(&top, "data") {
        Some(o) => Ok(o),
        None => Err(TelnyxError::Parse(shape_error("data"))),
    }
}

impl ApiListResponse<Address> {
    /// Reads a list of addresses from its item objects, with the metadata
    /// already read.
    ///
    /// Succeeds exactly when every item is an address; an empty list of items
    /// gives an empty list.
    pub fn from_items(items: &Vec<JsonObject>, meta: Option<PaginationMeta>) -> (r: Result<
        Self,
        TelnyxError,
    >)
        ensures
            r is Ok <==> forall|i: int| 0 <= i < items.len() ==> address_shape_ok(#[trigger] items[i]),
            items.len() == 0 ==> (r matches Ok(l) && l.data.len() == 0 && l.meta == meta),
            r matches Ok(l) ==> {
                &&& l.data.len() == items.len()
                &&& forall|i: int| 0 <= i < items.len() ==> reads_address(#[trigger] l.data[i], items[i])
                &&& l.meta == meta
            },
            r is Err ==> r matches Err(TelnyxError::Parse(_)),
    {
        let mut data: Vec<Address> = Vec::new();
        let mut i: usize = 0;
        while i < items.len()
            invariant
                i <= items.len(),
                data.len() == i,
                forall|j: int| 0 <= j < i ==> address_shape_ok(#[trigger] items[j]),
                forall|j: int| 0 <= j < i ==> reads_address(#[trigger] data[j], items[j]),
            decreases items.len() - i,
        {
            let a = Address::from_json(&items[i])?;
            data.push(a);
            i = i + 1;
        }
        Ok(ApiListResponse { data, meta })
    }
}

} // verus!
