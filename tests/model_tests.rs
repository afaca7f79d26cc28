use std::time::Duration;

use telnyx_rs::client::{DEFAULT_BASE_URL, DEFAULT_TIMEOUT_SECS};
use telnyx_rs::endpoints::{read_address, read_address_list, read_deletion, read_validation};
use telnyx_rs::models::{
    Address, AddressAcceptSuggestionRequest, AddressAcceptSuggestionResult,
    AddressValidationStatus, ApiListResponse, CreateAddressRequest, PaginationMeta, Timestamp,
    ValidateAddressRequest, ValidateAddressResult,
};
use telnyx_rs::transport::{check_status, empty_response, is_success, parse_response};
use telnyx_rs::{TelnyxClient, TelnyxError};

fn object(text: &str) -> serde_json::Map<String, serde_json::Value> {
    match serde_json::from_str::<serde_json::Value>(text).unwrap() {
        serde_json::Value::Object(m) => m,
        _ => panic!("not an object"),
    }
}

fn keys(m: &serde_json::Map<String, serde_json::Value>) -> Vec<String> {
    let mut k: Vec<String> = m.keys().cloned().collect();
    k.sort();
    k
}

#[test]
fn unset_optional_fields_are_absent() {
    let request = CreateAddressRequest::new(
        "311 W Superior St".to_string(),
        "Chicago".to_string(),
        "US".to_string(),
    );
    let m = request.to_json();
    assert_eq!(
        keys(&m),
        vec!["address_book", "country_code", "locality", "street_address", "validate_address"]
    );
    assert!(!m.contains_key("first_name"));
    assert!(!m.values().any(|v| v.is_null()));
}

#[test]
fn set_optional_fields_are_present() {
    let request = CreateAddressRequest {
        borough: Some("Manhattan".to_string()),
        address_book: true,
        ..CreateAddressRequest::new("1 Main St".to_string(), "New York".to_string(), "US".to_string())
    };
    let m = request.to_json();
    assert_eq!(m.get("borough"), Some(&serde_json::Value::String("Manhattan".to_string())));
    assert_eq!(m.get("address_book"), Some(&serde_json::Value::Bool(true)));
    assert_eq!(m.get("validate_address"), Some(&serde_json::Value::Bool(false)));
    assert_eq!(m.len(), 6);
}

#[test]
fn validate_request_carries_only_set_fields() {
    let mut request =
        ValidateAddressRequest::new("311 W Superior St".to_string(), "60654".to_string(), "US".to_string());
    assert_eq!(keys(&request.to_json()), vec!["country_code", "postal_code", "street_address"]);
    request.locality = Some("Chicago".to_string());
    let m = request.to_json();
    assert_eq!(m.get("locality"), Some(&serde_json::Value::String("Chicago".to_string())));
    assert_eq!(m.len(), 4);
}

#[test]
fn accept_request_object() {
    assert!(AddressAcceptSuggestionRequest::default().to_json().is_empty());
    let m = AddressAcceptSuggestionRequest { id: Some("addr_9".to_string()) }.to_json();
    assert_eq!(serde_json::Value::Object(m), serde_json::from_str::<serde_json::Value>(r#"{"id":"addr_9"}"#).unwrap());
}

#[test]
fn create_round_trip_scenario() {
    let request = CreateAddressRequest {
        administrative_area: Some("IL".to_string()),
        postal_code: Some("60654".to_string()),
        ..CreateAddressRequest::new(
            "311 W Superior St".to_string(),
            "Chicago".to_string(),
            "US".to_string(),
        )
    };
    let mut echoed = request.to_json();
    echoed.insert("id".to_string(), serde_json::Value::from(123456));
    echoed.insert("record_type".to_string(), serde_json::Value::from("address"));
    echoed.insert("created_at".to_string(), serde_json::Value::from("2024-05-01T12:00:00Z"));
    echoed.insert("updated_at".to_string(), serde_json::Value::from("2024-05-02T12:00:00.5Z"));
    let body = format!(r#"{{"data":{}}}"#, serde_json::Value::Object(echoed));

    let address = read_address(201, body).unwrap().data;
    assert_eq!(address.id, 123456);
    assert_eq!(address.record_type, "address");
    assert_eq!(address.street_address, "311 W Superior St");
    assert_eq!(address.locality, "Chicago");
    assert_eq!(address.country_code, "US");
    assert_eq!(address.administrative_area, Some("IL".to_string()));
    assert_eq!(address.postal_code, Some("60654".to_string()));
    assert_eq!(address.first_name, None);
    assert!(!address.address_book);
    assert_eq!(address.created_at, Timestamp { seconds: 1714564800, nanos: 0 });
    assert_eq!(address.updated_at, Timestamp { seconds: 1714651200, nanos: 500_000_000 });
}

#[test]
fn timestamp_with_offset() {
    let m = object(
        r#"{"id":1,"record_type":"address","street_address":"a","locality":"b","country_code":"US","created_at":"2024-05-01T14:00:00+02:00","updated_at":"1970-01-01T00:00:00Z"}"#,
    );
    let a = Address::from_json(&m).unwrap();
    assert_eq!(a.created_at.seconds, 1714564800);
    assert_eq!(a.updated_at, Timestamp { seconds: 0, nanos: 0 });
    assert!(!a.validate_address);
    assert_eq!(a.customer_reference, None);
}

#[test]
fn address_missing_member_is_parse_error() {
    let m = object(
        r#"{"record_type":"address","street_address":"a","locality":"b","country_code":"US","created_at":"2024-05-01T14:00:00Z","updated_at":"2024-05-01T14:00:00Z"}"#,
    );
    assert!(matches!(Address::from_json(&m), Err(TelnyxError::Parse(_))));
}

#[test]
fn address_bad_timestamp_is_parse_error() {
    let m = object(
        r#"{"id":1,"record_type":"address","street_address":"a","locality":"b","country_code":"US","created_at":"yesterday","updated_at":"2024-05-01T14:00:00Z"}"#,
    );
    assert!(matches!(Address::from_json(&m), Err(TelnyxError::Parse(_))));
}

#[test]
fn success_with_non_json_body_is_parse_error() {
    assert!(matches!(read_address(200, "not json".to_string()), Err(TelnyxError::Parse(_))));
    assert!(matches!(parse_response(200, String::new()), Err(TelnyxError::Parse(_))));
}

#[test]
fn success_with_wrong_shape_is_parse_error() {
    assert!(matches!(read_address(200, r#"{"data":{}}"#.to_string()), Err(TelnyxError::Parse(_))));
    assert!(matches!(read_address(200, "[]".to_string()), Err(TelnyxError::Parse(_))));
    assert!(matches!(read_address_list(200, r#"{"data":{}}"#.to_string()), Err(TelnyxError::Parse(_))));
}

#[test]
fn api_error_keeps_status_and_body() {
    match check_status(404, "no such address".to_string()) {
        Err(TelnyxError::Api { status, message }) => {
            assert_eq!(status, 404);
            assert_eq!(message, "no such address");
        }
        _ => panic!("expected an Api error"),
    }
    assert_eq!(check_status(200, "body".to_string()).unwrap(), "body");
    let e = read_address(500, String::new()).unwrap_err();
    assert_eq!(e.status(), Some(500));
    assert!(matches!(e, TelnyxError::Api { ref message, .. } if message.is_empty()));
}

#[test]
fn success_range_bounds() {
    assert!(!is_success(199));
    assert!(is_success(200));
    assert!(is_success(204));
    assert!(is_success(299));
    assert!(!is_success(300));
    assert!(!is_success(401));
}

#[test]
fn deletion_outcomes() {
    assert!(read_deletion(204, String::new()).is_ok());
    assert!(empty_response(200, "ignored".to_string()).is_ok());
    let e = read_deletion(404, "gone".to_string()).unwrap_err();
    assert_eq!(e.status(), Some(404));
}

#[test]
fn status_wire_values() {
    assert_eq!(AddressValidationStatus::from_wire("valid"), AddressValidationStatus::Valid);
    assert_eq!(AddressValidationStatus::from_wire("invalid"), AddressValidationStatus::Invalid);
    assert_eq!(AddressValidationStatus::from_wire("pending"), AddressValidationStatus::Unknown);
    assert_eq!(AddressValidationStatus::from_wire("Valid"), AddressValidationStatus::Unknown);
    assert_eq!(AddressValidationStatus::default(), AddressValidationStatus::Unknown);
}

#[test]
fn unrecognized_result_decodes_to_unknown() {
    let body = r#"{"data":{"record_type":"address_validation","result":"needs_review","suggested":{}}}"#;
    let v = read_validation(200, body.to_string()).unwrap().data;
    assert_eq!(v.result, AddressValidationStatus::Unknown);
    assert_eq!(v.record_type, "address_validation");
    assert!(v.errors.is_empty());
    assert_eq!(v.suggested.locality, None);
}

#[test]
fn validation_errors_are_read() {
    let m = object(
        r#"{"record_type":"address_validation","result":"invalid","suggested":{"postal_code":"00000"},"errors":[{"code":"10015","title":"Invalid postal code","detail":"No such code","source":{"pointer":"/postal_code"}},{"code":"10002","title":"Bad","source":null}]}"#,
    );
    let v = ValidateAddressResult::from_json(&m).unwrap();
    assert_eq!(v.result, AddressValidationStatus::Invalid);
    assert_eq!(v.suggested.postal_code, Some("00000".to_string()));
    assert_eq!(v.errors.len(), 2);
    assert_eq!(v.errors[0].code, "10015");
    assert_eq!(v.errors[0].detail, Some("No such code".to_string()));
    let source = v.errors[0].source.clone().unwrap();
    assert_eq!(source.pointer, Some("/postal_code".to_string()));
    assert_eq!(source.parameter, None);
    assert!(v.errors[1].source.is_none());
}

#[test]
fn validation_without_suggestion_is_parse_error() {
    let m = object(r#"{"record_type":"address_validation","result":"valid"}"#);
    assert!(matches!(ValidateAddressResult::from_json(&m), Err(TelnyxError::Parse(_))));
}

#[test]
fn acceptance_defaults() {
    let r = AddressAcceptSuggestionResult::from_json(&object("{}")).unwrap();
    assert!(!r.accepted);
    assert_eq!(r.id, None);
}

#[test]
fn pagination_meta_requires_all_members() {
    let m = object(r#"{"total_pages":3,"total_results":61,"page_number":2,"page_size":25}"#);
    assert_eq!(
        PaginationMeta::from_json(&m).unwrap(),
        PaginationMeta { total_pages: 3, total_results: 61, page_number: 2, page_size: 25 }
    );
    let m = object(r#"{"total_pages":3,"page_number":2,"page_size":25}"#);
    assert!(matches!(PaginationMeta::from_json(&m), Err(TelnyxError::Parse(_))));
}

#[test]
fn empty_items_give_empty_list() {
    let meta = PaginationMeta { total_pages: 0, total_results: 0, page_number: 1, page_size: 25 };
    let l = ApiListResponse::from_items(&Vec::new(), Some(meta)).unwrap();
    assert!(l.data.is_empty());
    assert_eq!(l.meta, Some(meta));
}

#[test]
fn list_without_meta() {
    let l = read_address_list(200, r#"{"data":[]}"#.to_string()).unwrap();
    assert!(l.data.is_empty());
    assert!(l.meta.is_none());
}

#[test]
fn build_without_api_key_is_config_error() {
    let r = TelnyxClient::builder().base_url("http://localhost".to_string()).build();
    match r {
        Err(TelnyxError::Config(m)) => assert_eq!(m, "API key is required"),
        _ => panic!("expected a Config error"),
    }
}

#[test]
fn build_defaults() {
    let c = TelnyxClient::builder().api_key("k".to_string()).build().unwrap();
    assert_eq!(c.api_key, "k");
    assert_eq!(c.base_url, DEFAULT_BASE_URL);
    assert_eq!(c.base_url, "https://api.telnyx.com/v2");
    assert_eq!(c.timeout, Duration::from_secs(DEFAULT_TIMEOUT_SECS));
    assert_eq!(c.timeout, Duration::from_secs(30));
    assert_eq!(c.url_for("/addresses"), "https://api.telnyx.com/v2/addresses");
}

#[test]
fn build_with_settings() {
    let c = TelnyxClient::builder()
        .timeout(Duration::from_millis(1500))
        .api_key("k".to_string())
        .base_url("http://localhost:9".to_string())
        .build()
        .unwrap();
    assert_eq!(c.timeout, Duration::from_millis(1500));
    assert_eq!(c.base_url, "http://localhost:9");
}

#[test]
fn optional_member_of_wrong_type_is_parse_error() {
    let m = object(
        r#"{"id":1,"record_type":"address","first_name":7,"street_address":"a","locality":"b","country_code":"US","created_at":"2024-05-01T14:00:00Z","updated_at":"2024-05-01T14:00:00Z"}"#,
    );
    assert!(matches!(Address::from_json(&m), Err(TelnyxError::Parse(_))));
    let m = object(
        r#"{"id":1,"record_type":"address","address_book":null,"street_address":"a","locality":"b","country_code":"US","created_at":"2024-05-01T14:00:00Z","updated_at":"2024-05-01T14:00:00Z"}"#,
    );
    assert!(matches!(Address::from_json(&m), Err(TelnyxError::Parse(_))));
    assert!(matches!(
        AddressAcceptSuggestionResult::from_json(&object(r#"{"accepted":"yes"}"#)),
        Err(TelnyxError::Parse(_))
    ));
}

#[test]
fn null_optional_members_read_as_unset() {
    let r = AddressAcceptSuggestionResult::from_json(&object(r#"{"accepted":true,"id":null}"#)).unwrap();
    assert!(r.accepted);
    assert_eq!(r.id, None);
    let m = object(
        r#"{"record_type":"address_validation","result":"valid","suggested":{"locality":null,"country_code":"US"},"errors":[{"code":"1","title":"t","detail":null}]}"#,
    );
    let v = ValidateAddressResult::from_json(&m).unwrap();
    assert_eq!(v.suggested.locality, None);
    assert_eq!(v.suggested.country_code, Some("US".to_string()));
    assert_eq!(v.errors[0].detail, None);
    assert!(v.errors[0].source.is_none());
}

#[test]
fn error_source_of_wrong_type_is_parse_error() {
    let m = object(
        r#"{"record_type":"address_validation","result":"invalid","suggested":{},"errors":[{"code":"1","title":"t","source":"body"}]}"#,
    );
    assert!(matches!(ValidateAddressResult::from_json(&m), Err(TelnyxError::Parse(_))));
}

#[test]
fn get_uses_the_dotted_item_path() {
    let c = TelnyxClient::builder()
        .api_key("k".to_string())
        .base_url("http://h".to_string())
        .build()
        .unwrap();
    let call = c.addresses().get("42");
    assert_eq!(call.url, "http://h/.address/42");
    assert_eq!(c.addresses().delete("42").url, "http://h/.address/42");
}
