use telnyx_rs::endpoints::{
    read_acceptance, read_address, read_address_list, read_deletion, read_validation,
};
use telnyx_rs::models::{
    AddressAcceptSuggestionRequest, AddressValidationStatus, CreateAddressRequest,
    ValidateAddressRequest,
};
use telnyx_rs::{Method, TelnyxClient, TelnyxError};

const BASE: &str = "http://127.0.0.1:8080";

fn test_client() -> TelnyxClient {
    TelnyxClient::builder()
        .api_key("test-api-key".to_string())
        .base_url(BASE.to_string())
        .build()
        .unwrap()
}

fn address_data(id: i64) -> String {
    format!(
        r#"{{"id":{},"record_type":"address","customer_reference":null,"first_name":"John","last_name":"Doe","business_name":null,"phone_number":null,"street_address":"311 W Superior St","extended_address":null,"locality":"Chicago","administrative_area":"IL","neighborhood":null,"borough":null,"postal_code":"60654","country_code":"US","address_book":false,"validate_address":false,"created_at":"2024-05-01T12:00:00+00:00","updated_at":"2024-05-01T12:00:00+00:00"}}"#,
        id
    )
}

fn address_response(id: i64) -> String {
    format!(r#"{{"data":{}}}"#, address_data(id))
}

fn address_list_response(ids: &[i64]) -> String {
    let items: Vec<String> = ids.iter().map(|id| address_data(*id)).collect();
    format!(
        r#"{{"data":[{}],"meta":{{"total_pages":1,"total_results":{},"page_number":1,"page_size":25}}}}"#,
        items.join(","),
        ids.len()
    )
}

fn validation_response(valid: bool) -> String {
    format!(
        r#"{{"data":{{"record_type":"address_validation","result":"{}","suggested":{{"street_address":"311 W SUPERIOR ST","locality":"CHICAGO","administrative_area":"IL","postal_code":"60654-3554","country_code":"US"}},"errors":[]}}}}"#,
        if valid { "valid" } else { "invalid" }
    )
}

fn accept_suggestion_response(id: &str) -> String {
    format!(r#"{{"data":{{"accepted":true,"id":"{}"}}}}"#, id)
}

fn is_api_status(err: &TelnyxError, expected: u16) -> bool {
    matches!(err, TelnyxError::Api { status, .. } if *status == expected)
}

#[test]
fn create_address_sucess() {
    let client = test_client();
    let request = CreateAddressRequest {
        administrative_area: Some("IL".to_string()),
        postal_code: Some("60654".to_string()),
        first_name: Some("John".to_string()),
        last_name: Some("Doe".to_string()),
        ..CreateAddressRequest::new(
            "311 W Superior St".to_string(),
            "Chicago".to_string(),
            "US".to_string(),
        )
    };

    let call = client.addresses().create(request);
    assert_eq!(call.method, Method::Post);
    assert_eq!(call.url, format!("{}/address", BASE));
    assert_eq!(call.bearer_token, "test-api-key");
    let sent = serde_json::Value::Object(call.body.unwrap());
    let expected: serde_json::Value = serde_json::from_str(
        r#"{"first_name":"John","last_name":"Doe","street_address":"311 W Superior St","locality":"Chicago","administrative_area":"IL","postal_code":"60654","country_code":"US","address_book":false,"validate_address":false}"#,
    )
    .unwrap();
    assert_eq!(sent, expected);

    let result = read_address(200, address_response(123456));
    assert!(result.is_ok());
    let address = result.unwrap().data;
    assert_eq!(address.id, 123456);
    assert_eq!(address.street_address, "311 W Superior St");
    assert_eq!(address.locality, "Chicago");
    assert_eq!(address.administrative_area, Some("IL".to_string()));
    assert_eq!(address.postal_code, Some("60654".to_string()));
    assert_eq!(address.country_code, "US");
    assert_eq!(address.first_name, Some("John".to_string()));
    assert_eq!(address.last_name, Some("Doe".to_string()));
}

#[test]
fn create_address_unauthorized() {
    let client = test_client();
    let request = CreateAddressRequest::new(
        "311 W Superior St".to_string(),
        "Chicago".to_string(),
        "US".to_string(),
    );
    let call = client.addresses().create(request);
    assert_eq!(call.url, format!("{}/address", BASE));

    let result = read_address(401, String::new());
    assert!(result.is_err());
    assert!(is_api_status(&result.unwrap_err(), 401));
}

#[test]
fn create_address_unprocessable() {
    let client = test_client();
    let request =
        CreateAddressRequest::new("Invalid".to_string(), "Nowhere".to_string(), "XX".to_string());
    let call = client.addresses().create(request);
    assert_eq!(call.method, Method::Post);
    assert_eq!(call.url, format!("{}/address", BASE));

    let result = read_address(422, String::new());
    assert!(result.is_err());
    assert!(is_api_status(&result.unwrap_err(), 422));
}

#[test]
fn get_address_unauthorized() {
    let client = test_client();
    let call = client.addresses().get("123");
    assert_eq!(call.method, Method::Get);
    assert_eq!(call.url, format!("{}/.address/123", BASE));

    let result = read_address(401, String::new());
    assert!(result.is_err());
    assert!(is_api_status(&result.unwrap_err(), 401));
}

#[test]
fn get_address_not_found() {
    let client = test_client();
    let call = client.addresses().get("nonexistent");
    assert_eq!(call.url, format!("{}/.address/nonexistent", BASE));

    let result = read_address(404, String::new());
    assert!(result.is_err());
    assert!(is_api_status(&result.unwrap_err(), 404));
}

#[test]
fn list_addresses_success() {
    let client = test_client();
    let call = client.addresses().list();
    assert_eq!(call.method, Method::Get);
    assert_eq!(call.url, format!("{}/addresses", BASE));
    assert_eq!(call.bearer_token, "test-api-key");
    assert!(call.body.is_none());

    let result = read_address_list(200, address_list_response(&[123, 456]));
    assert!(result.is_ok());
    let response = result.unwrap();
    assert_eq!(response.data.len(), 2);
    assert_eq!(response.data[0].id, 123);
    assert_eq!(response.data[1].id, 456);
    assert!(response.meta.is_some());
    let meta = response.meta.unwrap();
    assert_eq!(meta.total_results, 2);
    assert_eq!(meta.page_number, 1);
}

#[test]
fn list_addresses_empty() {
    let client = test_client();
    let call = client.addresses().list();
    assert_eq!(call.url, format!("{}/addresses", BASE));

    let result = read_address_list(200, address_list_response(&[]));
    assert!(result.is_ok());
    let response = result.unwrap();
    assert!(response.data.is_empty());
    assert!(response.meta.is_some());
    let meta = response.meta.unwrap();
    assert_eq!(meta.total_results, 0);
}

#[test]
fn list_addresses_unauthorized() {
    let result = read_address_list(401, String::new());
    assert!(result.is_err());
    assert!(is_api_status(&result.unwrap_err(), 401));
}

#[test]
fn delete_address_success() {
    let client = test_client();
    let call = client.addresses().delete("123");
    assert_eq!(call.method, Method::Delete);
    assert_eq!(call.url, format!("{}/.address/123", BASE));
    assert_eq!(call.bearer_token, "test-api-key");

    let result = read_deletion(200, String::new());
    assert!(result.is_ok());
}

#[test]
fn delete_address_unauthorized() {
    let client = test_client();
    let call = client.addresses().delete("123");
    assert_eq!(call.url, format!("{}/.address/123", BASE));

    let result = read_deletion(401, String::new());
    assert!(result.is_err());
    assert!(is_api_status(&result.unwrap_err(), 401));
}

#[test]
fn delete_address_not_found() {
    let client = test_client();
    let call = client.addresses().delete("nonexistent");
    assert_eq!(call.url, format!("{}/.address/nonexistent", BASE));

    let result = read_deletion(404, String::new());
    assert!(result.is_err());
    assert!(is_api_status(&result.unwrap_err(), 404));
}

#[test]
fn validate_address_valid() {
    let client = test_client();
    let request = ValidateAddressRequest::new(
        "311 W Superior St".to_string(),
        "60654".to_string(),
        "US".to_string(),
    );
    let call = client.addresses().validate(request);
    assert_eq!(call.method, Method::Post);
    assert_eq!(call.url, format!("{}/addresses/actions/validate", BASE));
    assert_eq!(call.bearer_token, "test-api-key");

    let result = read_validation(200, validation_response(true));
    assert!(result.is_ok());
    let validation = result.unwrap().data;
    assert_eq!(validation.result, AddressValidationStatus::Valid);
    assert_eq!(validation.suggested.street_address, Some("311 W SUPERIOR ST".to_string()));
}

#[test]
fn validate_address_invalid() {
    let client = test_client();
    let request =
        ValidateAddressRequest::new("123 Fake St".to_string(), "00000".to_string(), "US".to_string());
    let call = client.addresses().validate(request);
    assert_eq!(call.url, format!("{}/addresses/actions/validate", BASE));

    let result = read_validation(200, validation_response(false));
    assert!(result.is_ok());
    let validation = result.unwrap().data;
    assert_eq!(validation.result, AddressValidationStatus::Invalid);
}

#[test]
fn validate_address_unauthorized() {
    let result = read_validation(401, String::new());
    assert!(result.is_err());
    assert!(is_api_status(&result.unwrap_err(), 401));
}

#[test]
fn validate_address_unprocessable() {
    let client = test_client();
    let request =
        ValidateAddressRequest::new("Invalid".to_string(), "00000".to_string(), "XX".to_string());
    let call = client.addresses().validate(request);
    assert_eq!(call.url, format!("{}/addresses/actions/validate", BASE));

    let result = read_validation(422, String::new());
    assert!(result.is_err());
    assert!(is_api_status(&result.unwrap_err(), 422));
}

#[test]
fn accept_suggestions_success() {
    let client = test_client();
    let request = AddressAcceptSuggestionRequest::default();
    let call = client.addresses().accept_suggestions("123", request);
    assert_eq!(call.method, Method::Post);
    assert_eq!(call.url, format!("{}/addresses/123/actions/accept_suggestions", BASE));
    assert_eq!(call.bearer_token, "test-api-key");

    let result = read_acceptance(200, accept_suggestion_response("addr_123"));
    assert!(result.is_ok());
    let response = result.unwrap().data;
    assert!(response.accepted);
    assert_eq!(response.id, Some("addr_123".to_string()));
}

#[test]
fn accept_suggestions_unauthorized() {
    let result = read_acceptance(401, String::new());
    assert!(result.is_err());
    assert!(is_api_status(&result.unwrap_err(), 401));
}

#[test]
fn accept_suggestions_not_found() {
    let client = test_client();
    let call = client
        .addresses()
        .accept_suggestions("nonexistent", AddressAcceptSuggestionRequest::default());
    assert_eq!(call.url, format!("{}/addresses/nonexistent/actions/accept_suggestions", BASE));

    let result = read_acceptance(404, String::new());
    assert!(result.is_err());
    assert!(is_api_status(&result.unwrap_err(), 404));
}

#[test]
fn accept_suggestions_unprocessable() {
    let result = read_acceptance(422, String::new());
    assert!(result.is_err());
    assert!(is_api_status(&result.unwrap_err(), 422));
}
