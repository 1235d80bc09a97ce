use hcop::payload::{build_create_task_payload, build_task_data_payload, build_user_data_payload};
use hcop::{Delivery, Hcop, Request};
use serde_json::Value;

fn parsed(text: &str) -> Value {
    serde_json::from_str(text).unwrap()
}

fn header_pairs(request: &Request) -> Vec<(String, String)> {
    request
        .headers
        .iter()
        .map(|header| (header.name.clone(), header.value.clone()))
        .collect()
}

fn standard_headers() -> Vec<(String, String)> {
    vec![
        ("Content-Type".to_string(), "application/json".to_string()),
        ("User-Agent".to_string(), "HCop/rust".to_string()),
    ]
}

#[test]
fn create_task_payload_without_rqdata_omits_the_field() {
    let payload = build_create_task_payload(
        "KEY",
        "site-key".to_string(),
        "example.com".to_string(),
        "1.2.3.4:8080".to_string(),
        None,
    );
    assert_eq!(
        payload,
        parsed(
            r#"{"task_type":"hcaptchaEnterprise","api_key":"KEY",
                "data":{"sitekey":"site-key","url":"example.com","proxy":"1.2.3.4:8080"}}"#
        )
    );
    let details = payload.get("data").unwrap().as_object().unwrap();
    assert!(!details.contains_key("rqdata"));
    assert_eq!(details.len(), 3);
    assert!(!serde_json::to_string(&payload).unwrap().contains("rqdata"));
}

#[test]
fn create_task_payload_with_rqdata_sends_it_verbatim() {
    let payload = build_create_task_payload(
        "KEY",
        "site-key".to_string(),
        "example.com".to_string(),
        "1.2.3.4:8080".to_string(),
        Some("x".to_string()),
    );
    assert_eq!(payload["data"]["rqdata"], Value::String("x".to_string()));
    assert_eq!(
        payload,
        parsed(
            r#"{"task_type":"hcaptchaEnterprise","api_key":"KEY",
                "data":{"sitekey":"site-key","url":"example.com","proxy":"1.2.3.4:8080",
                        "rqdata":"x"}}"#
        )
    );
}

#[test]
fn rqdata_is_not_interpreted() {
    let odd = "{\"not\": \"parsed\"}\n\u{00e9}";
    let payload = build_create_task_payload(
        "KEY",
        String::new(),
        String::new(),
        String::new(),
        Some(odd.to_string()),
    );
    assert_eq!(payload["data"]["rqdata"].as_str(), Some(odd));
    let empty = build_create_task_payload(
        "KEY",
        String::new(),
        String::new(),
        String::new(),
        Some(String::new()),
    );
    assert_eq!(empty["data"]["rqdata"], Value::String(String::new()));
}

#[test]
fn task_data_payload_names_key_and_task() {
    assert_eq!(
        build_task_data_payload("KEY", "abc123"),
        parsed(r#"{"api_key":"KEY","task_id":"abc123"}"#)
    );
}

#[test]
fn user_data_payload_names_the_key_only() {
    assert_eq!(build_user_data_payload("KEY"), parsed(r#"{"api_key":"KEY"}"#));
}

#[test]
fn create_task_request_goes_to_its_endpoint() {
    let client = Hcop::new("KEY".to_string());
    let request = client.create_hcaptcha_task_request(
        "site-key".to_string(),
        "example.com".to_string(),
        "proxy".to_string(),
        Some("rq".to_string()),
    );
    assert_eq!(request.url, "https://api.hcoptcha.online/api/createTask");
    assert_eq!(header_pairs(&request), standard_headers());
    assert_eq!(
        request.payload,
        parsed(
            r#"{"task_type":"hcaptchaEnterprise","api_key":"KEY",
                "data":{"sitekey":"site-key","url":"example.com","proxy":"proxy","rqdata":"rq"}}"#
        )
    );
}

#[test]
fn user_data_request_goes_to_its_endpoint() {
    let client = Hcop::new("KEY".to_string());
    let request = client.get_user_data_request();
    assert_eq!(request.url, "https://api.hcoptcha.online/api/getUserData");
    assert_eq!(header_pairs(&request), standard_headers());
    assert_eq!(request.payload, parsed(r#"{"api_key":"KEY"}"#));
}

#[test]
fn poll_request_goes_to_its_endpoint_with_the_makers_key() {
    let client = Hcop::new("KEY".to_string());
    let created = Delivery::Answered {
        status: 200,
        body: br#"{"error":false,"task_id":"abc123"}"#.to_vec(),
    };
    let task = client.create_hcaptcha_task(&created).unwrap();
    let request = task.get_result_request();
    assert_eq!(request.url, "https://api.hcoptcha.online/api/getTaskData");
    assert_eq!(header_pairs(&request), standard_headers());
    assert_eq!(request.payload, parsed(r#"{"api_key":"KEY","task_id":"abc123"}"#));
}

#[test]
fn client_keeps_its_key() {
    let client = Hcop::new("YOUR_API_KEY".to_string());
    assert_eq!(client.api_key(), "YOUR_API_KEY");
    let copy = client.clone();
    assert_eq!(copy.api_key(), "YOUR_API_KEY");
    assert_eq!(copy.get_user_data_request().payload, client.get_user_data_request().payload);
}
