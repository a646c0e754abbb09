use http_util::classifier::{
    classify, extract_partial_data, process_response, read_partial_data, value_as_text, HttpError,
    ResponseOutcome,
};
use http_util::response::Response;
use http_util::status::StatusCode;
use reqwest::header::{HeaderMap, HeaderValue};
use serde_json::Value;

fn response_of(status: u16, url: String, headers: HeaderMap, body: Result<String, String>) -> Response {
    Response { status: StatusCode::new(status).unwrap(), url, headers, body }
}

fn mock_response(status_code: u16, headers: HeaderMap, body: String) -> Response {
    response_of(status_code, "https://api.example.com/data".to_string(), headers, Ok(body))
}

fn transport_error() -> reqwest::Error {
    reqwest::Client::new().get("not an address").build().unwrap_err()
}

fn json(text: &str) -> Value {
    serde_json::from_str(text).unwrap()
}

#[test]
fn test_process_response_rate_limited() {
    let mut headers = HeaderMap::new();
    headers.insert("X-RateLimit-Bucket", HeaderValue::from_static("bucket123"));

    let body = json("{\"data\": \"Partial information\"}").to_string();

    let response = mock_response(429, headers, body);

    match process_response(response) {
        Err(HttpError::RateLimited { rate_limit_bucket, partial_data }) => {
            assert_eq!(rate_limit_bucket, "bucket123");
            assert_eq!(partial_data, Some("Partial information".to_string()));
        }
        _ => panic!("Expected rate limited error"),
    }
}

#[test]
fn test_process_response_success() {
    let headers = HeaderMap::new(); // No special headers needed for a normal response.
    let body = json("{}").to_string();
    let response = mock_response(200, headers, body);

    assert!(process_response(response).is_ok());
}

#[test]
fn rate_limited_response_is_classified_with_bucket_and_data() {
    let mut headers = HeaderMap::new();
    headers.insert("X-RateLimit-Bucket", HeaderValue::from_static("bucket123"));
    let response = mock_response(429, headers, "{\"data\":\"Partial information\"}".to_string());
    assert_eq!(
        classify(response),
        ResponseOutcome::RateLimited {
            bucket: "bucket123".to_string(),
            partial_data: Some("Partial information".to_string()),
        }
    );
}

#[test]
fn empty_success_is_classified_as_success() {
    let response = mock_response(200, HeaderMap::new(), String::new());
    assert_eq!(classify(response), ResponseOutcome::Success(String::new()));
}

#[test]
fn success_carries_the_body() {
    for status in [200u16, 201, 204, 299] {
        let response = mock_response(status, HeaderMap::new(), "response body".to_string());
        assert_eq!(classify(response), ResponseOutcome::Success("response body".to_string()));
    }
}

#[test]
fn other_statuses_are_failures_with_address_status_and_body() {
    for status in [100u16, 199, 300, 404, 428, 430, 500, 999] {
        let response = mock_response(status, HeaderMap::new(), "went wrong".to_string());
        assert_eq!(
            classify(response),
            ResponseOutcome::Failure {
                url: "https://api.example.com/data".to_string(),
                status_code: status,
                body: "went wrong".to_string(),
            }
        );
    }
}

#[test]
fn unreadable_body_counts_as_empty() {
    let url = "https://api.example.com/data".to_string();
    let failed = response_of(500, url.clone(), HeaderMap::new(), Err("connection reset".to_string()));
    assert_eq!(
        classify(failed),
        ResponseOutcome::Failure { url: url.clone(), status_code: 500, body: String::new() }
    );
    let succeeded = response_of(200, url.clone(), HeaderMap::new(), Err("connection reset".to_string()));
    assert_eq!(classify(succeeded), ResponseOutcome::Success(String::new()));
    let limited = response_of(429, url, HeaderMap::new(), Err("connection reset".to_string()));
    assert_eq!(
        classify(limited),
        ResponseOutcome::RateLimited { bucket: String::new(), partial_data: None }
    );
}

#[test]
fn rate_limit_without_bucket_header_has_empty_bucket() {
    let response = mock_response(429, HeaderMap::new(), "{\"data\": 1}".to_string());
    assert_eq!(
        classify(response),
        ResponseOutcome::RateLimited { bucket: String::new(), partial_data: Some("1".to_string()) }
    );
}

#[test]
fn rate_limit_bucket_that_is_no_text_counts_as_absent() {
    let mut headers = HeaderMap::new();
    headers.insert("X-RateLimit-Bucket", HeaderValue::from_bytes(b"bucket\xff").unwrap());
    let response = mock_response(429, headers, String::new());
    assert_eq!(
        classify(response),
        ResponseOutcome::RateLimited { bucket: String::new(), partial_data: None }
    );
}

#[test]
fn rate_limit_body_that_is_no_json_has_no_data() {
    for body in ["", "not json", "{\"data\": ", "[1, 2]", "{\"other\": 1}", "\"data\""] {
        let response = mock_response(429, HeaderMap::new(), body.to_string());
        assert_eq!(
            classify(response),
            ResponseOutcome::RateLimited { bucket: String::new(), partial_data: None }
        );
    }
}

#[test]
fn process_response_passes_successes_only() {
    for status in [200u16, 201, 204, 299] {
        assert!(process_response(mock_response(status, HeaderMap::new(), String::new())).is_ok());
    }
    for status in [100u16, 199, 300, 301, 404, 428, 430, 500, 999] {
        match process_response(mock_response(status, HeaderMap::new(), "boom".to_string())) {
            Err(HttpError::HttpFailure { url, status_code, body }) => {
                assert_eq!(url, "https://api.example.com/data");
                assert_eq!(status_code, status);
                assert_eq!(body, "boom");
            }
            _ => panic!("expected a failure"),
        }
    }
    match process_response(mock_response(429, HeaderMap::new(), "oops".to_string())) {
        Err(HttpError::RateLimited { rate_limit_bucket, partial_data }) => {
            assert_eq!(rate_limit_bucket, "");
            assert_eq!(partial_data, None);
        }
        _ => panic!("expected a rate limit"),
    }
}

#[test]
fn server_error_is_a_failure_with_address_status_and_body() {
    let response = mock_response(500, HeaderMap::new(), "boom".to_string());
    match process_response(response) {
        Err(HttpError::HttpFailure { url, status_code, body }) => {
            assert_eq!(url, "https://api.example.com/data");
            assert_eq!(status_code, 500);
            assert_eq!(body, "boom");
        }
        _ => panic!("expected a failure"),
    }
}

#[test]
fn failure_with_unreadable_body_has_the_empty_body() {
    let url = "https://api.example.com/data".to_string();
    let response = response_of(503, url, HeaderMap::new(), Err("connection reset".to_string()));
    match process_response(response) {
        Err(HttpError::HttpFailure { status_code, body, .. }) => {
            assert_eq!(status_code, 503);
            assert_eq!(body, "");
        }
        _ => panic!("expected a failure"),
    }
}

#[test]
fn strings_are_stringified_by_content_and_the_rest_as_json() {
    assert_eq!(value_as_text(&json("\"Partial information\"")), "Partial information");
    assert_eq!(value_as_text(&json("\"with \\\"quotes\\\"\"")), "with \"quotes\"");
    assert_eq!(value_as_text(&json("\"\"")), "");
    assert_eq!(value_as_text(&json("12")), "12");
    assert_eq!(value_as_text(&json("true")), "true");
    assert_eq!(value_as_text(&json("null")), "null");
    assert_eq!(value_as_text(&json("[1, \"a\"]")), "[1,\"a\"]");
    assert_eq!(value_as_text(&json("{\"b\": 1, \"a\": \"x\"}")), "{\"a\":\"x\",\"b\":1}");
}

#[test]
fn partial_data_is_the_member_named_data() {
    assert_eq!(extract_partial_data(&json("{\"data\": \"x\"}")), Some("x".to_string()));
    assert_eq!(extract_partial_data(&json("{\"data\": null}")), Some("null".to_string()));
    assert_eq!(extract_partial_data(&json("{\"data\": {\"a\": [1]}}")), Some("{\"a\":[1]}".to_string()));
    assert_eq!(extract_partial_data(&json("{\"Data\": \"x\"}")), None);
    assert_eq!(extract_partial_data(&json("[\"data\"]")), None);
    assert_eq!(extract_partial_data(&json("\"data\"")), None);
    assert_eq!(read_partial_data("{\"data\": \"x\"}"), Some("x".to_string()));
    assert_eq!(read_partial_data("{\"data\": \"x\"} trailing"), None);
    assert_eq!(read_partial_data(""), None);
}

#[test]
fn transport_failures_are_an_outcome_of_their_own() {
    let error = transport_error();
    let message = error.to_string();
    assert!(!message.is_empty());
    assert_eq!(
        ResponseOutcome::transport_error(&error),
        ResponseOutcome::TransportError { message: message.clone() }
    );
    assert_eq!(
        ResponseOutcome::transport_failure("connection refused".to_string()),
        ResponseOutcome::TransportError { message: "connection refused".to_string() }
    );
}

#[test]
fn transport_errors_convert_into_network_errors() {
    let message = transport_error().to_string();
    match HttpError::from(transport_error()) {
        HttpError::NetworkError(error) => assert_eq!(error.to_string(), message),
        _ => panic!("expected a network error"),
    }
}
