//! Tests of the HTTP gateway types and the embed-endpoint decisions.

use embedding_server::protocol::http::default_chunk_size;
use embedding_server::protocol::http::default_chunk_style;
use embedding_server::protocol::http::validate_embed_request;
use embedding_server::protocol::http::HealthResponse;
use embedding_server::protocol::http::HttpEmbedRequest;
use embedding_server::protocol::http::HttpErrorResponse;

#[test]
fn test_http_embed_request_validation() {
    // Valid request
    let req = HttpEmbedRequest {
        text: "Hello world".to_string(),
        chunk_style: "recursive".to_string(),
        chunk_size: 100,
        model: None,
    };
    assert!(req.validate().is_ok());

    // Empty text
    let req = HttpEmbedRequest {
        text: "".to_string(),
        chunk_style: "recursive".to_string(),
        chunk_size: 100,
        model: None,
    };
    assert!(req.validate().is_err());

    // Text too long
    let req = HttpEmbedRequest {
        text: "x".repeat(9000),
        chunk_style: "recursive".to_string(),
        chunk_size: 100,
        model: None,
    };
    assert!(req.validate().is_err());
}

#[test]
fn test_error_response() {
    let err = HttpErrorResponse::new("Test error").with_code("TEST_ERROR").with_details(
        "Additional details",
    );

    assert_eq!(err.error, "Test error");
    assert_eq!(err.code, Some("TEST_ERROR".to_string()));
    assert_eq!(err.details, Some("Additional details".to_string()));
}

fn request_with_text(text: String) -> HttpEmbedRequest {
    HttpEmbedRequest {
        text,
        chunk_style: default_chunk_style(),
        chunk_size: default_chunk_size(),
        model: None,
    }
}

#[test]
fn embed_endpoint_rejects_empty_text_with_code() {
    let err = validate_embed_request(&request_with_text(String::new())).unwrap_err();
    assert_eq!(err.code, Some("EMPTY_TEXT".to_string()));
    assert_eq!(err.error, "Text field cannot be empty");
}

#[test]
fn embed_endpoint_rejects_long_text_with_code() {
    let err = validate_embed_request(&request_with_text("x".repeat(9000))).unwrap_err();
    assert_eq!(err.code, Some("TEXT_TOO_LONG".to_string()));
    assert_eq!(err.error, "Text exceeds maximum length of 8192 characters (got 9000)");
}

#[test]
fn oversized_rejections_report_the_length() {
    let err = HttpErrorResponse::text_too_long(9000);
    assert_eq!(err.error, "Text exceeds maximum length of 8192 characters (got 9000)");
    let req = request_with_text("y".repeat(8193));
    assert_eq!(
        req.validate().unwrap_err(),
        "Text exceeds maximum length of 8192 characters (got 8193)"
    );
}

#[test]
fn embed_endpoint_admits_short_text() {
    assert!(validate_embed_request(&request_with_text("ten chars!".to_string())).is_ok());
    assert!(validate_embed_request(&request_with_text("x".repeat(8192))).is_ok());
}

#[test]
fn coded_error_constructors() {
    assert_eq!(HttpErrorResponse::missing_fields().code, Some("MISSING_REQUIRED_FIELDS".to_string()));
    assert_eq!(HttpErrorResponse::empty_text().code, Some("EMPTY_TEXT".to_string()));
    assert_eq!(HttpErrorResponse::text_too_long(9000).code, Some("TEXT_TOO_LONG".to_string()));
    assert_eq!(HttpErrorResponse::model_not_ready().code, Some("MODEL_NOT_READY".to_string()));
    let internal = HttpErrorResponse::internal_error("cause");
    assert_eq!(internal.code, Some("INTERNAL_ERROR".to_string()));
    assert_eq!(internal.details, Some("cause".to_string()));
}

#[test]
fn health_response_reports_model_and_dimension() {
    let health = HealthResponse::healthy("test-model", 384);
    assert_eq!(health.status, "healthy");
    assert_eq!(health.model, "test-model");
    assert_eq!(health.embedding_dimension, 384);
    assert_eq!(health.version, "0.1.0");
}
