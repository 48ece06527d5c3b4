use supervictor::endpoint::error::{AppError, ErrorDetail, ErrorResponse};

fn status_of(err: AppError) -> u16 {
    err.into_response().0
}

fn body_of(err: AppError) -> ErrorResponse {
    err.into_response().1
}

fn detail_text(body: &ErrorResponse) -> Option<String> {
    match &body.detail {
        Some(ErrorDetail::Text(t)) => Some(t.clone()),
        _ => None,
    }
}

// ── Status codes ─────────────────────────────────────────────────────

#[test]
fn missing_body_returns_400() {
    assert_eq!(status_of(AppError::MissingBody), 400);
}

#[test]
fn invalid_payload_returns_422() {
    assert_eq!(
        status_of(AppError::InvalidPayload { detail: "bad".into(), structured: None }),
        422
    );
}

#[test]
fn device_already_exists_returns_409() {
    assert_eq!(status_of(AppError::DeviceAlreadyExists { device_id: "d".into() }), 409);
}

#[test]
fn device_not_found_returns_404() {
    assert_eq!(status_of(AppError::DeviceNotFound { device_id: "d".into() }), 404);
}

#[test]
fn device_not_registered_returns_403() {
    assert_eq!(status_of(AppError::DeviceNotRegistered), 403);
}

#[test]
fn store_error_returns_500() {
    assert_eq!(status_of(AppError::Store("db failed".into())), 500);
}

#[test]
fn config_error_returns_500() {
    assert_eq!(status_of(AppError::Config("bad config".into())), 500);
}

// ── Response bodies ──────────────────────────────────────────────────

#[test]
fn missing_body_error_message() {
    let body = body_of(AppError::MissingBody);
    assert_eq!(body.error, "Missing request body");
}

#[test]
fn invalid_payload_includes_detail() {
    let body = body_of(AppError::InvalidPayload { detail: "missing field".into(), structured: None });
    assert_eq!(body.error, "Invalid payload");
    assert_eq!(detail_text(&body).as_deref(), Some("missing field"));
}

#[test]
fn invalid_payload_prefers_structured_detail() {
    let structured: serde_json::Value =
        serde_json::from_str(r#"{"field": "current", "reason": "expected i32"}"#).unwrap();
    let body = body_of(AppError::InvalidPayload { detail: "fallback".into(), structured: Some(structured.clone()) });
    match body.detail {
        Some(ErrorDetail::Structured(v)) => assert_eq!(v, structured),
        _ => panic!("expected a structured detail"),
    }
}

#[test]
fn device_already_exists_error_message() {
    let body = body_of(AppError::DeviceAlreadyExists { device_id: "dev-1".into() });
    assert_eq!(body.error, "Device already exists");
}

#[test]
fn device_not_found_error_message() {
    let body = body_of(AppError::DeviceNotFound { device_id: "dev-1".into() });
    assert_eq!(body.error, "Device not found");
}

#[test]
fn store_error_hides_internal_detail() {
    let body = body_of(AppError::Store("SQLITE_ERROR: table locked".into()));
    assert_eq!(body.error, "Internal server error");
    assert!(body.detail.is_none());
}

#[test]
fn config_error_hides_internal_detail() {
    let body = body_of(AppError::Config("missing AWS key".into()));
    assert_eq!(body.error, "Configuration error");
    assert!(body.detail.is_none());
}

// ── Messages ─────────────────────────────────────────────────────────

#[test]
fn display_includes_context() {
    let err = AppError::DeviceNotFound { device_id: "dev-42".into() };
    assert!(err.message().contains("dev-42"));
}

#[test]
fn display_missing_body() {
    let err = AppError::MissingBody;
    assert_eq!(err.message(), "missing request body");
}

#[test]
fn messages_of_every_variant() {
    assert_eq!(AppError::InvalidPayload { detail: "x".into(), structured: None }.message(), "invalid payload: x");
    assert_eq!(AppError::DeviceAlreadyExists { device_id: "a".into() }.message(), "device already exists: a");
    assert_eq!(AppError::DeviceNotRegistered.message(), "device not registered or inactive");
    assert_eq!(AppError::Store("s".into()).message(), "store error: s");
    assert_eq!(AppError::Config("c".into()).message(), "config error: c");
}

#[test]
fn not_registered_body() {
    let body = body_of(AppError::DeviceNotRegistered);
    assert_eq!(body.error, "Device not registered or inactive");
    assert!(body.detail.is_none());
}
