use supervictor::device::error::HttpError;
use supervictor::device::models::{LambdaResponse, NfcConfig, NfcRecord, UplinkMessage};

fn make_config() -> NfcConfig {
    NfcConfig::default_with_id("sv-device-01")
}

fn make_record() -> NfcRecord {
    NfcRecord {
        uid: "04A2B3C4D5E6F7".try_into().unwrap(),
        record_type: "text".try_into().unwrap(),
        payload: "hello-nfc".try_into().unwrap(),
    }
}

fn make_uplink(id: &str, current: i32) -> UplinkMessage {
    UplinkMessage {
        id: id.try_into().unwrap(),
        current,
    }
}

// ── HttpError ───────────────────────────────────────────────

#[test]
fn deserialization_variant_exists() {
    let _e = HttpError::Deserialization;
}

#[test]
fn generic_parse_error_variant_exists() {
    let _e = HttpError::GenericParseError;
}

#[test]
fn deserialization_display_message() {
    let e = HttpError::Deserialization;
    assert_eq!(e.message(), "Failed to deserialize response");
}

#[test]
fn generic_parse_error_display_message() {
    let e = HttpError::GenericParseError;
    assert_eq!(e.message(), "Failed to parse response");
}

#[test]
fn display_messages_are_distinct() {
    assert_ne!(
        HttpError::Deserialization.message(),
        HttpError::GenericParseError.message()
    );
}

#[test]
fn display_messages_are_non_empty() {
    assert!(!HttpError::Deserialization.message().is_empty());
    assert!(!HttpError::GenericParseError.message().is_empty());
}

#[test]
fn buffer_overflow_display_message() {
    assert_eq!(HttpError::BufferOverflow.message(), "Buffer capacity exceeded");
}

// ── NfcConfig defaults ──────────────────────────────────────

#[test]
fn config_default_values() {
    let cfg = make_config();
    assert_eq!(cfg.device_id.as_str(), "sv-device-01");
    assert_eq!(cfg.max_payload_bytes, 128);
    assert_eq!(cfg.timeout_ms, 1000);
    assert_eq!(cfg.retry_count, 3);
}

#[test]
fn config_default_empty_id_on_overflow() {
    let long_id = "A".repeat(33);
    let cfg = NfcConfig::default_with_id(&long_id);
    assert!(cfg.device_id.is_empty());
}

#[test]
fn config_default_id_at_capacity_kept() {
    let id = "A".repeat(32);
    let cfg = NfcConfig::default_with_id(&id);
    assert_eq!(cfg.device_id, id);
}

#[test]
fn config_default_id_counts_bytes() {
    // 11 three-byte characters: 33 bytes.
    let id = "€".repeat(11);
    assert!(NfcConfig::default_with_id(&id).device_id.is_empty());
}

// ── Clones ──────────────────────────────────────────────────

#[test]
fn config_clone_is_independent() {
    let original = make_config();
    let mut cloned = original.clone();
    cloned.timeout_ms = 9999;
    assert_eq!(original.timeout_ms, 1000);
    assert_eq!(cloned.timeout_ms, 9999);
}

#[test]
fn record_clone_is_independent() {
    let original = make_record();
    let mut cloned = original.clone();
    cloned.payload = "changed".try_into().unwrap();
    assert_eq!(original.payload.as_str(), "hello-nfc");
    assert_eq!(cloned.payload.as_str(), "changed");
}

#[test]
fn uplink_clone_is_independent() {
    let original = make_uplink("orig", 100);
    let mut cloned = original.clone();
    cloned.current = 200;
    assert_eq!(original.current, 100);
    assert_eq!(cloned.current, 200);
}

#[test]
fn uplink_debug_contains_fields() {
    let msg = make_uplink("dbg", 42);
    let dbg = format!("{:?}", msg);
    assert!(dbg.contains("dbg"));
}

#[test]
fn lambda_response_new_empty_has_empty_fields() {
    let resp = LambdaResponse::new_empty();
    assert!(resp.x_amzn_request_id.is_empty());
    assert!(resp.body.is_empty());
}
