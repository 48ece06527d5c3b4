//! Domain models for device-to-cloud communication.
//!
//! Text fields have a byte capacity, as the firmware's fixed-capacity
//! strings do; `wf` states that each field is within it.
use vstd::prelude::*;
use crate::text::{byte_len, to_string, utf8_len};

verus! {

/// Byte capacity of `UplinkMessage::id`.
pub const UPLINK_ID_CAPACITY: usize = 64;

/// Telemetry payload sent from the device to the cloud API.
#[derive(Debug, Clone)]
pub struct UplinkMessage {
    /// Unique identifier for this device or message.
    pub id: String,
    /// Sensor reading (e.g. current in milliamps).
    pub current: i32,
}

impl UplinkMessage {
    /// The identifier fits its capacity.
    pub open spec fn wf(&self) -> bool {
        utf8_len(self.id@) <= UPLINK_ID_CAPACITY
    }
}

/// Byte capacities of the `LambdaResponse` fields, in declaration order.
pub const REQUEST_ID_CAPACITY: usize = 64;
pub const APIGW_ID_CAPACITY: usize = 32;
pub const TRACE_ID_CAPACITY: usize = 128;
pub const CONTENT_TYPE_CAPACITY: usize = 32;
pub const CONTENT_LENGTH_CAPACITY: usize = 8;
pub const DATE_CAPACITY: usize = 32;
pub const BODY_CAPACITY: usize = 1024;

/// Response from the Lambda-backed API Gateway endpoint: the headers the
/// device keeps, and the body.
#[derive(Debug, Clone)]
pub struct LambdaResponse {
    /// AWS Lambda request identifier (`x-amzn-RequestId`).
    pub x_amzn_request_id: String,
    /// API Gateway internal request identifier (`x-amz-apigw-id`).
    pub x_amz_apigw_id: String,
    /// AWS X-Ray trace identifier (`X-Amzn-Trace-Id`).
    pub x_amzn_trace_id: String,
    /// MIME type of the response body (`content-type`).
    pub content_type: String,
    /// Byte length of the response body as reported by the server (`content-length`).
    pub content_length: String,
    /// Date header from the server response.
    pub date: String,
    /// Raw response body text.
    pub body: String,
}

/// The characters of each `LambdaResponse` field.
pub struct LambdaResponseView {
    pub x_amzn_request_id: Seq<char>,
    pub x_amz_apigw_id: Seq<char>,
    pub x_amzn_trace_id: Seq<char>,
    pub content_type: Seq<char>,
    pub content_length: Seq<char>,
    pub date: Seq<char>,
    pub body: Seq<char>,
}

impl View for LambdaResponse {
    type V = LambdaResponseView;

    open spec fn view(&self) -> LambdaResponseView {
        LambdaResponseView {
            x_amzn_request_id: self.x_amzn_request_id@,
            x_amz_apigw_id: self.x_amz_apigw_id@,
            x_amzn_trace_id: self.x_amzn_trace_id@,
            content_type: self.content_type@,
            content_length: self.content_length@,
            date: self.date@,
            body: self.body@,
        }
    }
}

impl LambdaResponseView {
    /// Every field fits its capacity.
    pub open spec fn wf(&self) -> bool {
        self.headers_fit() && utf8_len(self.body) <= BODY_CAPACITY
    }

    /// Every header field fits its capacity.
    pub open spec fn headers_fit(&self) -> bool {
        &&& utf8_len(self.x_amzn_request_id) <= REQUEST_ID_CAPACITY
        &&& utf8_len(self.x_amz_apigw_id) <= APIGW_ID_CAPACITY
        &&& utf8_len(self.x_amzn_trace_id) <= TRACE_ID_CAPACITY
        &&& utf8_len(self.content_type) <= CONTENT_TYPE_CAPACITY
        &&& utf8_len(self.content_length) <= CONTENT_LENGTH_CAPACITY
        &&& utf8_len(self.date) <= DATE_CAPACITY
    }

    /// All fields empty.
    pub open spec fn empty() -> LambdaResponseView {
        LambdaResponseView {
            x_amzn_request_id: Seq::empty(),
            x_amz_apigw_id: Seq::empty(),
            x_amzn_trace_id: Seq::empty(),
            content_type: Seq::empty(),
            content_length: Seq::empty(),
            date: Seq::empty(),
            body: Seq::empty(),
        }
    }
}

impl LambdaResponse {
    /// A response with all fields empty.
    pub fn new_empty() -> (r: LambdaResponse)
        ensures
            r@ == LambdaResponseView::empty(),
    {
        LambdaResponse {
            x_amzn_request_id: String::new(),
            x_amz_apigw_id: String::new(),
            x_amzn_trace_id: String::new(),
            content_type: String::new(),
            content_length: String::new(),
            date: String::new(),
            body: String::new(),
        }
    }
}

/// Byte capacities of the NFC fields.
pub const NFC_DEVICE_ID_CAPACITY: usize = 32;
pub const NFC_UID_CAPACITY: usize = 16;
pub const NFC_RECORD_TYPE_CAPACITY: usize = 16;
pub const NFC_PAYLOAD_CAPACITY: usize = 128;

/// NFC exchange configuration with sensible defaults.
#[derive(Debug, Clone)]
pub struct NfcConfig {
    pub device_id: String,
    pub max_payload_bytes: u16,
    pub timeout_ms: u16,
    pub retry_count: u8,
}

impl NfcConfig {
    /// The device identifier fits its capacity.
    pub open spec fn wf(&self) -> bool {
        utf8_len(self.device_id@) <= NFC_DEVICE_ID_CAPACITY
    }

    /// The default configuration for a device: the identifier is kept when it
    /// fits in 32 bytes and is empty otherwise.
    pub fn default_with_id(device_id: &str) -> (c: NfcConfig)
        ensures
            c.wf(),
            c.device_id@ == (if utf8_len(device_id@) <= NFC_DEVICE_ID_CAPACITY {
                device_id@
            } else {
                Seq::empty()
            }),
            c.max_payload_bytes == 128,
            c.timeout_ms == 1000,
            c.retry_count == 3,
    {
        let id = if byte_len(device_id) <= NFC_DEVICE_ID_CAPACITY {
            to_string(device_id)
        } else {
            String::new()
        };
        NfcConfig { device_id: id, max_payload_bytes: 128, timeout_ms: 1000, retry_count: 3 }
    }
}

/// A single NFC data record exchanged with an external device.
#[derive(Debug, Clone)]
pub struct NfcRecord {
    /// Hex-encoded UID of the external NFC tag/device (e.g. "04A2B3C4D5E6F7").
    pub uid: String,
    /// Record type: "text", "uri", or "device_info".
    pub record_type: String,
    /// Record payload.
    pub payload: String,
}

impl NfcRecord {
    /// Every field fits its capacity.
    pub open spec fn wf(&self) -> bool {
        &&& utf8_len(self.uid@) <= NFC_UID_CAPACITY
        &&& utf8_len(self.record_type@) <= NFC_RECORD_TYPE_CAPACITY
        &&& utf8_len(self.payload@) <= NFC_PAYLOAD_CAPACITY
    }
}

} // verus!
