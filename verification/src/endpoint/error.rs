//! Endpoint errors, their messages, and the HTTP responses they become.
use vstd::prelude::*;
use crate::text::{push_str, to_string};

verus! {

/// A JSON value (serde_json's), carried through without being inspected.
#[verifier::external_type_specification]
#[verifier::external_body]
pub struct ExJsonValue(serde_json::Value);

/// Errors of the endpoint.
#[derive(Debug)]
pub enum AppError {
    /// The request had no body, or only whitespace.
    MissingBody,
    /// The body is not a valid payload; `detail` says why, `structured`
    /// optionally says it as JSON.
    InvalidPayload { detail: String, structured: Option<serde_json::Value> },
    /// A device with this identifier is already registered.
    DeviceAlreadyExists { device_id: String },
    /// No device has this identifier.
    DeviceNotFound { device_id: String },
    /// The device is not registered or not active.
    DeviceNotRegistered,
    /// The store failed.
    Store(String),
    /// The configuration is invalid.
    Config(String),
}

/// The message of an error.
pub open spec fn message_spec(e: AppError) -> Seq<char> {
    match e {
        AppError::MissingBody => "missing request body"@,
        AppError::InvalidPayload { detail, .. } => "invalid payload: "@ + detail@,
        AppError::DeviceAlreadyExists { device_id } => "device already exists: "@ + device_id@,
        AppError::DeviceNotFound { device_id } => "device not found: "@ + device_id@,
        AppError::DeviceNotRegistered => "device not registered or inactive"@,
        AppError::Store(s) => "store error: "@ + s@,
        AppError::Config(s) => "config error: "@ + s@,
    }
}

/// The HTTP status of an error.
pub open spec fn status_spec(e: AppError) -> u16 {
    match e {
        AppError::MissingBody => 400,
        AppError::InvalidPayload { .. } => 422,
        AppError::DeviceAlreadyExists { .. } => 409,
        AppError::DeviceNotFound { .. } => 404,
        AppError::DeviceNotRegistered => 403,
        AppError::Store(_) => 500,
        AppError::Config(_) => 500,
    }
}

/// The `error` text of an error's response body.
pub open spec fn public_message_spec(e: AppError) -> Seq<char> {
    match e {
        AppError::MissingBody => "Missing request body"@,
        AppError::InvalidPayload { .. } => "Invalid payload"@,
        AppError::DeviceAlreadyExists { .. } => "Device already exists"@,
        AppError::DeviceNotFound { .. } => "Device not found"@,
        AppError::DeviceNotRegistered => "Device not registered or inactive"@,
        AppError::Store(_) => "Internal server error"@,
        AppError::Config(_) => "Configuration error"@,
    }
}

/// The `detail` of an error's response body.
pub enum ErrorDetail {
    /// A text detail.
    Text(String),
    /// A structured JSON detail.
    Structured(serde_json::Value),
}

/// The JSON body of an error response.
pub struct ErrorResponse {
    pub error: String,
    pub detail: Option<ErrorDetail>,
}

impl AppError {
    /// The error's message, naming the device or cause where there is one.
    pub fn message(&self) -> (m: String)
        ensures
            m@ == message_spec(*self),
    {
        match self {
            AppError::MissingBody => to_string("missing request body"),
            AppError::InvalidPayload { detail, .. } => {
                let mut m = to_string("invalid payload: ");
                push_str(&mut m, detail.as_str());
                m
            },
            AppError::DeviceAlreadyExists { device_id } => {
                let mut m = to_string("device already exists: ");
                push_str(&mut m, device_id.as_str());
                m
            },
            AppError::DeviceNotFound { device_id } => {
                let mut m = to_string("device not found: ");
                push_str(&mut m, device_id.as_str());
                m
            },
            AppError::DeviceNotRegistered => to_string("device not registered or inactive"),
            AppError::Store(s) => {
                let mut m = to_string("store error: ");
                push_str(&mut m, s.as_str());
                m
            },
            AppError::Config(s) => {
                let mut m = to_string("config error: ");
                push_str(&mut m, s.as_str());
                m
            },
        }
    }

    /// The HTTP status code of the error's response.
    pub fn status_code(&self) -> (s: u16)
        ensures
            s == status_spec(*self),
    {
        match self {
            AppError::MissingBody => 400,
            AppError::InvalidPayload { .. } => 422,
            AppError::DeviceAlreadyExists { .. } => 409,
            AppError::DeviceNotFound { .. } => 404,
            AppError::DeviceNotRegistered => 403,
            AppError::Store(_) => 500,
            AppError::Config(_) => 500,
        }
    }

    /// The status and JSON body of the error's response. Store and
    /// configuration errors hide their cause; an invalid payload carries its
    /// structured detail when it has one, and its text detail otherwise.
    pub fn into_response(self) -> (r: (u16, ErrorResponse))
        ensures
            r.0 == status_spec(self),
            r.1.error@ == public_message_spec(self),
            match self {
                AppError::InvalidPayload { detail, structured } => match structured {
                    Some(v) => r.1.detail matches Some(ErrorDetail::Structured(w)) && w == v,
                    None => r.1.detail matches Some(ErrorDetail::Text(t)) && t@ == detail@,
                },
                _ => r.1.detail is None,
            },
    {
        let status = self.status_code();
        let (error, detail) = match self {
            AppError::MissingBody => (to_string("Missing request body"), None),
            AppError::InvalidPayload { detail, structured } => (
                to_string("Invalid payload"),
                Some(match structured {
                    Some(v) => ErrorDetail::Structured(v),
                    None => ErrorDetail::Text(detail),
                }),
            ),
            AppError::DeviceAlreadyExists { .. } => (to_string("Device already exists"), None),
            AppError::DeviceNotFound { .. } => (to_string("Device not found"), None),
            AppError::DeviceNotRegistered => (to_string("Device not registered or inactive"), None),
            AppError::Store(_) => (to_string("Internal server error"), None),
            AppError::Config(_) => (to_string("Configuration error"), None),
        };
        (status, ErrorResponse { error, detail })
    }
}

} // verus!
