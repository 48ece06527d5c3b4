//! Records of the device store and the endpoint's request and response
//! bodies.
use vstd::prelude::*;

verus! {

/// Status of a registered, active device.
pub const STATUS_ACTIVE: &'static str = "active";

/// A registered device, as the store keeps it.
#[derive(Debug, Clone)]
pub struct DeviceRecord {
    pub device_id: String,
    pub owner_id: String,
    pub subject_dn: Option<String>,
    pub status: String,
    pub created_at: String,
}

/// A copy of an optional text.
pub fn duplicate_text(t: &Option<String>) -> (c: Option<String>)
    ensures
        c == *t,
{
    match t {
        Some(s) => Some(s.clone()),
        None => None,
    }
}

impl DeviceRecord {
    /// A copy of the record.
    pub fn duplicate(&self) -> (c: DeviceRecord)
        ensures
            c == *self,
    {
        DeviceRecord {
            device_id: self.device_id.clone(),
            owner_id: self.owner_id.clone(),
            subject_dn: duplicate_text(&self.subject_dn),
            status: self.status.clone(),
            created_at: self.created_at.clone(),
        }
    }
}

/// The JSON payload of a stored uplink.
#[derive(Debug, Clone)]
pub struct UplinkPayload {
    /// The sensor reading.
    pub current: i64,
}

/// An uplink, as the store keeps it.
#[derive(Debug, Clone)]
pub struct UplinkRecord {
    pub device_id: String,
    pub received_at: String,
    pub payload: UplinkPayload,
}

/// Request body of a device registration.
#[derive(Debug, Clone)]
pub struct RegisterDeviceRequest {
    pub device_id: String,
    pub owner_id: String,
    pub subject_dn: Option<String>,
}

/// A device, as the API returns it.
#[derive(Debug, Clone)]
pub struct DeviceResponse {
    pub device_id: String,
    pub owner_id: String,
    pub subject_dn: Option<String>,
    pub status: String,
    pub created_at: String,
}

impl DeviceResponse {
    /// The API view of a stored device: the same fields.
    pub fn from_record(r: DeviceRecord) -> (d: DeviceResponse)
        ensures
            d.device_id == r.device_id,
            d.owner_id == r.owner_id,
            d.subject_dn == r.subject_dn,
            d.status == r.status,
            d.created_at == r.created_at,
    {
        DeviceResponse {
            device_id: r.device_id,
            owner_id: r.owner_id,
            subject_dn: r.subject_dn,
            status: r.status,
            created_at: r.created_at,
        }
    }
}

/// Response of the greeting route.
#[derive(Debug)]
pub struct HelloResponse {
    pub message: String,
    pub client_subject: Option<String>,
}

/// Response to an accepted uplink.
#[derive(Debug)]
pub struct UplinkResponse {
    pub message: String,
    pub device_id: String,
    pub current: i32,
    pub client_subject: Option<String>,
}

} // verus!
