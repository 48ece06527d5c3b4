use std::cell::RefCell;

use supervictor::device::models::UplinkMessage;
use supervictor::endpoint::error::AppError;
use supervictor::endpoint::handlers::{
    handle_get_device, handle_get_device_uplinks, handle_hello, handle_list_devices,
    handle_register_device, handle_uplink, request_body, uplink_outcome, uplink_record,
};
use supervictor::endpoint::models::{
    DeviceRecord, DeviceResponse, RegisterDeviceRequest, UplinkRecord, UplinkResponse,
};
use supervictor::endpoint::store::DeviceStore;

/// An in-memory store: devices in insertion order, uplinks newest first.
struct MemoryStore {
    devices: RefCell<Vec<DeviceRecord>>,
    uplinks: RefCell<Vec<UplinkRecord>>,
}

fn test_store() -> MemoryStore {
    MemoryStore { devices: RefCell::new(Vec::new()), uplinks: RefCell::new(Vec::new()) }
}

impl DeviceStore for MemoryStore {
    fn put_device(&self, record: DeviceRecord) -> Result<DeviceRecord, AppError> {
        if self.devices.borrow().iter().any(|d| d.device_id == record.device_id) {
            return Err(AppError::DeviceAlreadyExists { device_id: record.device_id });
        }
        self.devices.borrow_mut().push(record.clone());
        Ok(record)
    }
    fn get_device(&self, device_id: &str) -> Result<Option<DeviceRecord>, AppError> {
        Ok(self.devices.borrow().iter().find(|d| d.device_id == device_id).cloned())
    }
    fn list_devices(&self) -> Result<Vec<DeviceRecord>, AppError> {
        Ok(self.devices.borrow().clone())
    }
    fn put_uplink(&self, record: UplinkRecord) -> Result<(), AppError> {
        self.uplinks.borrow_mut().insert(0, record);
        Ok(())
    }
    fn get_uplinks(&self, device_id: &str, limit: usize) -> Result<Vec<UplinkRecord>, AppError> {
        Ok(self.uplinks.borrow().iter().filter(|u| u.device_id == device_id).take(limit).cloned().collect())
    }
}

fn decode_uplink(body: &str) -> Result<UplinkMessage, String> {
    let v: serde_json::Value = serde_json::from_str(body).map_err(|e| e.to_string())?;
    let id = v.get("id").and_then(|x| x.as_str()).ok_or("missing field `id`")?;
    let current = v
        .get("current")
        .and_then(|x| x.as_i64())
        .and_then(|c| i32::try_from(c).ok())
        .ok_or("missing field `current`")?;
    Ok(UplinkMessage { id: id.to_string(), current })
}

fn decode_registration(body: &str) -> Result<RegisterDeviceRequest, String> {
    let v: serde_json::Value = serde_json::from_str(body).map_err(|e| e.to_string())?;
    let device_id = v.get("device_id").and_then(|x| x.as_str()).ok_or("missing field `device_id`")?;
    let owner_id = v.get("owner_id").and_then(|x| x.as_str()).ok_or("missing field `owner_id`")?;
    let subject_dn = v.get("subject_dn").and_then(|x| x.as_str()).map(|s| s.to_string());
    Ok(RegisterDeviceRequest { device_id: device_id.to_string(), owner_id: owner_id.to_string(), subject_dn })
}

fn uplink(
    body: Option<&str>,
    subject: Option<String>,
    store: Option<&MemoryStore>,
    require_registration: bool,
) -> Result<UplinkResponse, AppError> {
    let b = request_body(body)?;
    handle_uplink(decode_uplink(b), subject, store, require_registration)
}

fn register(body: Option<&str>, store: &MemoryStore) -> Result<DeviceResponse, AppError> {
    let b = request_body(body)?;
    handle_register_device(decode_registration(b), store)
}

#[test]
fn hello_without_subject() {
    let resp = handle_hello(None);
    assert_eq!(resp.message, "Hello from Supervictor!");
    assert!(resp.client_subject.is_none());
}

#[test]
fn hello_with_subject() {
    let resp = handle_hello(Some("CN=device1".into()));
    assert_eq!(resp.client_subject.as_deref(), Some("CN=device1"));
}

#[test]
fn uplink_valid_payload() {
    let store = test_store();
    let resp = uplink(Some(r#"{"id": "dev-1", "current": 42}"#), None, Some(&store), false).unwrap();
    assert_eq!(resp.device_id, "dev-1");
    assert_eq!(resp.current, 42);
    assert_eq!(resp.message, "Uplink received");
}

#[test]
fn uplink_empty_body() {
    let err = uplink(None, None, None, false).unwrap_err();
    let msg = err.message();
    assert!(msg.contains("missing request body"), "got: {msg}");
}

#[test]
fn uplink_whitespace_body() {
    let err = uplink(Some("  "), None, None, false).unwrap_err();
    let msg = err.message();
    assert!(msg.contains("missing request body"), "got: {msg}");
}

#[test]
fn uplink_invalid_json() {
    let err = uplink(Some("{bad"), None, None, false).unwrap_err();
    let msg = err.message();
    assert!(msg.contains("invalid payload"), "got: {msg}");
}

#[test]
fn uplink_wrong_schema() {
    let err = uplink(Some(r#"{"foo": "bar"}"#), None, None, false).unwrap_err();
    let msg = err.message();
    assert!(msg.contains("invalid payload"), "got: {msg}");
}

#[test]
fn uplink_with_client_subject() {
    let resp = uplink(Some(r#"{"id": "dev-1", "current": 10}"#), Some("CN=test".into()), None, false).unwrap();
    assert_eq!(resp.client_subject.as_deref(), Some("CN=test"));
}

#[test]
fn uplink_stores_record() {
    let store = test_store();
    uplink(Some(r#"{"id": "dev-1", "current": 99}"#), None, Some(&store), false).unwrap();
    let uplinks = store.get_uplinks("dev-1", 10).unwrap();
    assert_eq!(uplinks.len(), 1);
    assert_eq!(uplinks[0].payload.current, 99);
    assert!(!uplinks[0].received_at.is_empty());
}

#[test]
fn register_device_success() {
    let store = test_store();
    let resp = register(Some(r#"{"device_id": "dev-1", "owner_id": "owner-1"}"#), &store).unwrap();
    assert_eq!(resp.device_id, "dev-1");
    assert_eq!(resp.status, "active");
}

#[test]
fn test_handlers_register_device_duplicate() {
    let store = test_store();
    let body = r#"{"device_id": "dev-1", "owner_id": "owner-1"}"#;
    register(Some(body), &store).unwrap();
    let err = register(Some(body), &store).unwrap_err();
    let msg = err.message();
    assert!(msg.contains("already exists"), "got: {msg}");
}

#[test]
fn test_handlers_register_device_empty_body() {
    let store = test_store();
    let err = register(None, &store).unwrap_err();
    let msg = err.message();
    assert!(msg.contains("missing request body"), "got: {msg}");
}

#[test]
fn test_handlers_register_device_invalid_json() {
    let store = test_store();
    let err = register(Some("{bad"), &store).unwrap_err();
    let msg = err.message();
    assert!(msg.contains("invalid payload"), "got: {msg}");
}

#[test]
fn test_handlers_get_device_found() {
    let store = test_store();
    register(Some(r#"{"device_id": "dev-1", "owner_id": "owner-1"}"#), &store).unwrap();
    let resp = handle_get_device("dev-1", &store).unwrap();
    assert_eq!(resp.device_id, "dev-1");
}

#[test]
fn test_handlers_get_device_not_found() {
    let store = test_store();
    let err = handle_get_device("nonexistent", &store).unwrap_err();
    let msg = err.message();
    assert!(msg.contains("not found"), "got: {msg}");
}

#[test]
fn test_handlers_list_devices_empty() {
    let store = test_store();
    let resp = handle_list_devices(&store).unwrap();
    assert!(resp.is_empty());
}

#[test]
fn test_handlers_list_devices_with_data() {
    let store = test_store();
    register(Some(r#"{"device_id": "dev-1", "owner_id": "owner-1"}"#), &store).unwrap();
    register(Some(r#"{"device_id": "dev-2", "owner_id": "owner-2"}"#), &store).unwrap();
    let resp = handle_list_devices(&store).unwrap();
    assert_eq!(resp.len(), 2);
    assert_eq!(resp[0].device_id, "dev-1");
    assert_eq!(resp[1].owner_id, "owner-2");
}

#[test]
fn test_handlers_get_device_uplinks_empty() {
    let store = test_store();
    let resp = handle_get_device_uplinks("dev-1", &store, 10).unwrap();
    assert!(resp.is_empty());
}

#[test]
fn test_handlers_full_roundtrip() {
    let store = test_store();
    register(Some(r#"{"device_id": "dev-1", "owner_id": "owner-1"}"#), &store).unwrap();
    uplink(Some(r#"{"id": "dev-1", "current": 42}"#), None, Some(&store), false).unwrap();
    let uplinks = handle_get_device_uplinks("dev-1", &store, 10).unwrap();
    assert_eq!(uplinks.len(), 1);
    assert_eq!(uplinks[0].payload.current, 42);
}

#[test]
fn uplink_requires_registration_when_asked() {
    let store = test_store();
    let err = uplink(Some(r#"{"id": "ghost", "current": 1}"#), None, Some(&store), true).unwrap_err();
    assert!(matches!(err, AppError::DeviceNotRegistered));
    assert!(store.get_uplinks("ghost", 10).unwrap().is_empty());
    register(Some(r#"{"device_id": "ghost", "owner_id": "o"}"#), &store).unwrap();
    uplink(Some(r#"{"id": "ghost", "current": 1}"#), None, Some(&store), true).unwrap();
    assert_eq!(store.get_uplinks("ghost", 10).unwrap().len(), 1);
}

#[test]
fn inactive_device_is_not_registered() {
    let store = test_store();
    store
        .put_device(DeviceRecord {
            device_id: "d".into(),
            owner_id: "o".into(),
            subject_dn: None,
            status: "revoked".into(),
            created_at: "t".into(),
        })
        .unwrap();
    let err = uplink(Some(r#"{"id": "d", "current": 1}"#), None, Some(&store), true).unwrap_err();
    assert!(matches!(err, AppError::DeviceNotRegistered));
}

#[test]
fn registration_keeps_subject_dn() {
    let store = test_store();
    let resp = register(
        Some(r#"{"device_id": "d", "owner_id": "o", "subject_dn": "CN=d"}"#),
        &store,
    )
    .unwrap();
    assert_eq!(resp.subject_dn.as_deref(), Some("CN=d"));
    assert!(!resp.created_at.is_empty());
}

#[test]
fn uplink_required_registration_without_store_is_refused() {
    let err = uplink(Some(r#"{"id": "dev-1", "current": 42}"#), None, None, true).unwrap_err();
    assert!(matches!(err, AppError::DeviceNotRegistered));
}

#[test]
fn uplink_record_keeps_id_time_and_reading() {
    let m = UplinkMessage { id: "dev-7".to_string(), current: -5 };
    let r = uplink_record(&m, "2024-01-01T00:00:00+00:00".to_string());
    assert_eq!(r.device_id, "dev-7");
    assert_eq!(r.received_at, "2024-01-01T00:00:00+00:00");
    assert_eq!(r.payload.current, -5);
}

#[test]
fn uplink_outcome_follows_the_store() {
    let m = UplinkMessage { id: "dev-2".to_string(), current: 3 };
    let r = uplink_outcome(m, Some("CN=x".to_string()), Ok(())).unwrap();
    assert_eq!((r.message.as_str(), r.device_id.as_str(), r.current), ("Uplink received", "dev-2", 3));
    assert_eq!(r.client_subject.as_deref(), Some("CN=x"));
    let m = UplinkMessage { id: "dev-2".to_string(), current: 3 };
    let err = uplink_outcome(m, None, Err(AppError::Store("disk".to_string()))).unwrap_err();
    assert!(matches!(err, AppError::Store(d) if d == "disk"));
}
