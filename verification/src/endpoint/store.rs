//! The device store that the handlers read and write.
use vstd::prelude::*;
use crate::endpoint::error::AppError;
use crate::endpoint::config::Config;
use crate::endpoint::models::{DeviceRecord, UplinkRecord};
use crate::text::{chars_eq, chars_of, push_str, to_string};

verus! {

/// A store of devices and their uplinks, implemented by the storage
/// backends. What a call returns is the backend's decision; the handlers
/// state what they do with each outcome.
pub trait DeviceStore {
    /// Store a new device; fails when a device with its identifier exists.
    fn put_device(&self, record: DeviceRecord) -> Result<DeviceRecord, AppError>;

    /// The device with this identifier, if any.
    fn get_device(&self, device_id: &str) -> Result<Option<DeviceRecord>, AppError>;

    /// All devices.
    fn list_devices(&self) -> Result<Vec<DeviceRecord>, AppError>;

    /// Store an uplink.
    fn put_uplink(&self, record: UplinkRecord) -> Result<(), AppError>;

    /// The most recent uplinks of a device, newest first, at most `limit`.
    fn get_uplinks(&self, device_id: &str, limit: usize) -> Result<Vec<UplinkRecord>, AppError>;
}

/// The storage backend a configuration selects.
pub enum StoreBackend {
    /// SQLite, at this path (or `:memory:`).
    Sqlite { path: String },
    /// DynamoDB, with these tables.
    Dynamo { devices_table: String, messages_table: String },
}

/// The backend that `store_backend` names: `sqlite` or `dynamo`; any other
/// name is a configuration error naming it.
pub fn select_backend(config: &Config) -> (r: Result<StoreBackend, AppError>)
    ensures
        config.store_backend@ == "sqlite"@ ==> (r matches Ok(StoreBackend::Sqlite { path }) && path@ == config.sqlite_db_path@),
        config.store_backend@ == "dynamo"@ ==> (r matches Ok(StoreBackend::Dynamo { devices_table, messages_table })
            && devices_table@ == config.devices_table@ && messages_table@ == config.messages_table@),
        config.store_backend@ != "sqlite"@ && config.store_backend@ != "dynamo"@ ==> (r matches Err(AppError::Config(m))
            && m@ == "unknown store backend: "@ + config.store_backend@),
{
    let name = chars_of(config.store_backend.as_str());
    proof {
        reveal_strlit("sqlite");
        reveal_strlit("dynamo");
        assert("sqlite"@[0] != "dynamo"@[0]);
        assert("sqlite"@ != "dynamo"@);
    }
    if chars_eq(&name, &chars_of("sqlite")) {
        Ok(StoreBackend::Sqlite { path: config.sqlite_db_path.clone() })
    } else if chars_eq(&name, &chars_of("dynamo")) {
        Ok(StoreBackend::Dynamo { devices_table: config.devices_table.clone(), messages_table: config.messages_table.clone() })
    } else {
        let mut m = to_string("unknown store backend: ");
        push_str(&mut m, config.store_backend.as_str());
        Err(AppError::Config(m))
    }
}

} // verus!
