//! Request handlers: framework-independent functions from request data and
//! a device store to a response or an error.
use vstd::prelude::*;
use crate::device::models::UplinkMessage;
use crate::endpoint::error::AppError;
use crate::endpoint::models::{
    DeviceRecord, DeviceResponse, HelloResponse, RegisterDeviceRequest, UplinkPayload, UplinkRecord,
    UplinkResponse, STATUS_ACTIVE,
};
use crate::endpoint::store::DeviceStore;
use crate::text::{chars_eq, chars_of, to_string, trim, trim_range};

verus! {

/// The current UTC time as RFC 3339 text: std's `SystemTime::now()`,
/// turned into a `DateTime<Utc>` by chrono's `From<SystemTime>` (which also
/// takes times before 1970; it fails only for a clock outside chrono's
/// range of about 262,000 years around 1970), then chrono's
/// `DateTime::to_rfc3339`. Nothing is stated of the text: it depends on
/// the clock.
#[verifier::external_body]
fn now_rfc3339() -> (t: String) {
    chrono::DateTime::<chrono::Utc>::from(std::time::SystemTime::now()).to_rfc3339()
}

/// Return a greeting, optionally echoing the mTLS client subject.
pub fn handle_hello(client_subject: Option<String>) -> (r: HelloResponse)
    ensures
        r.message@ == "Hello from Supervictor!"@,
        r.client_subject == client_subject,
{
    HelloResponse { message: to_string("Hello from Supervictor!"), client_subject }
}

/// Whether a text is empty or only whitespace.
pub open spec fn is_blank(s: Seq<char>) -> bool {
    trim(s).len() == 0
}

/// The request body, or `MissingBody` when there is none or it is blank.
pub fn request_body<'a>(raw_body: Option<&'a str>) -> (r: Result<&'a str, AppError>)
    ensures
        match raw_body {
            Some(b) => if is_blank(b@) {
                r matches Err(AppError::MissingBody)
            } else {
                r == Ok::<&str, AppError>(b)
            },
            None => r matches Err(AppError::MissingBody),
        },
{
    match raw_body {
        Some(b) => {
            let v = chars_of(b);
            let (x, y) = trim_range(&v, 0, v.len());
            assert(v@.subrange(0, v.len() as int) =~= b@);
            if x == y {
                Err(AppError::MissingBody)
            } else {
                Ok(b)
            }
        },
        None => Err(AppError::MissingBody),
    }
}

/// The error for a body that does not decode, with the decoder's message.
pub fn invalid_payload(detail: String) -> (e: AppError)
    ensures
        e matches AppError::InvalidPayload { detail: d, structured } && d == detail && structured is None,
{
    AppError::InvalidPayload { detail, structured: None }
}

/// Whether a registration lookup admits the device: it must exist and be
/// active; a failed lookup passes its error on.
pub fn registration_outcome(lookup: Result<Option<DeviceRecord>, AppError>) -> (r: Result<(), AppError>)
    ensures
        match lookup {
            Err(e) => r == Err::<(), AppError>(e),
            Ok(Some(d)) => if d.status@ == STATUS_ACTIVE@ {
                r is Ok
            } else {
                r matches Err(AppError::DeviceNotRegistered)
            },
            Ok(None) => r matches Err(AppError::DeviceNotRegistered),
        },
{
    match lookup {
        Err(e) => Err(e),
        Ok(Some(d)) => {
            if chars_eq(&chars_of(d.status.as_str()), &chars_of(STATUS_ACTIVE)) {
                Ok(())
            } else {
                Err(AppError::DeviceNotRegistered)
            }
        },
        Ok(None) => Err(AppError::DeviceNotRegistered),
    }
}

/// The response to an accepted uplink.
pub fn uplink_response(uplink: UplinkMessage, client_subject: Option<String>) -> (r: UplinkResponse)
    ensures
        r.message@ == "Uplink received"@,
        r.device_id == uplink.id,
        r.current == uplink.current,
        r.client_subject == client_subject,
{
    UplinkResponse {
        message: to_string("Uplink received"),
        device_id: uplink.id,
        current: uplink.current,
        client_subject,
    }
}

/// The record an accepted uplink is stored as: the device's identifier,
/// the time it was received, and its reading.
pub fn uplink_record(u: &UplinkMessage, received_at: String) -> (r: UplinkRecord)
    ensures
        r.device_id == u.id,
        r.received_at == received_at,
        r.payload.current == u.current as i64,
{
    UplinkRecord { device_id: u.id.clone(), received_at, payload: UplinkPayload { current: u.current as i64 } }
}

/// The answer once the store has been asked to keep the uplink: the store's
/// error, or the response to the accepted uplink.
pub fn uplink_outcome(uplink: UplinkMessage, client_subject: Option<String>, stored: Result<(), AppError>) -> (r: Result<
    UplinkResponse,
    AppError,
>)
    ensures
        match stored {
            Err(e) => r == Err::<UplinkResponse, AppError>(e),
            Ok(()) => r matches Ok(resp) && resp.message@ == "Uplink received"@ && resp.device_id == uplink.id && resp.current
                == uplink.current && resp.client_subject == client_subject,
        },
{
    match stored {
        Err(e) => Err(e),
        Ok(()) => Ok(uplink_response(uplink, client_subject)),
    }
}

/// Accept a decoded uplink message and persist it.
///
/// `decoded` is the body decoded as an uplink message, or the decoder's
/// error message. When `require_registration` is set, the device must
/// exist and be active: the store is asked for it and `registration_outcome`
/// decides, and without a store nothing shows that it exists, so the uplink
/// is refused with `DeviceNotRegistered`. With a store, the uplink is then
/// handed to the store as `uplink_record` of the message and the current
/// time, and `uplink_outcome` of the store's answer is returned.
pub fn handle_uplink<S: DeviceStore>(
    decoded: Result<UplinkMessage, String>,
    client_subject: Option<String>,
    store: Option<&S>,
    require_registration: bool,
) -> (r: Result<UplinkResponse, AppError>)
    ensures
        decoded matches Err(d) ==> r matches Err(AppError::InvalidPayload { detail, structured })
            && detail == d && structured is None,
        decoded matches Ok(u) ==> (r matches Ok(resp) ==> resp.message@ == "Uplink received"@
            && resp.device_id == u.id && resp.current == u.current && resp.client_subject
            == client_subject),
        decoded is Ok && store is None && require_registration ==> r matches Err(AppError::DeviceNotRegistered),
        decoded is Ok && store is None && !require_registration ==> r is Ok,
        r is Err ==> decoded is Err || store is Some || require_registration,
        decoded matches Ok(u) ==> (store matches Some(st) ==> (!require_registration ==> exists|
            rec: UplinkRecord,
            stored: Result<(), AppError>,
        |
            #![trigger call_ensures(S::put_uplink, (st, rec), stored)]
            rec.device_id == u.id && rec.payload.current == u.current as i64 && call_ensures(S::put_uplink, (st, rec), stored)
                && match stored {
                Err(e) => r == Err::<UplinkResponse, AppError>(e),
                Ok(()) => r matches Ok(resp) && resp.message@ == "Uplink received"@ && resp.device_id == u.id && resp.current
                    == u.current && resp.client_subject == client_subject,
            })),
{
    let uplink = match decoded {
        Ok(u) => u,
        Err(d) => return Err(invalid_payload(d)),
    };
    if require_registration {
        match store {
            Some(s) => {
                let lookup = s.get_device(uplink.id.as_str());
                registration_outcome(lookup)?;
            },
            None => return Err(AppError::DeviceNotRegistered),
        }
    }
    match store {
        Some(s) => {
            let record = uplink_record(&uplink, now_rfc3339());
            let ghost rec = record;
            let stored = s.put_uplink(record);
            let ghost sv = stored;
            let r = uplink_outcome(uplink, client_subject, stored);
            assert(call_ensures(S::put_uplink, (s, rec), sv));
            r
        },
        None => Ok(uplink_response(uplink, client_subject)),
    }
}

/// The record a registration stores: the request's fields, status
/// `active`, and the creation time.
pub fn registration_record(req: RegisterDeviceRequest, created_at: String) -> (r: DeviceRecord)
    ensures
        r.device_id == req.device_id,
        r.owner_id == req.owner_id,
        r.subject_dn == req.subject_dn,
        r.status@ == STATUS_ACTIVE@,
        r.created_at == created_at,
{
    DeviceRecord {
        device_id: req.device_id,
        owner_id: req.owner_id,
        subject_dn: req.subject_dn,
        status: to_string(STATUS_ACTIVE),
        created_at,
    }
}

/// The API view `resp` shows the stored device `d`: every field is the
/// record's.
pub open spec fn shows_record(resp: DeviceResponse, d: DeviceRecord) -> bool {
    resp.device_id == d.device_id && resp.owner_id == d.owner_id && resp.subject_dn == d.subject_dn && resp.status
        == d.status && resp.created_at == d.created_at
}

/// The record handed to the store for a registration: the request's
/// identifiers and subject, status `active`.
pub open spec fn registers(req: RegisterDeviceRequest, rec: DeviceRecord) -> bool {
    rec.device_id == req.device_id && rec.owner_id == req.owner_id && rec.subject_dn == req.subject_dn && rec.status@
        == STATUS_ACTIVE@
}

/// Register a new device from its decoded registration request (or the
/// decoder's error message): a record with the request's identifiers and
/// subject and status `active` goes to the store's `put_device`, whose
/// error is returned as it is, and whose saved record is answered field
/// for field.
pub fn handle_register_device<S: DeviceStore>(
    decoded: Result<RegisterDeviceRequest, String>,
    store: &S,
) -> (r: Result<DeviceResponse, AppError>)
    ensures
        decoded matches Err(d) ==> r matches Err(AppError::InvalidPayload { detail, structured })
            && detail == d && structured is None,
        decoded matches Ok(req) ==> exists|rec: DeviceRecord, saved: Result<DeviceRecord, AppError>|
            #![trigger call_ensures(S::put_device, (store, rec), saved)]
            registers(req, rec) && call_ensures(S::put_device, (store, rec), saved) && match saved {
                Err(e) => r == Err::<DeviceResponse, AppError>(e),
                Ok(d) => r matches Ok(resp) && shows_record(resp, d),
            },
{
    let req = match decoded {
        Ok(q) => q,
        Err(d) => return Err(invalid_payload(d)),
    };
    let ghost q = req;
    let record = registration_record(req, now_rfc3339());
    let ghost rec = record;
    let saved = store.put_device(record);
    let ghost sv = saved;
    let r = match saved {
        Err(e) => Err(e),
        Ok(d) => Ok(DeviceResponse::from_record(d)),
    };
    assert(registers(q, rec) && call_ensures(S::put_device, (store, rec), sv));
    r
}

/// What a device lookup answers: the device, `DeviceNotFound` naming it,
/// or the store's error.
pub fn device_lookup_outcome(device_id: &str, lookup: Result<Option<DeviceRecord>, AppError>) -> (r: Result<DeviceResponse, AppError>)
    ensures
        match lookup {
            Err(e) => r == Err::<DeviceResponse, AppError>(e),
            Ok(Some(d)) => r matches Ok(resp) && resp.device_id == d.device_id && resp.owner_id
                == d.owner_id && resp.subject_dn == d.subject_dn && resp.status == d.status
                && resp.created_at == d.created_at,
            Ok(None) => r matches Err(AppError::DeviceNotFound { device_id: id }) && id@ == device_id@,
        },
{
    match lookup {
        Err(e) => Err(e),
        Ok(Some(d)) => Ok(DeviceResponse::from_record(d)),
        Ok(None) => Err(AppError::DeviceNotFound { device_id: to_string(device_id) }),
    }
}

/// What a lookup of `device_id` answers for the store's `lookup`: the
/// store's error, the device field for field, or `DeviceNotFound` naming it.
pub open spec fn lookup_answer(device_id: Seq<char>, lookup: Result<Option<DeviceRecord>, AppError>, r: Result<DeviceResponse, AppError>) -> bool {
    match lookup {
        Err(e) => r == Err::<DeviceResponse, AppError>(e),
        Ok(Some(d)) => r matches Ok(resp) && shows_record(resp, d),
        Ok(None) => r matches Err(AppError::DeviceNotFound { device_id: id }) && id@ == device_id,
    }
}

/// Look up a single device by its identifier: the store's `get_device` is
/// asked for that identifier, and its answer is passed on as
/// `lookup_answer` says. `DeviceStore` carries no contract, so what the
/// store answers is not stated.
pub fn handle_get_device<S: DeviceStore>(device_id: &str, store: &S) -> (r: Result<DeviceResponse, AppError>)
    ensures
        exists|lookup: Result<Option<DeviceRecord>, AppError>|
            #![trigger call_ensures(S::get_device, (store, device_id), lookup)]
            call_ensures(S::get_device, (store, device_id), lookup) && lookup_answer(device_id@, lookup, r),
{
    let lookup = store.get_device(device_id);
    let ghost l = lookup;
    let r = device_lookup_outcome(device_id, lookup);
    assert(call_ensures(S::get_device, (store, device_id), l) && lookup_answer(device_id@, l, r));
    r
}

/// The API view of every device of a listing, in order, or the store's error.
pub fn listing_outcome(listing: Result<Vec<DeviceRecord>, AppError>) -> (r: Result<Vec<DeviceResponse>, AppError>)
    ensures
        match listing {
            Err(e) => r == Err::<Vec<DeviceResponse>, AppError>(e),
            Ok(ds) => r matches Ok(rs) && rs@.len() == ds@.len() && forall|i: int|
                0 <= i < ds@.len() ==> (#[trigger] rs@[i]).device_id == ds@[i].device_id
                    && rs@[i].owner_id == ds@[i].owner_id && rs@[i].subject_dn == ds@[i].subject_dn
                    && rs@[i].status == ds@[i].status && rs@[i].created_at == ds@[i].created_at,
        },
{
    match listing {
        Err(e) => Err(e),
        Ok(ds) => {
            let mut out: Vec<DeviceResponse> = Vec::new();
            let mut i: usize = 0;
            while i < ds.len()
                invariant
                    i <= ds@.len(),
                    out@.len() == i,
                    forall|k: int| 0 <= k < i ==> (#[trigger] out@[k]).device_id == ds@[k].device_id
                        && out@[k].owner_id == ds@[k].owner_id && out@[k].subject_dn
                        == ds@[k].subject_dn && out@[k].status == ds@[k].status && out@[k].created_at
                        == ds@[k].created_at,
                decreases ds@.len() - i,
            {
                out.push(DeviceResponse::from_record(ds[i].duplicate()));
                i += 1;
            }
            Ok(out)
        },
    }
}

/// What a listing answers for the store's `listing`: the store's error, or
/// the devices in the same order, each field for field.
pub open spec fn listing_answer(listing: Result<Vec<DeviceRecord>, AppError>, r: Result<Vec<DeviceResponse>, AppError>) -> bool {
    match listing {
        Err(e) => r == Err::<Vec<DeviceResponse>, AppError>(e),
        Ok(ds) => r matches Ok(rs) && rs@.len() == ds@.len() && forall|i: int|
            0 <= i < ds@.len() ==> #[trigger] shows_record(rs@[i], ds@[i]),
    }
}

/// List all registered devices: the store's `list_devices` answer, passed
/// on as `listing_answer` says. `DeviceStore` carries no contract, so what
/// the store answers is not stated.
pub fn handle_list_devices<S: DeviceStore>(store: &S) -> (r: Result<Vec<DeviceResponse>, AppError>)
    ensures
        exists|listing: Result<Vec<DeviceRecord>, AppError>|
            #![trigger call_ensures(S::list_devices, (store,), listing)]
            call_ensures(S::list_devices, (store,), listing) && listing_answer(listing, r),
{
    let listing = store.list_devices();
    let ghost l = listing;
    let r = listing_outcome(listing);
    assert(call_ensures(S::list_devices, (store,), l) && listing_answer(l, r));
    r
}

/// Retrieve the most recent uplinks for a device, up to `limit`: the
/// store's `get_uplinks` answer for that device and that limit, as it is.
/// `DeviceStore` carries no contract, so what the store answers is not
/// stated.
pub fn handle_get_device_uplinks<S: DeviceStore>(device_id: &str, store: &S, limit: usize) -> (r: Result<Vec<UplinkRecord>, AppError>)
    ensures
        call_ensures(S::get_uplinks, (store, device_id, limit), r),
{
    store.get_uplinks(device_id, limit)
}

} // verus!
