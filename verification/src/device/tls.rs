//! The device's TLS client settings: the minimum protocol version, and the
//! messages about loading the certificates.
use vstd::prelude::*;
use crate::pattern::{push_u64, text_with_number};
use crate::text::{chars_eq, chars_of, decimal, push_str, to_string};

verus! {

/// The lowest TLS version the client accepts.
#[derive(Debug, Clone, Copy, PartialEq, Eq, Structural)]
pub enum MinTlsVersion {
    Tls1_2,
    Tls1_3,
}

/// The minimum version for the build's `TLS_VERSION` setting: TLS 1.3 when
/// it is `1.3`, TLS 1.2 otherwise.
pub fn min_tls_version(setting: Option<&str>) -> (v: MinTlsVersion)
    ensures
        (setting matches Some(s) && s@ == "1.3"@) ==> v == MinTlsVersion::Tls1_3,
        !(setting matches Some(s) && s@ == "1.3"@) ==> v == MinTlsVersion::Tls1_2,
{
    match setting {
        Some(s) => if chars_eq(&chars_of(s), &chars_of("1.3")) {
            MinTlsVersion::Tls1_3
        } else {
            MinTlsVersion::Tls1_2
        },
        None => MinTlsVersion::Tls1_2,
    }
}

/// The message once the CA chain (of `len` bytes) is loaded.
pub fn ca_loaded(len: usize) -> (m: String)
    ensures
        m@ == "[TLS] CA chain loaded ("@ + decimal(len as nat) + " bytes)"@,
{
    let mut m = text_with_number("[TLS] CA chain loaded (", len as u64);
    push_str(&mut m, " bytes)");
    m
}

/// The message when the CA chain at `path` does not parse.
pub fn ca_failed(path: &str, why: &str) -> (m: String)
    ensures
        m@ == "[TLS] ERROR: Failed to parse CA chain ("@ + path@ + "): "@ + why@,
{
    let mut m = to_string("[TLS] ERROR: Failed to parse CA chain (");
    push_str(&mut m, path);
    push_str(&mut m, "): ");
    push_str(&mut m, why);
    m
}

/// The message once the client certificate and key are loaded.
pub fn client_loaded(cert_len: usize, key_len: usize) -> (m: String)
    ensures
        m@ == "[TLS] Client cert loaded ("@ + decimal(cert_len as nat) + " bytes), key loaded ("@ + decimal(key_len as nat)
            + " bytes)"@,
{
    let mut m = text_with_number("[TLS] Client cert loaded (", cert_len as u64);
    push_str(&mut m, " bytes), key loaded (");
    push_u64(&mut m, key_len as u64);
    push_str(&mut m, " bytes)");
    m
}

/// The message when the device's certificate or key does not parse;
/// `key` tells which.
pub fn client_failed(device: &str, key: bool, why: &str) -> (m: String)
    ensures
        !key ==> m@ == "[TLS] ERROR: Failed to parse client cert (devices/"@ + device@ + "/client.pem): "@ + why@,
        key ==> m@ == "[TLS] ERROR: Failed to parse client key (devices/"@ + device@ + "/client.key): "@ + why@,
{
    let mut m = if key {
        to_string("[TLS] ERROR: Failed to parse client key (devices/")
    } else {
        to_string("[TLS] ERROR: Failed to parse client cert (devices/")
    };
    push_str(&mut m, device);
    if key {
        push_str(&mut m, "/client.key): ");
    } else {
        push_str(&mut m, "/client.pem): ");
    }
    push_str(&mut m, why);
    m
}

} // verus!
