//! Device firmware logic: HTTP request building and response parsing, the
//! captive portal's request parsing and responses, and DNS hijacking.
pub mod error;
pub mod models;
pub mod http;
pub mod server;
pub mod dns;
pub mod uplink;
pub mod tls;
pub mod wifi;
pub mod roundtrip;
