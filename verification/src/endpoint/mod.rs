//! The cloud endpoint's logic: configuration from environment variables,
//! the error-to-response mapping, and the request handlers over a device
//! store.
pub mod config;
pub mod error;
pub mod models;
pub mod store;
pub mod handlers;
