//! The `qs` CLI's logic: `.env` parsing, project configuration, tool
//! checks, command construction and pipeline decisions.
pub mod error;
pub mod output;
pub mod env;
pub mod rust_tools;
pub mod config;
pub mod runner;
pub mod onboard;
pub mod phases;
pub mod commands;
pub mod preflight;
pub mod truststore;
pub mod sam;
pub mod pipeline;
pub mod edge;
pub mod dev;
pub mod staging;
pub mod prod;
pub mod ping;
pub mod run;
