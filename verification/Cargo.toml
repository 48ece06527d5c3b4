[package]
name = "supervictor"
version = "0.1.0"
edition = "2021"
publish = false

[dependencies]
chrono = { version = "0.4", default-features = false, features = ["clock", "std"] }
serde = { version = "1", features = ["derive"] }
serde_json = "1"
serde-json-core = "0.6"
heapless = { version = "0.8", features = ["serde"] }
thiserror = "2"
clap = { version = "4", features = ["derive"] }
ureq = "3"
toml = "0.8"
tracing = "0.1"
tracing-subscriber = { version = "0.3", features = ["json", "env-filter"] }
tokio = { version = "1", features = ["macros", "rt-multi-thread", "net"] }
axum = "0.8"
