[package]
name = "mirakc"
version = "0.1.0"
edition = "2021"
publish = false

[dependencies]
actix = "0.13"
actix-web = { version = "4", default-features = false }
axum = "0.6"
chrono = "0.4"
futures = "0.3"
indexmap = "1"
log = "0.4"
mustache = "0.9"
reqwest = { version = "0.11", default-features = false, features = ["json"] }
reqwest-eventsource = "0.5"
serde = { version = "1", features = ["derive"] }
serde_json = "1"
tokio = { version = "1", features = ["fs", "io-util", "macros", "process", "rt", "sync"] }
tokio-stream = "0.1"
tracing = "0.1"
