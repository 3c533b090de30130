[package]
name = "procedure_engine"
version = "0.1.0"
edition = "2021"
publish = false

[dependencies]
anyhow = "1"
async_timing_util = "*"
axum = "0.7"
futures = "0.3"
reqwest = { version = "0.12", default-features = false, features = ["json"] }
resolver_api = "*"
serde = { version = "1", features = ["derive"] }
serde_json = "1"
tokio = { version = "1", features = ["sync", "time", "rt-multi-thread", "macros"] }
typeshare = "1"
