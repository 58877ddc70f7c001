[package]
name = "qrmi"
version = "0.1.0"
edition = "2021"
publish = false

[dependencies]
uuid = { version = "1", features = ["v4"] }
serde = { version = "1", features = ["derive"] }
serde_json = "1"
log = "0.4"
async-trait = "0.1"
tokio = { version = "1", features = ["rt-multi-thread"] }
futures = "0.3"
anyhow = "1"
ffi_helpers = "0.3"
