[package]
name = "matrix_sdk_crypto"
version = "0.1.0"
edition = "2021"
publish = false

[dependencies]
olm-rs = { version = "1.0", features = ["serde"] }
ruma = { version = "0.2", features = ["client-api-c", "compat", "unstable-pre-spec"] }
serde = { version = "1", features = ["derive"] }
serde_json = "1"
sha2 = "0.9"
