[package]
name = "mls_session"
version = "0.1.0"
edition = "2021"
publish = false

[dependencies]
openmls = "*"
openmls_rust_crypto = "*"
openmls_basic_credential = "*"
base64 = "*"
uuid = { version = "*", features = ["v4"] }
serde = { version = "*", features = ["derive"] }
