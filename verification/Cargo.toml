[package]
name = "curl_effector"
version = "0.1.0"
edition = "2021"
publish = false

[dependencies]
marine-rs-sdk = { version = "=0.14.0", features = ["logger"] }
log = "=0.4.34"
