[package]
name = "objc_extras"
version = "0.1.0"
edition = "2021"
publish = false

[dependencies]
binaryninja = "=0.0.1"
bstr = "=1.13.1"
log = "=0.4.35"
serde = { version = "=1.0.229", features = ["derive"] }
serde_json = "=1.0.154"
