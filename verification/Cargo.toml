[package]
name = "cursor_api"
version = "0.1.0"
edition = "2021"
publish = false

[dependencies]
base64 = "=0.22.1"
rand = "=0.9.5"
url = "=2.5.8"
serde = { version = "=1.0.229", features = ["derive"] }
serde_json = "=1.0.154"
prost = "=0.13.5"
flate2 = "1"
sha2 = "0.10"
