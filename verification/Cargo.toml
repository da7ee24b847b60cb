[package]
name = "stirling_auth"
version = "0.1.0"
edition = "2021"
publish = false

[dependencies]
base64 = "=0.22.1"
rand = "=0.8.8"
sha2 = "=0.10.9"
serde_json = "=1.0.151"
tiny_http = "=0.12.0"
reqwest = { version = "=0.12.28", default-features = false, features = ["blocking"] }

[dev-dependencies]
crossbeam = "0.8"
