[package]
name = "threshold_u2f"
version = "0.1.0"
edition = "2021"
publish = false

[dependencies]
openssl = "0.10"
secp256k1 = "*"
rand = "0.8"
serde = { version = "1", features = ["derive"] }
serde_json = "1"
futures = "0.1"
secret-service = "2"
base64 = "*"
