[package]
name = "attestation_service"
version = "0.1.0"
edition = "2021"
publish = false

[dependencies]
hex = "*"
openssl = "*"
reqwest = { version = "*", default-features = false, features = ["blocking"] }
serde = { version = "*", features = ["derive"] }
serde_json = "*"
sha2 = "*"
x509-parser = "*"
