[package]
name = "ades"
version = "0.1.0"
edition = "2021"
publish = false

[dependencies]
base64 = "0.22"
der = { version = "0.7", features = ["alloc"] }
rsa = { version = "0.9", features = ["sha2"] }
serde_json = "1"
sha2 = "0.10"
signature = "2"
thiserror = "1"
ureq = { version = "2", features = ["json"] }
x509-cert = "0.2"
