[package]
name = "remote_signing"
version = "0.1.0"
edition = "2021"
publish = false

[dependencies]
base64 = "0.22"
pem = "3"
serde_json = "1"
spki = "0.7"
thiserror = "1"
x509-certificate = "*"
