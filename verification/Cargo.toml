[package]
name = "saml_sp"
version = "0.1.0"
edition = "2021"
publish = false

[dependencies]
base64 = "*"
chrono = "*"
flate2 = "*"
hex = "*"
openssl = "*"
rand = "*"
