[package]
name = "enclave_registration"
version = "0.1.0"
edition = "2021"
publish = false

[dependencies]
aes-siv = "0.7"
x25519-dalek = { version = "2", features = ["static_secrets"] }
sha2 = "0.10"
rand = "0.8"
