[package]
name = "openssl_provider_forge"
version = "0.8.5"
edition = "2021"
publish = false

[dependencies]
zeroize = "=1.9.1"
log = "=0.4.35"
