//! Capabilities that a provider can declare to OpenSSL.
pub mod tls_group;
