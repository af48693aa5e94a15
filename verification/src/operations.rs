//! Helpers for implementing the operations of an OpenSSL provider.
pub mod keymgmt;
pub mod transcoders;
