//! The data types of parameters: how each one is created, read and written.
pub mod int_data;
pub mod octet;
pub mod uint_data;
pub mod utf8;
