//! Key management: the selection of key parts that an operation targets.
pub mod selection;
