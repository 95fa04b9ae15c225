//! The documents that describe a distribution.

pub mod manifest;
pub mod repo;
