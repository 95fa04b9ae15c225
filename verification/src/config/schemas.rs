//! The schemas of various config files.
//!
//! There should be no need to use these schemas from outside, since the
//! loading process resolves the files into the effective
//! [`crate::config::Sources`].

pub mod manifest_urls;
pub mod repos;
