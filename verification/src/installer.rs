//! Installation of the files of a package.

pub mod digest;
pub mod hash;
pub mod http;
pub mod install;
pub mod location;
