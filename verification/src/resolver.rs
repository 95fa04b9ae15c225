//! Discovery of the packages that a set of repos and manifests offers.

pub mod filter;
pub mod http;
pub mod resolve;
