//! Resolution, selection and installation of distribution packages.
//!
//! Everything here is computation on plain values: the network and the file
//! system are driven by the caller, who hands the outcomes back.

pub mod config;
pub mod detection;
pub mod installer;
pub mod issue_printer;
pub mod package_render;
pub mod resolver;
pub mod schema;
pub mod selector;
pub mod status;
