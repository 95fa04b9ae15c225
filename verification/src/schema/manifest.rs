//! The manifest.

use std::collections::HashMap;
use vstd::prelude::*;

verus! {

/// A single manifest.
#[derive(Debug)]
pub struct Manifest {
    /// Packages provided by this manifest.
    pub packages: Vec<Package>,
}

/// A single package.
#[derive(Debug)]
pub struct Package {
    /// The platform this package is intended for.
    pub platform: Platform,
    /// The specializations of the platform this package is intended for.
    pub platform_specializations: PlatformSpecializations,
    /// The architecture this package is intended for.
    pub arch: Arch,
    /// The name to use when displaying the package.
    pub display_name: String,
    /// The description of the package.
    pub description: String,
    /// The path to the icon to use.
    /// Relative to the location of the manifest file.
    pub icon: String,
    /// The path to the executable.
    pub executable_path: LocalPath,
    /// The path to the chain spec.
    pub chainspec_path: LocalPath,
    /// The path to the ngrok.
    pub ngrok_path: LocalPath,
    /// The path to the Humanode Websocket Tunnel Client.
    pub humanode_websocket_tunnel_client_path: LocalPath,
    /// Files included in this package.
    pub files: Vec<File>,
}

/// The platform code.
///
/// Values returned by `uname -s`, such as `Darwin`, `Linux` or `Windows`.
#[derive(Debug, PartialEq, Eq)]
pub struct Platform(pub String);

/// The platform specialization codes.
///
/// Platform-dependent values; on Linux, `libc` is `glibc` or `musl`.
#[derive(Debug, PartialEq, Eq)]
pub struct PlatformSpecializations(pub HashMap<String, String>);

/// The architecture code.
///
/// Values returned by `uname -m`, such as `x86_64` or `arm64`.
#[derive(Debug, PartialEq, Eq)]
pub struct Arch(pub String);

/// Relative path in the context of the file system of the distribution.
///
/// Must be evaluated relative to the directory of the distribution root.
#[derive(Debug)]
pub struct LocalPath(pub String);

/// The URL.
///
/// Has to be evaluated against the manifest URL as its base.
#[derive(Debug)]
pub struct Url(pub String);

/// The hexadecimal representation of a SHA-256 sum.
#[derive(Debug)]
pub struct Sha256(pub String);

/// A single file description.
#[derive(Debug)]
pub struct File {
    /// The sub URL where to look for the asset.
    pub sub_url: Url,
    /// The destination sub path to place the file at.
    pub destination_sub_path: LocalPath,
    /// The SHA-256 sum of the file.
    pub sha256: Sha256,
}

/// Anything that carries a package.
pub trait AsPackage {
    /// The package that the value carries.
    spec fn package_of(&self) -> Package;

    /// Borrows the package that the value carries.
    fn package(&self) -> (p: &Package)
        ensures
            *p == self.package_of(),
    ;
}

impl AsPackage for Package {
    open spec fn package_of(&self) -> Package {
        *self
    }

    fn package(&self) -> (p: &Package) {
        self
    }
}

} // verus!
