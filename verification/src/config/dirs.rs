//! Directories.

use vstd::prelude::*;

verus! {

/// The directory that contains files,
/// each file with a list of URLs, each URL pointing to a repo.
/// Repo URLs can be directly handled by the resolver.
pub const REPOS: &'static str = "repos.d";

/// The directory that contains files,
/// each file with a list of URLs, each URL pointing to a manifest.
/// Manifest URLs can be directly handled by the resolver.
pub const MANIFEST_URLS: &'static str = "manifestUrls.d";

} // verus!
