//! The repo.

use vstd::prelude::*;

verus! {

/// A single repo.
#[derive(Debug)]
pub struct Repo {
    /// A list of URLs each serving a manifest.
    pub manifest_urls: Vec<ManifestUrl>,
}

/// A single manifest reference.
#[derive(Debug)]
pub struct ManifestUrl {
    /// A URL at which the manifest is served.
    pub url: String,
}

impl View for ManifestUrl {
    type V = Seq<char>;

    open spec fn view(&self) -> Seq<char> {
        self.url@
    }
}

impl View for Repo {
    type V = Seq<Seq<char>>;

    /// The manifest URLs that the repo lists, in its order.
    open spec fn view(&self) -> Seq<Seq<char>> {
        Seq::new(self.manifest_urls@.len(), |i: int| self.manifest_urls@[i]@)
    }
}

} // verus!
