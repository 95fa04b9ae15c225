//! The `manifestUrls.d` files content.

use vstd::prelude::*;

verus! {

/// The structure of a file in the `manifestUrls.d`.
#[derive(Debug)]
pub struct Format {
    /// A list of URLs each serving a manifest.
    pub manifest_urls: Vec<ManifestUrl>,
}

/// A single manifest reference.
#[derive(Debug)]
pub struct ManifestUrl {
    /// A URL at which the manifest is served.
    pub url: String,
}

impl Format {
    /// The URLs that the file lists, in its order.
    pub fn into_urls(self) -> (urls: Vec<String>)
        ensures
            urls@.len() == self.manifest_urls@.len(),
            forall|i: int| 0 <= i < urls@.len() ==> urls@[i] == self.manifest_urls@[i].url,
    {
        let mut urls: Vec<String> = Vec::new();
        for item in iter: self.manifest_urls
            invariant
                iter.seq() == self.manifest_urls@,
                urls@.len() == iter.index(),
                forall|i: int| 0 <= i < urls@.len() ==> urls@[i] == self.manifest_urls@[i].url,
        {
            urls.push(item.url);
        }
        urls
    }
}

} // verus!
