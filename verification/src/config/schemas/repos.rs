//! The `repos.d` files content.

use vstd::prelude::*;

verus! {

/// The structure of a file in the `repos.d`.
#[derive(Debug)]
pub struct Format {
    /// A list of URLs each serving a repo.
    pub repo_urls: Vec<RepoUrl>,
}

/// A single repo reference.
#[derive(Debug)]
pub struct RepoUrl {
    /// The URL of this repo.
    pub url: String,
}

impl Format {
    /// The URLs that the file lists, in its order.
    pub fn into_urls(self) -> (urls: Vec<String>)
        ensures
            urls@.len() == self.repo_urls@.len(),
            forall|i: int| 0 <= i < urls@.len() ==> urls@[i] == self.repo_urls@[i].url,
    {
        let mut urls: Vec<String> = Vec::new();
        for item in iter: self.repo_urls
            invariant
                iter.seq() == self.repo_urls@,
                urls@.len() == iter.index(),
                forall|i: int| 0 <= i < urls@.len() ==> urls@[i] == self.repo_urls@[i].url,
        {
            urls.push(item.url);
        }
        urls
    }
}

} // verus!
