//! The configuration files and utilities.

use vstd::prelude::*;

pub mod dirs;
pub mod load;
pub mod paths;
pub mod schemas;

verus! {

/// The configured sources.
///
/// This is not intended to be directly persisted, but rather loaded from the
/// various config files.
#[derive(Debug)]
pub struct Sources {
    /// A list of Manifest URLs.
    pub manifest_urls: Vec<String>,
    /// A list of Repo URLs.
    pub repo_urls: Vec<String>,
}

impl Default for Sources {
    /// No sources at all.
    fn default() -> (sources: Self)
        ensures
            sources.manifest_urls@ == Seq::<String>::empty(),
            sources.repo_urls@ == Seq::<String>::empty(),
    {
        Sources { manifest_urls: Vec::new(), repo_urls: Vec::new() }
    }
}

impl Sources {
    /// Extend the sources from the other instance.
    ///
    /// What `other` lists comes behind what is listed already; nothing is
    /// dropped, whether or not it is listed twice.
    pub fn extend(&mut self, other: Self)
        ensures
            final(self).manifest_urls@ == old(self).manifest_urls@ + other.manifest_urls@,
            final(self).repo_urls@ == old(self).repo_urls@ + other.repo_urls@,
    {
        let Sources { manifest_urls, repo_urls } = other;
        let mut manifest_urls = manifest_urls;
        let mut repo_urls = repo_urls;
        self.manifest_urls.append(&mut manifest_urls);
        self.repo_urls.append(&mut repo_urls);
    }
}

/// Whether `after` is `before` with a string of each of `names` behind it,
/// in their order.
pub open spec fn extended_with(after: Seq<String>, before: Seq<String>, names: Seq<&str>) -> bool {
    &&& after.len() == before.len() + names.len()
    &&& forall|i: int| 0 <= i < before.len() ==> #[trigger] after[i] == before[i]
    &&& forall|i: int|
        0 <= i < names.len() ==> (#[trigger] after[before.len() + i])@ == names[i]@
}

/// Puts a string of each of `names` behind `list`.
fn extend_with(list: &mut Vec<String>, names: &[&str])
    ensures
        extended_with(final(list)@, old(list)@, names@),
{
    let mut index: usize = 0;
    while index < names.len()
        invariant
            index <= names@.len(),
            list@.len() == old(list)@.len() + index,
            forall|i: int| 0 <= i < old(list)@.len() ==> #[trigger] list@[i] == old(list)@[i],
            forall|i: int|
                0 <= i < index ==> (#[trigger] list@[old(list)@.len() + i])@ == names@[i]@,
        decreases names.len() - index,
    {
        list.push(names[index].to_owned());
        index += 1;
    }
}

/// Adds the sources that are built in: the repo URLs behind the repo URLs
/// of `sources`, the manifest URLs behind its manifest URLs.
pub fn add_built_in_sources(sources: &mut Sources, repo_urls: &[&str], manifest_urls: &[&str])
    ensures
        extended_with(final(sources).repo_urls@, old(sources).repo_urls@, repo_urls@),
        extended_with(
            final(sources).manifest_urls@,
            old(sources).manifest_urls@,
            manifest_urls@,
        ),
{
    extend_with(&mut sources.repo_urls, repo_urls);
    extend_with(&mut sources.manifest_urls, manifest_urls);
}

/// Puts the sources together: first those that are built in, then those of
/// the config files, then those that the operator named, each kind of URL in
/// its own list. A kind of source that is switched off is handed in as
/// nothing.
pub fn prepare_sources(
    built_in: Option<Sources>,
    configured: Option<Sources>,
    repo_urls: Vec<String>,
    manifest_urls: Vec<String>,
) -> (sources: Sources)
    ensures
        sources.repo_urls@ == (match built_in {
            Some(given) => given.repo_urls@,
            None => Seq::empty(),
        }) + (match configured {
            Some(given) => given.repo_urls@,
            None => Seq::empty(),
        }) + repo_urls@,
        sources.manifest_urls@ == (match built_in {
            Some(given) => given.manifest_urls@,
            None => Seq::empty(),
        }) + (match configured {
            Some(given) => given.manifest_urls@,
            None => Seq::empty(),
        }) + manifest_urls@,
{
    let mut sources = Sources::default();
    if let Some(given) = built_in {
        sources.extend(given);
    }
    if let Some(given) = configured {
        sources.extend(given);
    }
    sources.extend(Sources { manifest_urls, repo_urls });
    sources
}

} // verus!
