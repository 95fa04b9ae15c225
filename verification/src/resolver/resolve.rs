//! Resolver.
//!
//! A resolution visits every repo URL, then every manifest URL that was
//! given or that a repo listed, each once. The fetching is the caller's: the
//! resolution says which URL is due, takes what came of the fetch, and
//! accounts for it.

use crate::resolver::http::LoadError;
use crate::schema::manifest::{AsPackage, Manifest, Package};
use crate::schema::repo::Repo;
use vstd::prelude::*;
use vstd::string::*;

verus! {

/// An issue that occurred during resolution.
#[derive(Debug)]
pub struct ResolutionError {
    /// The URL that was attempted.
    pub url: String,
    /// The error description.
    pub error: String,
}

impl ResolutionError {
    /// Construct a new resolution issue.
    pub fn from_display<T: core::fmt::Display>(url: String, err: T) -> (r: Self)
        ensures
            r.url == url,
            to_string_from_display_ensures::<T>(&err, r.error),
    {
        Self { url, error: err.to_string() }
    }
}

/// The resolver params.
#[derive(Debug)]
pub struct Params {
    /// The manifest URLs.
    pub manifest_urls: Vec<String>,
    /// The repo URLs.
    pub repo_urls: Vec<String>,
}

/// The context-enhanced value.
#[derive(Debug)]
pub struct Contextualized<T> {
    /// The manifest URL this value came from.
    pub manifest_url: String,
    /// The value that is contextualized.
    pub value: T,
}

impl<T> Contextualized<T> {
    /// The value without its context.
    pub fn as_ref(&self) -> (value: &T)
        ensures
            *value == self.value,
    {
        &self.value
    }
}

impl AsPackage for Contextualized<Package> {
    open spec fn package_of(&self) -> Package {
        self.value
    }

    fn package(&self) -> (p: &Package) {
        &self.value
    }
}

/// The texts of a list of strings.
pub open spec fn texts(strings: Seq<String>) -> Seq<Seq<char>> {
    strings.map_values(|s: String| s@)
}

/// `known`, with `url` behind it unless it is there already.
pub open spec fn with_url(known: Seq<Seq<char>>, url: Seq<char>) -> Seq<Seq<char>> {
    if known.contains(url) {
        known
    } else {
        known.push(url)
    }
}

/// `known`, with each of `urls` that it lacks behind it, in the order in
/// which they first occur.
pub open spec fn with_urls(known: Seq<Seq<char>>, urls: Seq<Seq<char>>) -> Seq<Seq<char>>
    decreases urls.len(),
{
    if urls.len() == 0 {
        known
    } else {
        with_url(with_urls(known, urls.drop_last()), urls.last())
    }
}

/// Adding URLs to a list in which nothing occurs twice leaves a list in
/// which nothing occurs twice, and which holds exactly what the list held
/// and what was added.
pub proof fn lemma_with_urls(known: Seq<Seq<char>>, urls: Seq<Seq<char>>)
    requires
        known.no_duplicates(),
    ensures
        with_urls(known, urls).no_duplicates(),
        known.is_prefix_of(with_urls(known, urls)),
        forall|url: Seq<char>| #[trigger]
            with_urls(known, urls).contains(url) <==> known.contains(url) || urls.contains(url),
    decreases urls.len(),
{
    if urls.len() > 0 {
        let front = urls.drop_last();
        let merged = with_urls(known, front);
        lemma_with_urls(known, front);
        assert forall|url: Seq<char>| #[trigger]
            with_urls(known, urls).contains(url) <==> known.contains(url) || urls.contains(
                url,
            ) by {
            if urls.contains(url) {
                let i = choose|i: int| 0 <= i < urls.len() && urls[i] == url;
                if i < urls.len() - 1 {
                    assert(front[i] == url);
                    assert(front.contains(url));
                }
            }
            if front.contains(url) {
                let i = choose|i: int| 0 <= i < front.len() && front[i] == url;
                assert(urls[i] == url);
            }
            if !merged.contains(urls.last()) {
                let longer = merged.push(urls.last());
                if merged.contains(url) {
                    let i = choose|i: int| 0 <= i < merged.len() && merged[i] == url;
                    assert(longer[i] == url);
                }
                assert(longer[merged.len() as int] == urls.last());
                assert(urls[urls.len() - 1] == urls.last());
            } else {
                assert(urls[urls.len() - 1] == urls.last());
            }
        }
    }
}

/// Adding to a list all that a longer list names is adding what its front
/// names and then what its last names.
pub proof fn lemma_with_urls_push(known: Seq<Seq<char>>, urls: Seq<Seq<char>>, url: Seq<char>)
    ensures
        with_urls(known, urls.push(url)) == with_url(with_urls(known, urls), url),
{
    assert(urls.push(url).drop_last() == urls);
}

/// Adding what two lists name, one after the other, is adding what their
/// concatenation names.
pub proof fn lemma_with_urls_add(known: Seq<Seq<char>>, first: Seq<Seq<char>>, second: Seq<Seq<char>>)
    ensures
        with_urls(with_urls(known, first), second) == with_urls(known, first + second),
    decreases second.len(),
{
    if second.len() == 0 {
        assert(first + second == first);
    } else {
        lemma_with_urls_add(known, first, second.drop_last());
        assert((first + second).drop_last() == first + second.drop_last());
        assert((first + second).last() == second.last());
    }
}

/// Whether `urls` holds a string of the text of `url`.
fn holds(urls: &Vec<String>, url: &String) -> (found: bool)
    ensures
        found == texts(urls@).contains(url@),
{
    let mut index: usize = 0;
    while index < urls.len()
        invariant
            index <= urls.len(),
            forall|i: int| 0 <= i < index ==> texts(urls@)[i] != url@,
        decreases urls.len() - index,
    {
        if urls[index] == *url {
            assert(texts(urls@)[index as int] == url@);
            return true;
        }
        index += 1;
    }
    false
}

/// Puts `url` behind `urls` unless a string of its text is there already.
fn insert(urls: &mut Vec<String>, url: String)
    ensures
        texts(final(urls)@) == with_url(texts(old(urls)@), url@),
{
    if !holds(urls, &url) {
        urls.push(url);
        assert(texts(urls@) == texts(old(urls)@).push(url@));
    }
}

/// The predicate that `filter` computes: whether it keeps an item.
pub open spec fn keeps<F: Fn(&Contextualized<Package>) -> bool>(filter: F) -> spec_fn(
    Contextualized<Package>,
) -> bool {
    |item: Contextualized<Package>| call_ensures(filter, (&item,), true)
}

/// Whether `filter` is a predicate: it answers for every item, and for one
/// item always the same.
pub open spec fn is_predicate<F: Fn(&Contextualized<Package>) -> bool>(filter: F) -> bool {
    &&& forall|item: &Contextualized<Package>| #[trigger] call_requires(filter, (item,))
    &&& forall|item: &Contextualized<Package>, a: bool, b: bool|
        #![trigger call_ensures(filter, (item,), a), call_ensures(filter, (item,), b)]
        call_ensures(filter, (item,), a) && call_ensures(filter, (item,), b) ==> a == b
}

/// The packages of a manifest, each with the URL that the manifest came from.
pub open spec fn contextualized(url: String, packages: Seq<Package>) -> Seq<
    Contextualized<Package>,
> {
    packages.map_values(|package: Package| Contextualized { manifest_url: url, value: package })
}

/// A resolution under way.
pub struct Resolution<F: Fn(&Contextualized<Package>) -> bool> {
    filter: F,
    repo_urls: Vec<String>,
    repos_done: usize,
    manifest_urls: Vec<String>,
    manifests_done: usize,
    packages: Vec<Contextualized<Package>>,
    listed: Ghost<Seq<Seq<char>>>,
    offered: Ghost<Seq<Contextualized<Package>>>,
    failures: Ghost<nat>,
    successes: Ghost<nat>,
}

/// What a resolution asks for next.
pub enum Step<F: Fn(&Contextualized<Package>) -> bool> {
    /// A repo is to be fetched.
    Repo(RepoFetch<F>),
    /// A manifest is to be fetched.
    Manifest(ManifestFetch<F>),
    /// Every URL was attempted: these are the packages.
    Finished(Vec<Contextualized<Package>>),
}

/// A resolution that waits for a repo.
pub struct RepoFetch<F: Fn(&Contextualized<Package>) -> bool> {
    resolution: Resolution<F>,
}

/// A resolution that waits for a manifest.
pub struct ManifestFetch<F: Fn(&Contextualized<Package>) -> bool> {
    resolution: Resolution<F>,
}

impl<F: Fn(&Contextualized<Package>) -> bool> Resolution<F> {
    /// What holds of every resolution.
    #[verifier::type_invariant]
    pub closed spec fn valid(self) -> bool {
        &&& is_predicate(self.filter)
        &&& self.repos_done <= self.repo_urls@.len()
        &&& self.manifests_done <= self.manifest_urls@.len()
        &&& self.repos_done < self.repo_urls@.len() ==> self.manifests_done == 0
        &&& texts(self.manifest_urls@) == with_urls(Seq::empty(), self.listed@)
        &&& self.packages@ == self.offered@.filter(keeps(self.filter))
        &&& self.failures@ + self.successes@ == self.repos_done + self.manifests_done
    }

    /// The filter that the resolution applies.
    pub closed spec fn filter(self) -> F {
        self.filter
    }

    /// The repo URLs that the resolution was given, in their order.
    pub closed spec fn repo_urls(self) -> Seq<String> {
        self.repo_urls@
    }

    /// How many of the repo URLs were attempted.
    pub closed spec fn repos_done(self) -> nat {
        self.repos_done as nat
    }

    /// The manifest URLs that are known, in the order in which they came up.
    pub closed spec fn manifest_urls(self) -> Seq<String> {
        self.manifest_urls@
    }

    /// How many of the manifest URLs were attempted.
    pub closed spec fn manifests_done(self) -> nat {
        self.manifests_done as nat
    }

    /// The packages that were kept.
    pub closed spec fn packages(self) -> Seq<Contextualized<Package>> {
        self.packages@
    }

    /// Every manifest URL that was named so far: those that the resolution
    /// was given, then those of each repo that loaded.
    pub closed spec fn listed(self) -> Seq<Seq<char>> {
        self.listed@
    }

    /// Every package of every manifest that loaded, in the order of the
    /// visits.
    pub closed spec fn offered(self) -> Seq<Contextualized<Package>> {
        self.offered@
    }

    /// How many fetches failed. Each of them gave one issue.
    pub closed spec fn failures(self) -> nat {
        self.failures@
    }

    /// How many fetches brought a document.
    pub closed spec fn successes(self) -> nat {
        self.successes@
    }

    /// Whether every URL was attempted.
    pub open spec fn finished(self) -> bool {
        self.repos_done() == self.repo_urls().len() && self.manifests_done()
            == self.manifest_urls().len()
    }
}

/// Starts the resolution of `params`.
///
/// Nothing was attempted yet. The manifest URLs that are known are those of
/// `params`, each once.
pub fn resolve<F: Fn(&Contextualized<Package>) -> bool>(params: Params, filter: F) -> (r:
    Resolution<F>)
    requires
        is_predicate(filter),
    ensures
        r.valid(),
        r.filter() == filter,
        r.repo_urls() == params.repo_urls@,
        r.repos_done() == 0,
        texts(r.manifest_urls()) == with_urls(Seq::empty(), texts(params.manifest_urls@)),
        r.manifests_done() == 0,
        r.packages() == Seq::<Contextualized<Package>>::empty(),
        r.listed() == texts(params.manifest_urls@),
        r.offered() == Seq::<Contextualized<Package>>::empty(),
        r.failures() == 0,
        r.successes() == 0,
{
    let Params { manifest_urls: given, repo_urls } = params;
    let ghost named = texts(given@);
    let mut manifest_urls: Vec<String> = Vec::new();
    let ghost mut seen: int = 0;
    proof {
        assert(texts(manifest_urls@) == Seq::<Seq<char>>::empty());
        assert(named.take(0) == Seq::<Seq<char>>::empty());
    }
    for url in iter: given
        invariant
            seen == iter.index(),
            iter.seq() == given@,
            named == texts(given@),
            texts(manifest_urls@) == with_urls(Seq::empty(), named.take(seen)),
    {
        proof {
            lemma_with_urls_push(Seq::empty(), named.take(seen), url@);
            assert(named.take(seen).push(url@) == named.take(seen + 1));
            seen = seen + 1;
        }
        insert(&mut manifest_urls, url);
    }
    proof {
        assert(named.take(seen) == named);
        reveal(Seq::filter);
    }
    Resolution {
        filter,
        repo_urls,
        repos_done: 0,
        manifest_urls,
        manifests_done: 0,
        packages: Vec::new(),
        listed: Ghost(named),
        offered: Ghost(Seq::empty()),
        failures: Ghost(0),
        successes: Ghost(0),
    }
}

impl<F: Fn(&Contextualized<Package>) -> bool> Resolution<F> {
    /// What is due: the next repo URL to fetch, in the order in which they
    /// were given; after the last of them the next manifest URL, in the
    /// order in which they came up; after the last of those, the packages.
    pub fn next(self) -> (step: Step<F>)
        ensures
            match step {
                Step::Repo(fetch) => fetch.resolution() == self && self.repos_done()
                    < self.repo_urls().len(),
                Step::Manifest(fetch) => fetch.resolution() == self && self.repos_done()
                    == self.repo_urls().len() && self.manifests_done() < self.manifest_urls().len(),
                Step::Finished(packages) => self.finished() && packages@ == self.packages(),
            },
    {
        proof {
            use_type_invariant(&self);
        }
        if self.repos_done < self.repo_urls.len() {
            Step::Repo(RepoFetch { resolution: self })
        } else if self.manifests_done < self.manifest_urls.len() {
            Step::Manifest(ManifestFetch { resolution: self })
        } else {
            Step::Finished(self.packages)
        }
    }
}

impl<F: Fn(&Contextualized<Package>) -> bool> RepoFetch<F> {
    #[verifier::type_invariant]
    spec fn due(self) -> bool {
        self.resolution.valid() && self.resolution.repos_done < self.resolution.repo_urls@.len()
    }

    /// The resolution that waits.
    pub closed spec fn resolution(self) -> Resolution<F> {
        self.resolution
    }

    /// The URL of the repo to fetch.
    pub fn url(&self) -> (url: &String)
        ensures
            self.resolution().repos_done() < self.resolution().repo_urls().len(),
            *url == self.resolution().repo_urls()[self.resolution().repos_done() as int],
    {
        proof {
            use_type_invariant(self);
        }
        &self.resolution.repo_urls[self.resolution.repos_done]
    }

    /// Takes what came of fetching the repo.
    ///
    /// The manifest URLs of a repo that loaded join those that are known,
    /// each unless it is known already. A failure is the one issue handed
    /// back, and changes nothing else. Either way the repo was attempted.
    #[verifier::loop_isolation(false)]
    pub fn loaded(self, outcome: Result<Repo, LoadError>) -> (r: (
        Resolution<F>,
        Option<ResolutionError>,
    ))
        ensures
            r.0.valid(),
            r.0.filter() == self.resolution().filter(),
            r.0.repo_urls() == self.resolution().repo_urls(),
            r.0.repos_done() == self.resolution().repos_done() + 1,
            r.0.manifests_done() == self.resolution().manifests_done(),
            r.0.packages() == self.resolution().packages(),
            r.0.offered() == self.resolution().offered(),
            match outcome {
                Ok(repo) => {
                    &&& r.1 is None
                    &&& texts(r.0.manifest_urls()) == with_urls(
                        texts(self.resolution().manifest_urls()),
                        repo@,
                    )
                    &&& r.0.listed() == self.resolution().listed() + repo@
                    &&& r.0.failures() == self.resolution().failures()
                    &&& r.0.successes() == self.resolution().successes() + 1
                },
                Err(error) => {
                    &&& r.1 matches Some(issue)
                    &&& issue.url == self.resolution().repo_urls()[self.resolution().repos_done() as int]
                    &&& issue.error@ == error.text()
                    &&& r.0.manifest_urls() == self.resolution().manifest_urls()
                    &&& r.0.listed() == self.resolution().listed()
                    &&& r.0.failures() == self.resolution().failures() + 1
                    &&& r.0.successes() == self.resolution().successes()
                },
            },
    {
        proof {
            use_type_invariant(&self);
            use_type_invariant(&self.resolution);
        }
        let Resolution {
            filter,
            repo_urls,
            repos_done,
            manifest_urls,
            manifests_done,
            packages,
            listed,
            offered,
            failures,
            successes,
        } = self.resolution;
        let repos = repo_urls.len();
        assert(repos_done < repos);
        let mut manifest_urls = manifest_urls;
        match outcome {
            Ok(repo) => {
                let ghost before = texts(manifest_urls@);
                let ghost named = repo@;
                let ghost mut seen: int = 0;
                proof {
                    assert(named.take(0) == Seq::<Seq<char>>::empty());
                }
                for item in iter: repo.manifest_urls
                    invariant
                        seen == iter.index(),
                        iter.seq() == repo.manifest_urls@,
                        named == repo@,
                        texts(manifest_urls@) == with_urls(before, named.take(seen)),
                {
                    proof {
                        lemma_with_urls_push(before, named.take(seen), item.url@);
                        assert(named.take(seen).push(item.url@) == named.take(seen + 1));
                        seen = seen + 1;
                    }
                    insert(&mut manifest_urls, item.url);
                }
                proof {
                    assert(named.take(seen) == named);
                    lemma_with_urls_add(Seq::empty(), listed@, named);
                }
                (
                    Resolution {
                        filter,
                        repo_urls,
                        repos_done: repos_done + 1,
                        manifest_urls,
                        manifests_done,
                        packages,
                        listed: Ghost(listed@ + named),
                        offered,
                        failures,
                        successes: Ghost(successes@ + 1),
                    },
                    None,
                )
            },
            Err(error) => {
                let issue = ResolutionError {
                    url: repo_urls[repos_done].clone(),
                    error: error.to_string(),
                };
                (
                    Resolution {
                        filter,
                        repo_urls,
                        repos_done: repos_done + 1,
                        manifest_urls,
                        manifests_done,
                        packages,
                        listed,
                        offered,
                        failures: Ghost(failures@ + 1),
                        successes,
                    },
                    Some(issue),
                )
            },
        }
    }
}

impl<F: Fn(&Contextualized<Package>) -> bool> ManifestFetch<F> {
    #[verifier::type_invariant]
    spec fn due(self) -> bool {
        &&& self.resolution.valid()
        &&& self.resolution.repos_done == self.resolution.repo_urls@.len()
        &&& self.resolution.manifests_done < self.resolution.manifest_urls@.len()
    }

    /// The resolution that waits.
    pub closed spec fn resolution(self) -> Resolution<F> {
        self.resolution
    }

    /// The URL of the manifest to fetch.
    pub fn url(&self) -> (url: &String)
        ensures
            self.resolution().manifests_done() < self.resolution().manifest_urls().len(),
            *url == self.resolution().manifest_urls()[self.resolution().manifests_done() as int],
    {
        proof {
            use_type_invariant(self);
        }
        &self.resolution.manifest_urls[self.resolution.manifests_done]
    }

    /// Takes what came of fetching the manifest.
    ///
    /// Each package of a manifest that loaded is paired with the URL of the
    /// manifest, and those that the filter keeps join the packages, in the
    /// order of the manifest. A failure is the one issue handed back, and
    /// changes nothing else. Either way the manifest was attempted.
    #[verifier::loop_isolation(false)]
    pub fn loaded(self, outcome: Result<Manifest, LoadError>) -> (r: (
        Resolution<F>,
        Option<ResolutionError>,
    ))
        ensures
            r.0.valid(),
            r.0.filter() == self.resolution().filter(),
            r.0.repo_urls() == self.resolution().repo_urls(),
            r.0.repos_done() == self.resolution().repos_done(),
            r.0.manifest_urls() == self.resolution().manifest_urls(),
            r.0.manifests_done() == self.resolution().manifests_done() + 1,
            r.0.listed() == self.resolution().listed(),
            match outcome {
                Ok(manifest) => {
                    let found = contextualized(
                        self.resolution().manifest_urls()[self.resolution().manifests_done() as int],
                        manifest.packages@,
                    );
                    &&& r.1 is None
                    &&& r.0.offered() == self.resolution().offered() + found
                    &&& r.0.packages() == self.resolution().packages() + found.filter(
                        keeps(self.resolution().filter()),
                    )
                    &&& r.0.failures() == self.resolution().failures()
                    &&& r.0.successes() == self.resolution().successes() + 1
                },
                Err(error) => {
                    &&& r.1 matches Some(issue)
                    &&& issue.url == self.resolution().manifest_urls()[self.resolution().manifests_done() as int]
                    &&& issue.error@ == error.text()
                    &&& r.0.offered() == self.resolution().offered()
                    &&& r.0.packages() == self.resolution().packages()
                    &&& r.0.failures() == self.resolution().failures() + 1
                    &&& r.0.successes() == self.resolution().successes()
                },
            },
    {
        proof {
            use_type_invariant(&self);
            use_type_invariant(&self.resolution);
        }
        let Resolution {
            filter,
            repo_urls,
            repos_done,
            manifest_urls,
            manifests_done,
            packages,
            listed,
            offered,
            failures,
            successes,
        } = self.resolution;
        let mut packages = packages;
        let manifests = manifest_urls.len();
        assert(manifests_done < manifests);
        match outcome {
            Ok(manifest) => {
                let url = manifest_urls[manifests_done].clone();
                let ghost before = packages@;
                let ghost found = contextualized(url, manifest.packages@);
                let ghost mut seen: int = 0;
                proof {
                    reveal(Seq::filter);
                    assert(found.take(0).filter(keeps(filter)) == Seq::<
                        Contextualized<Package>,
                    >::empty());
                }
                for package in iter: manifest.packages
                    invariant
                        seen == iter.index(),
                        iter.seq() == manifest.packages@,
                        found == contextualized(url, manifest.packages@),
                        is_predicate(filter),
                        packages@ == before + found.take(seen).filter(keeps(filter)),
                {
                    let item = Contextualized { manifest_url: url.clone(), value: package };
                    proof {
                        reveal(Seq::filter);
                        assert(found[seen] == item);
                        assert(found.take(seen + 1).drop_last() == found.take(seen));
                        assert(found.take(seen + 1).last() == item);
                        seen = seen + 1;
                    }
                    if filter(&item) {
                        assert(keeps(filter)(item));
                        packages.push(item);
                    } else {
                        assert(!keeps(filter)(item));
                    }
                }
                proof {
                    assert(found.take(seen) == found);
                    Seq::filter_distributes_over_add(offered@, found, keeps(filter));
                }
                (
                    Resolution {
                        filter,
                        repo_urls,
                        repos_done,
                        manifest_urls,
                        manifests_done: manifests_done + 1,
                        packages,
                        listed,
                        offered: Ghost(offered@ + found),
                        failures,
                        successes: Ghost(successes@ + 1),
                    },
                    None,
                )
            },
            Err(error) => {
                let issue = ResolutionError {
                    url: manifest_urls[manifests_done].clone(),
                    error: error.to_string(),
                };
                (
                    Resolution {
                        filter,
                        repo_urls,
                        repos_done,
                        manifest_urls,
                        manifests_done: manifests_done + 1,
                        packages,
                        listed,
                        offered,
                        failures: Ghost(failures@ + 1),
                        successes,
                    },
                    Some(issue),
                )
            },
        }
    }
}

/// No manifest is fetched twice: the manifest URLs of a resolution, which
/// are fetched one by one in their order, differ from each other, however
/// often the params and the repos named them.
pub proof fn lemma_manifests_are_fetched_once<F: Fn(&Contextualized<Package>) -> bool>(
    resolution: Resolution<F>,
    i: int,
    j: int,
)
    requires
        resolution.valid(),
        0 <= i < j < resolution.manifest_urls().len(),
    ensures
        resolution.manifest_urls()[i]@ != resolution.manifest_urls()[j]@,
{
    lemma_with_urls(Seq::empty(), resolution.listed());
    let urls = texts(resolution.manifest_urls());
    assert(urls[i] == resolution.manifest_urls()[i]@);
    assert(urls[j] == resolution.manifest_urls()[j]@);
}

/// The manifest URLs of a resolution are those that were named, by the
/// params or by a repo that loaded, and no others.
pub proof fn lemma_named_manifests_are_known<F: Fn(&Contextualized<Package>) -> bool>(
    resolution: Resolution<F>,
    url: Seq<char>,
)
    requires
        resolution.valid(),
    ensures
        texts(resolution.manifest_urls()).contains(url) <==> resolution.listed().contains(url),
{
    lemma_with_urls(Seq::empty(), resolution.listed());
    assert(!Seq::<Seq<char>>::empty().contains(url));
}

/// Every fetch of a resolution either brought a document or failed, and
/// each failure gave one issue: when every URL was attempted, the issues
/// are as many as the repo URLs and the manifest URLs together, less the
/// fetches that brought a document.
pub proof fn lemma_one_issue_for_each_failure<F: Fn(&Contextualized<Package>) -> bool>(
    resolution: Resolution<F>,
)
    requires
        resolution.valid(),
    ensures
        resolution.failures() + resolution.successes() == resolution.repos_done()
            + resolution.manifests_done(),
        resolution.finished() ==> resolution.failures() + resolution.successes()
            == resolution.repo_urls().len() + resolution.manifest_urls().len(),
{
}

/// The packages of a resolution are the packages of the manifests that
/// loaded which the filter keeps, all of them and in their order.
pub proof fn lemma_packages_are_those_kept<F: Fn(&Contextualized<Package>) -> bool>(
    resolution: Resolution<F>,
)
    requires
        resolution.valid(),
    ensures
        resolution.packages() == resolution.offered().filter(keeps(resolution.filter())),
        forall|i: int|
            0 <= i < resolution.offered().len() && keeps(resolution.filter())(
                resolution.offered()[i],
            ) ==> resolution.packages().contains(#[trigger] resolution.offered()[i]),
        forall|i: int|
            0 <= i < resolution.packages().len() ==> keeps(resolution.filter())(
                #[trigger] resolution.packages()[i],
            ) && resolution.offered().contains(resolution.packages()[i]),
{
    let offered = resolution.offered();
    let kept = keeps(resolution.filter());
    assert forall|i: int| 0 <= i < offered.len() && kept(offered[i]) implies offered.filter(
        kept,
    ).contains(#[trigger] offered[i]) by {
        offered.lemma_filter_contains(kept, i);
    }
    assert forall|i: int| 0 <= i < offered.filter(kept).len() implies kept(
        #[trigger] offered.filter(kept)[i],
    ) && offered.contains(offered.filter(kept)[i]) by {
        offered.lemma_filter_pred(kept, i);
        assert(offered.filter(kept).contains(offered.filter(kept)[i]));
        offered.lemma_filter_contains_rev(kept, offered.filter(kept)[i]);
    }
}

} // verus!
