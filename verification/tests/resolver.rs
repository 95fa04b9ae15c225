use humanode_distribution::resolver::filter;
use humanode_distribution::resolver::http::{load_meta, Body, LoadError, ACCEPT};
use humanode_distribution::resolver::resolve::{
    resolve, Contextualized, Params, ResolutionError, Step,
};
use humanode_distribution::schema::manifest::{
    Arch, AsPackage, LocalPath, Manifest, Package, Platform, PlatformSpecializations,
};
use humanode_distribution::schema::repo::{ManifestUrl, Repo};
use humanode_distribution::status::StatusCode;
use std::collections::HashMap;

fn package(display_name: &str, platform: &str, arch: &str) -> Package {
    Package {
        platform: Platform(platform.to_owned()),
        platform_specializations: PlatformSpecializations(HashMap::new()),
        arch: Arch(arch.to_owned()),
        display_name: display_name.to_owned(),
        description: String::new(),
        icon: String::new(),
        executable_path: LocalPath("bin/app".to_owned()),
        chainspec_path: LocalPath("chainspec.json".to_owned()),
        ngrok_path: LocalPath("bin/ngrok".to_owned()),
        humanode_websocket_tunnel_client_path: LocalPath("bin/tunnel".to_owned()),
        files: Vec::new(),
    }
}

fn strings(items: &[&str]) -> Vec<String> {
    items.iter().map(|item| (*item).to_owned()).collect()
}

fn repo(urls: &[&str]) -> Repo {
    Repo { manifest_urls: urls.iter().map(|url| ManifestUrl { url: (*url).to_owned() }).collect() }
}

fn linux() -> filter::Params {
    filter::Params { platform: "Linux".to_owned(), arch: "x86_64".to_owned() }
}

/// The documents that the test servers hold, by URL.
fn repo_at(url: &str) -> Result<Repo, LoadError> {
    match url {
        "repo-1" => Ok(repo(&["m-1", "m-2"])),
        "repo-2" => Ok(repo(&["m-2", "m-3", "m-2"])),
        "repo-down" => Err(LoadError::Server(StatusCode::from_u16(503).unwrap())),
        _ => Err(LoadError::Reqwest("no route".to_owned())),
    }
}

fn manifest_at(url: &str) -> Result<Manifest, LoadError> {
    match url {
        "m-1" => Ok(Manifest {
            packages: vec![
                package("one-linux", "Linux", "x86_64"),
                package("one-mac", "Darwin", "arm64"),
                package("one-linux-arm", "Linux", "arm64"),
            ],
        }),
        "m-2" => Ok(Manifest { packages: vec![package("two-linux", "Linux", "x86_64")] }),
        "m-3" => Ok(Manifest { packages: Vec::new() }),
        "m-broken" => Err(LoadError::Serde("missing field".to_owned())),
        _ => Err(LoadError::Server(StatusCode::from_u16(404).unwrap())),
    }
}

struct Run {
    fetched: Vec<String>,
    issues: Vec<ResolutionError>,
    packages: Vec<Contextualized<Package>>,
}

fn run(manifest_urls: &[&str], repo_urls: &[&str]) -> Run {
    let target = linux();
    let params = Params { manifest_urls: strings(manifest_urls), repo_urls: strings(repo_urls) };
    let mut resolution = resolve(params, |item: &Contextualized<Package>| target.matches(item));
    let mut fetched = Vec::new();
    let mut issues = Vec::new();
    loop {
        let (next, issue) = match resolution.next() {
            Step::Repo(fetch) => {
                fetched.push(format!("repo {}", fetch.url()));
                let outcome = repo_at(fetch.url());
                fetch.loaded(outcome)
            }
            Step::Manifest(fetch) => {
                fetched.push(format!("manifest {}", fetch.url()));
                let outcome = manifest_at(fetch.url());
                fetch.loaded(outcome)
            }
            Step::Finished(packages) => return Run { fetched, issues, packages },
        };
        resolution = next;
        issues.extend(issue);
    }
}

fn names(run: &Run) -> Vec<(String, String)> {
    run.packages
        .iter()
        .map(|item| (item.manifest_url.clone(), item.value.display_name.clone()))
        .collect()
}

fn pair(url: &str, name: &str) -> (String, String) {
    (url.to_owned(), name.to_owned())
}

#[test]
fn resolve_nothing() {
    let run = run(&[], &[]);
    assert!(run.fetched.is_empty());
    assert!(run.issues.is_empty());
    assert!(run.packages.is_empty());
}

#[test]
fn resolve_visits_repos_then_manifests() {
    let run = run(&["m-3"], &["repo-1"]);
    assert_eq!(run.fetched, strings(&["repo repo-1", "manifest m-3", "manifest m-1", "manifest m-2"]));
    assert!(run.issues.is_empty());
    assert_eq!(names(&run), vec![pair("m-1", "one-linux"), pair("m-2", "two-linux")]);
}

#[test]
fn resolve_fetches_a_manifest_once() {
    let run = run(&["m-2", "m-2", "m-1"], &["repo-1", "repo-2"]);
    let manifests: Vec<&String> =
        run.fetched.iter().filter(|line| line.starts_with("manifest")).collect();
    assert_eq!(manifests, ["manifest m-2", "manifest m-1", "manifest m-3"]);
    assert_eq!(names(&run), vec![pair("m-2", "two-linux"), pair("m-1", "one-linux")]);
}

#[test]
fn resolve_visits_a_repo_as_often_as_it_is_named() {
    let run = run(&[], &["repo-1", "repo-1"]);
    assert_eq!(
        run.fetched,
        strings(&["repo repo-1", "repo repo-1", "manifest m-1", "manifest m-2"])
    );
}

#[test]
fn resolve_goes_on_after_a_failure() {
    let run = run(&["m-broken", "m-2", "m-gone"], &["repo-down", "repo-1", "repo-lost"]);
    assert_eq!(
        run.fetched,
        strings(&[
            "repo repo-down",
            "repo repo-1",
            "repo repo-lost",
            "manifest m-broken",
            "manifest m-2",
            "manifest m-gone",
            "manifest m-1",
        ])
    );
    let issues: Vec<(&str, &str)> =
        run.issues.iter().map(|issue| (issue.url.as_str(), issue.error.as_str())).collect();
    assert_eq!(
        issues,
        [
            ("repo-down", "server error: 503 Service Unavailable"),
            ("repo-lost", "reqwest error: no route"),
            ("m-broken", "serde error: missing field"),
            ("m-gone", "server error: 404 Not Found"),
        ]
    );
    assert_eq!(names(&run), vec![pair("m-2", "two-linux"), pair("m-1", "one-linux")]);
}

#[test]
fn resolve_counts_one_issue_for_each_failure() {
    let run = run(&["m-gone", "m-broken"], &["repo-lost"]);
    assert_eq!(run.fetched.len(), 3);
    assert_eq!(run.issues.len(), 3);
    assert!(run.packages.is_empty());
}

#[test]
fn resolve_applies_the_filter_it_is_given() {
    let params = Params { manifest_urls: strings(&["m-1"]), repo_urls: Vec::new() };
    let resolution = resolve(params, |item: &Contextualized<Package>| {
        item.value.display_name.ends_with("mac")
    });
    let fetch = match resolution.next() {
        Step::Manifest(fetch) => fetch,
        _ => panic!("a manifest is due"),
    };
    let (resolution, issue) = fetch.loaded(manifest_at("m-1"));
    assert!(issue.is_none());
    match resolution.next() {
        Step::Finished(packages) => {
            assert_eq!(packages.len(), 1);
            assert_eq!(packages[0].value.display_name, "one-mac");
            assert_eq!(packages[0].manifest_url, "m-1");
        }
        _ => panic!("nothing is left"),
    }
}

#[test]
fn filter_matches_platform_and_arch() {
    let target = linux();
    assert!(target.matches(&package("a", "Linux", "x86_64")));
    assert!(!target.matches(&package("a", "Linux", "arm64")));
    assert!(!target.matches(&package("a", "Darwin", "x86_64")));
    assert!(!target.matches(&package("a", "linux", "x86_64")));
    let item = Contextualized { manifest_url: "m".to_owned(), value: package("a", "Linux", "x86_64") };
    assert!(target.matches(&item));
    assert_eq!(item.as_ref().display_name, "a");
    assert_eq!(item.package().display_name, "a");
}

#[test]
fn filter_keeps_the_matching_items_in_order() {
    let items = vec![
        package("a", "Linux", "x86_64"),
        package("b", "Darwin", "x86_64"),
        package("c", "Linux", "x86_64"),
        package("d", "Linux", "arm64"),
        package("e", "Linux", "x86_64"),
    ];
    let kept: Vec<String> =
        linux().filter(items).into_iter().map(|package| package.display_name).collect();
    assert_eq!(kept, ["a", "c", "e"]);
    assert!(linux().filter(Vec::<Package>::new()).is_empty());
}

#[test]
fn load_meta_reads_the_body_of_a_success_only() {
    for code in [200u16, 204, 299] {
        assert!(load_meta(Ok(StatusCode::from_u16(code).unwrap())).is_ok());
    }
    for code in [100u16, 199, 300, 404, 500, 999] {
        match load_meta(Ok(StatusCode::from_u16(code).unwrap())) {
            Err(LoadError::Server(status)) => assert_eq!(status.as_u16(), code),
            _ => panic!("status {code} is no success"),
        }
    }
}

#[test]
fn load_meta_fails_with_the_request() {
    match load_meta(Err("dns".to_owned())) {
        Err(LoadError::Reqwest(cause)) => assert_eq!(cause, "dns"),
        _ => panic!("the request failed"),
    }
}

#[test]
fn load_meta_takes_what_came_of_the_body() {
    let answered = || match load_meta(Ok(StatusCode::from_u16(200).unwrap())) {
        Ok(load) => load,
        Err(error) => panic!("unexpected {error:?}"),
    };
    assert!(matches!(answered().body(Body::Parsed(7u8)), Ok(7)));
    match answered().body(Body::<u8>::Unread("reset".to_owned())) {
        Err(LoadError::Reqwest(cause)) => assert_eq!(cause, "reset"),
        _ => panic!("the body was not read"),
    }
    match answered().body(Body::<u8>::Unparsable("bad yaml".to_owned())) {
        Err(LoadError::Serde(cause)) => assert_eq!(cause, "bad yaml"),
        _ => panic!("the body was not parsed"),
    }
}

#[test]
fn load_errors_describe_themselves() {
    assert_eq!(LoadError::Reqwest("timed out".to_owned()).to_string(), "reqwest error: timed out");
    assert_eq!(
        LoadError::Server(StatusCode::from_u16(500).unwrap()).to_string(),
        "server error: 500 Internal Server Error"
    );
    assert_eq!(LoadError::Serde("bad".to_owned()).to_string(), "serde error: bad");
}

#[test]
fn status_codes_are_three_digits() {
    assert!(StatusCode::from_u16(99).is_none());
    assert!(StatusCode::from_u16(1000).is_none());
    assert!(StatusCode::from_u16(0).is_none());
    let status = StatusCode::from_u16(200).unwrap();
    assert_eq!(status.as_u16(), 200);
    assert!(status.is_success());
    assert_eq!(status.to_string(), "200 OK");
    assert_eq!(StatusCode::from_u16(799).unwrap().to_string(), "799 <unknown status code>");
    assert!(!StatusCode::from_u16(300).unwrap().is_success());
    assert!(!StatusCode::from_u16(199).unwrap().is_success());
}

#[test]
fn accept_advertises_json_and_yaml() {
    assert_eq!(ACCEPT, "application/json,application/x-yaml,text/yaml");
}

#[test]
fn resolution_error_from_display() {
    let issue = ResolutionError::from_display("https://example.com".to_owned(), "boom");
    assert_eq!(issue.url, "https://example.com");
    assert_eq!(issue.error, "boom");
    let issue = ResolutionError::from_display("u".to_owned(), 42);
    assert_eq!(issue.error, "42");
}
