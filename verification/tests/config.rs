use humanode_distribution::config::load::{
    sources, Entry, Failure, Loading, LoadingError, SourcesLoadingErrors,
};
use humanode_distribution::config::schemas::{manifest_urls, repos};
use humanode_distribution::config::{add_built_in_sources, dirs, paths, prepare_sources, Sources};
use humanode_distribution::detection::{target, Info, Target};
use humanode_distribution::issue_printer::Stderr;
use humanode_distribution::package_render::{Encoding, Renderer};
use humanode_distribution::resolver::resolve::ResolutionError;
use humanode_distribution::schema::manifest::{
    Arch, LocalPath, Package, Platform, PlatformSpecializations,
};
use std::collections::HashMap;

fn strings(items: &[&str]) -> Vec<String> {
    items.iter().map(|item| (*item).to_owned()).collect()
}

fn some_sources(manifest_urls: &[&str], repo_urls: &[&str]) -> Sources {
    Sources { manifest_urls: strings(manifest_urls), repo_urls: strings(repo_urls) }
}

fn failure(text: &str, not_found: bool) -> Failure {
    Failure { text: text.to_owned(), not_found }
}

#[test]
fn sources_extend_concatenates() {
    let mut sources = some_sources(&["m-1", "m-2"], &["r-1"]);
    sources.extend(some_sources(&["m-2", "m-3"], &["r-1", "r-2"]));
    assert_eq!(sources.manifest_urls, ["m-1", "m-2", "m-2", "m-3"]);
    assert_eq!(sources.repo_urls, ["r-1", "r-1", "r-2"]);
    sources.extend(Sources::default());
    assert_eq!(sources.manifest_urls.len(), 4);
    assert_eq!(sources.repo_urls.len(), 3);
}

#[test]
fn default_sources_are_empty() {
    let sources = Sources::default();
    assert!(sources.manifest_urls.is_empty());
    assert!(sources.repo_urls.is_empty());
}

#[test]
fn built_in_sources_come_behind() {
    let mut sources = some_sources(&["m-1"], &["r-1"]);
    add_built_in_sources(&mut sources, &["r-2", "r-3"], &["m-2"]);
    assert_eq!(sources.manifest_urls, ["m-1", "m-2"]);
    assert_eq!(sources.repo_urls, ["r-1", "r-2", "r-3"]);
}

#[test]
fn prepared_sources_are_in_order() {
    let sources = prepare_sources(
        Some(some_sources(&["m-built-in"], &["r-built-in"])),
        Some(some_sources(&["m-config"], &["r-config"])),
        strings(&["r-arg"]),
        strings(&["m-arg"]),
    );
    assert_eq!(sources.manifest_urls, ["m-built-in", "m-config", "m-arg"]);
    assert_eq!(sources.repo_urls, ["r-built-in", "r-config", "r-arg"]);
    let sources = prepare_sources(None, None, strings(&["r-arg"]), Vec::new());
    assert!(sources.manifest_urls.is_empty());
    assert_eq!(sources.repo_urls, ["r-arg"]);
}

#[test]
fn config_directories_have_their_names() {
    assert_eq!(dirs::REPOS, "repos.d");
    assert_eq!(dirs::MANIFEST_URLS, "manifestUrls.d");
    assert_eq!(paths::SUBDIR, "humanode-launcher");
}

#[test]
fn config_files_list_their_urls() {
    let file = repos::Format {
        repo_urls: vec![
            repos::RepoUrl { url: "r-1".to_owned() },
            repos::RepoUrl { url: "r-2".to_owned() },
        ],
    };
    assert_eq!(file.into_urls(), ["r-1", "r-2"]);
    let file = manifest_urls::Format {
        manifest_urls: vec![manifest_urls::ManifestUrl { url: "m-1".to_owned() }],
    };
    assert_eq!(file.into_urls(), ["m-1"]);
}

#[test]
fn loading_collects_urls_and_errors() {
    let mut loading = Loading::new();
    assert!(loading.entry(Entry::Parsed(strings(&["a", "b"]))));
    assert!(loading.entry(Entry::FileUnreadable(failure("denied", false), "d/x".to_owned())));
    assert!(loading.entry(Entry::Unparsable("bad yaml".to_owned(), "d/y".to_owned())));
    assert!(loading.entry(Entry::Parsed(strings(&["c"]))));
    assert!(!loading.entry(Entry::Unreadable(failure("io", false), "d".to_owned())));
    assert_eq!(loading.values, ["a", "b", "c"]);
    let texts: Vec<String> = loading.errors.iter().map(|error| error.to_string()).collect();
    assert_eq!(
        texts,
        ["reading file d/x: denied", "parsing file d/y: bad yaml", "reading directory entry d: io"]
    );
}

#[test]
fn loading_of_a_missing_directory_is_boring() {
    let loading = Loading::dir_failed(failure("not found", true), "d".to_owned());
    assert!(loading.values.is_empty());
    assert_eq!(loading.errors.len(), 1);
    assert!(loading.errors[0].is_boring());
    assert_eq!(loading.errors[0].to_string(), "reading directory d: not found");
    let loading = Loading::dir_failed(failure("denied", false), "d".to_owned());
    assert!(!loading.errors[0].is_boring());
    assert!(!LoadingError::FileReading(failure("not found", true), "f".to_owned()).is_boring());
    assert!(!LoadingError::DirNextEntry(failure("not found", true), "d".to_owned()).is_boring());
    assert!(!LoadingError::Parsing("bad".to_owned(), "f".to_owned()).is_boring());
}

#[test]
fn loading_errors_sum_up() {
    let none = SourcesLoadingErrors { manifest_urls: Vec::new(), repo_urls: Vec::new() };
    assert!(none.is_empty());
    assert_eq!(none.to_string(), "no errors occurred while loading the source configs");
    let some = SourcesLoadingErrors {
        manifest_urls: vec![
            LoadingError::Parsing("bad".to_owned(), "m".to_owned()),
            LoadingError::FileReading(failure("denied", false), "n".to_owned()),
        ],
        repo_urls: vec![LoadingError::DirReading(failure("gone", true), "r".to_owned())],
    };
    assert!(!some.is_empty());
    assert_eq!(some.to_string(), "3 errors have occurred while loading the source configs");
    let all: Vec<String> = some.all().iter().map(|error| error.to_string()).collect();
    assert_eq!(all, ["parsing file m: bad", "reading file n: denied", "reading directory r: gone"]);
}

#[test]
fn loaded_sources_keep_their_kinds_apart() {
    let mut repo_urls = Loading::new();
    repo_urls.entry(Entry::Parsed(strings(&["r-1"])));
    let manifest_urls = Loading::dir_failed(failure("gone", true), "m.d".to_owned());
    let result = sources(repo_urls, manifest_urls);
    assert_eq!(result.sources.repo_urls, ["r-1"]);
    assert!(result.sources.manifest_urls.is_empty());
    assert!(result.errors.repo_urls.is_empty());
    assert_eq!(result.errors.manifest_urls.len(), 1);
}

#[test]
fn target_is_detected_only_where_it_is_left_out() {
    match target(Some("Linux".to_owned()), Some("x86_64".to_owned())) {
        Target::Given(params) => {
            assert_eq!((params.platform.as_str(), params.arch.as_str()), ("Linux", "x86_64"));
        }
        Target::Detect(_) => panic!("both were named"),
    }
    let info = || Info { arch: "arm64".to_owned(), platform: "Darwin".to_owned() };
    let detected = |platform: Option<&str>, arch: Option<&str>| {
        match target(platform.map(str::to_owned), arch.map(str::to_owned)) {
            Target::Detect(detection) => {
                let params = detection.detected(info());
                (params.platform, params.arch)
            }
            Target::Given(_) => panic!("something was left out"),
        }
    };
    assert_eq!(detected(None, None), ("Darwin".to_owned(), "arm64".to_owned()));
    assert_eq!(detected(Some("Linux"), None), ("Linux".to_owned(), "arm64".to_owned()));
    assert_eq!(detected(None, Some("x86_64")), ("Darwin".to_owned(), "x86_64".to_owned()));
}

#[test]
fn renderer_frames_the_document() {
    let package = Package {
        platform: Platform("Linux".to_owned()),
        platform_specializations: PlatformSpecializations(HashMap::new()),
        arch: Arch("x86_64".to_owned()),
        display_name: "App".to_owned(),
        description: String::new(),
        icon: String::new(),
        executable_path: LocalPath("bin/app".to_owned()),
        chainspec_path: LocalPath("chainspec.json".to_owned()),
        ngrok_path: LocalPath("bin/ngrok".to_owned()),
        humanode_websocket_tunnel_client_path: LocalPath("bin/tunnel".to_owned()),
        files: Vec::new(),
    };
    assert_eq!(Renderer::DisplayName.encoding(), None);
    assert_eq!(Renderer::Yaml.encoding(), Some(Encoding::Yaml));
    assert_eq!(Renderer::Json.encoding(), Some(Encoding::Json));
    assert_eq!(Renderer::DisplayName.render_to_string(&package, "ignored"), "App");
    assert_eq!(Renderer::Yaml.render_to_string(&package, "a: 1\n"), "---\na: 1\n");
    assert_eq!(Renderer::Json.render_to_string(&package, "{}"), "{}");
}

#[test]
fn issues_are_reported_in_one_line() {
    let issue = ResolutionError { url: "https://example.com/repo".to_owned(), error: "boom".to_owned() };
    assert_eq!(
        Stderr.line(&issue),
        "An error occurred during resolution at https://example.com/repo: boom"
    );
}
