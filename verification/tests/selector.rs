use humanode_distribution::schema::manifest::{
    Arch, File, LocalPath, Package, Platform, PlatformSpecializations, Sha256, Url,
};
use humanode_distribution::selector::{SelectionError, Selector};
use std::collections::HashMap;

fn package(display_name: &str) -> Package {
    Package {
        platform: Platform("Linux".to_owned()),
        platform_specializations: PlatformSpecializations(HashMap::new()),
        arch: Arch("x86_64".to_owned()),
        display_name: display_name.to_owned(),
        description: "A package".to_owned(),
        icon: "icon.png".to_owned(),
        executable_path: LocalPath("bin/app".to_owned()),
        chainspec_path: LocalPath("chainspec.json".to_owned()),
        ngrok_path: LocalPath("bin/ngrok".to_owned()),
        humanode_websocket_tunnel_client_path: LocalPath("bin/tunnel".to_owned()),
        files: vec![File {
            sub_url: Url("bin/app".to_owned()),
            destination_sub_path: LocalPath("bin/app".to_owned()),
            sha256: Sha256("00".to_owned()),
        }],
    }
}

fn named(name: &str) -> Selector {
    Selector { package_display_name: Some(name.to_owned()) }
}

fn unnamed() -> Selector {
    Selector { package_display_name: None }
}

#[test]
fn select_from_nothing_finds_no_packages() {
    let none: Vec<Package> = Vec::new();
    assert!(matches!(unnamed().select(none), Err(SelectionError::NoPackages)));
    let none: Vec<Package> = Vec::new();
    assert!(matches!(named("a").select(none), Err(SelectionError::NoPackages)));
}

#[test]
fn select_the_only_package_by_default() {
    let selected = unnamed().select(vec![package("only")]).unwrap();
    assert_eq!(selected.display_name, "only");
}

#[test]
fn select_among_several_needs_a_name() {
    let result = unnamed().select(vec![package("a"), package("b")]);
    assert!(matches!(result, Err(SelectionError::NotSpecificEnough)));
}

#[test]
fn select_by_name_at_any_position() {
    for wanted in ["a", "b", "c"] {
        let all = vec![package("a"), package("b"), package("c")];
        let selected = named(wanted).select(all).unwrap();
        assert_eq!(selected.display_name, wanted);
    }
}

#[test]
fn select_by_name_takes_the_first_of_that_name() {
    let mut first = package("same");
    first.description = "first".to_owned();
    let mut second = package("same");
    second.description = "second".to_owned();
    let selected = named("same").select(vec![package("other"), first, second]).unwrap();
    assert_eq!(selected.description, "first");
}

#[test]
fn select_by_unknown_name_is_not_found() {
    let result = named("z").select(vec![package("a"), package("b")]);
    assert!(matches!(result, Err(SelectionError::NotFound)));
    let result = named("z").select(vec![package("a")]);
    assert!(matches!(result, Err(SelectionError::NotFound)));
}

#[test]
fn selection_errors_describe_themselves() {
    assert_eq!(SelectionError::NoPackages.to_string(), "no packages are available");
    assert_eq!(
        SelectionError::NotSpecificEnough.to_string(),
        "more than one package is available, use a selector to specify which one you want"
    );
    assert_eq!(SelectionError::NotFound.to_string(), "unable to find the requested package");
}
