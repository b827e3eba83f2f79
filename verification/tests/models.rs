use deps_status::engine::{AnalyzeDependenciesOutcome, Elapsed};
use deps_status::models::crates::{
    any_outdated_in, AnalyzedDependencies, AnalyzedDependency, CrateName,
};
use deps_status::models::repo::{RepoPath, RepoSite};
use ordermap::OrderMap;

fn name(text: &str) -> CrateName {
    CrateName::new(text.to_string()).expect("a crate name")
}

fn dependency(required: &str, latest: Option<&str>, latest_satisfies: bool) -> AnalyzedDependency {
    AnalyzedDependency {
        required: required.to_string(),
        latest: latest.map(|version| version.to_string()),
        latest_satisfies,
    }
}

fn map_of(entries: Vec<(&str, AnalyzedDependency)>) -> OrderMap<CrateName, AnalyzedDependency> {
    let mut map = OrderMap::new();
    for (crate_name, analyzed) in entries {
        map.insert(name(crate_name), analyzed);
    }
    map
}

fn dependencies(
    main: Vec<(&str, AnalyzedDependency)>,
    dev: Vec<(&str, AnalyzedDependency)>,
    build: Vec<(&str, AnalyzedDependency)>,
) -> AnalyzedDependencies {
    AnalyzedDependencies { main: map_of(main), dev: map_of(dev), build: map_of(build) }
}

#[test]
fn crate_name_must_not_be_empty() {
    assert!(CrateName::new(String::new()).is_none());
    assert_eq!(name("serde").as_str(), "serde");
    assert_eq!(name("serde").clone().as_str(), "serde");
}

#[test]
fn crate_names_are_equal_when_their_text_is() {
    assert_eq!(name("serde"), name("serde"));
    assert_ne!(name("serde"), name("serde_json"));
}

#[test]
fn repo_path_needs_owner_and_name() {
    assert!(RepoPath::new(RepoSite::Github, String::new(), "cargo".to_string()).is_none());
    assert!(RepoPath::new(RepoSite::Github, "rust-lang".to_string(), String::new()).is_none());
    assert!(RepoPath::new(RepoSite::Github, String::new(), String::new()).is_none());
    let path = RepoPath::new(RepoSite::Gitlab, "rust-lang".to_string(), "cargo".to_string())
        .expect("a valid repository path");
    assert_eq!(path.site(), RepoSite::Gitlab);
    assert_eq!(path.qual(), "rust-lang");
    assert_eq!(path.name(), "cargo");
    let copy = path.clone();
    assert_eq!(copy.site(), RepoSite::Gitlab);
    assert_eq!(copy.qual(), "rust-lang");
    assert_eq!(copy.name(), "cargo");
}

#[test]
fn repo_path_title_and_origin() {
    let path = RepoPath::new(RepoSite::Github, "rust-lang".to_string(), "cargo".to_string())
        .expect("a valid repository path");
    assert_eq!(path.title(), "rust-lang / cargo");
    assert_eq!(path.origin_url(), "https://github.com/rust-lang/cargo");
}

#[test]
fn sites_have_their_addresses_and_slugs() {
    assert_eq!(RepoSite::Github.to_base_uri(), "https://github.com");
    assert_eq!(RepoSite::Gitlab.to_base_uri(), "https://gitlab.com");
    assert_eq!(RepoSite::Bitbucket.to_base_uri(), "https://bitbucket.org");
    assert_eq!(RepoSite::Github.as_str(), "github");
    assert_eq!(RepoSite::Gitlab.as_str(), "gitlab");
    assert_eq!(RepoSite::Bitbucket.as_str(), "bitbucket");
}

#[test]
fn dependency_is_outdated_when_latest_is_not_admitted() {
    assert!(dependency("^0.3", Some("0.8.5"), false).is_outdated());
    assert!(!dependency("^0.8", Some("0.8.5"), true).is_outdated());
}

#[test]
fn dependency_without_latest_is_never_outdated() {
    assert!(!dependency("^0.3", None, false).is_outdated());
    assert!(!dependency("^0.3", None, true).is_outdated());
    assert!(!dependency("", None, false).is_outdated());
    assert!(!dependency("=1.2.3", None, false).is_outdated());
}

#[test]
fn dependency_clone_keeps_every_field() {
    let copy = dependency("^0.3", Some("0.8.5"), false).clone();
    assert_eq!(copy.required, "^0.3");
    assert_eq!(copy.latest, Some("0.8.5".to_string()));
    assert!(!copy.latest_satisfies);
}

#[test]
fn any_outdated_in_a_map() {
    assert!(!any_outdated_in(&map_of(vec![])));
    assert!(!any_outdated_in(&map_of(vec![
        ("a", dependency("^1", Some("1.2.0"), true)),
        ("b", dependency("^1", None, false)),
    ])));
    assert!(any_outdated_in(&map_of(vec![
        ("a", dependency("^1", Some("1.2.0"), true)),
        ("b", dependency("^1", Some("2.0.0"), false)),
    ])));
    assert!(any_outdated_in(&map_of(vec![
        ("a", dependency("^1", Some("2.0.0"), false)),
        ("b", dependency("^1", Some("1.2.0"), true)),
    ])));
}

#[test]
fn any_outdated_looks_at_every_kind() {
    let old = || dependency("^1", Some("2.0.0"), false);
    let current = || dependency("^1", Some("1.2.0"), true);
    assert!(!dependencies(vec![], vec![], vec![]).any_outdated());
    assert!(!dependencies(vec![("a", current())], vec![("b", current())], vec![("c", current())])
        .any_outdated());
    assert!(dependencies(vec![("a", old())], vec![], vec![]).any_outdated());
    assert!(dependencies(vec![("a", current())], vec![("b", old())], vec![]).any_outdated());
    assert!(dependencies(vec![], vec![("b", current())], vec![("c", old())]).any_outdated());
}

#[test]
fn outcome_is_outdated_when_any_crate_is() {
    let old = || dependency("^1", Some("2.0.0"), false);
    let current = || dependency("^1", Some("1.2.0"), true);
    let duration = Elapsed::new(0, 0).expect("a duration");

    let mut crates = OrderMap::new();
    crates.insert(name("first"), dependencies(vec![("a", current())], vec![], vec![]));
    crates.insert(name("second"), dependencies(vec![], vec![], vec![]));
    let fine = AnalyzeDependenciesOutcome { crates, duration };
    assert!(!fine.any_outdated());

    let mut crates = OrderMap::new();
    crates.insert(name("first"), dependencies(vec![("a", current())], vec![], vec![]));
    crates.insert(name("second"), dependencies(vec![], vec![], vec![("b", old())]));
    let stale = AnalyzeDependenciesOutcome { crates, duration };
    assert!(stale.any_outdated());

    let empty = AnalyzeDependenciesOutcome { crates: OrderMap::new(), duration };
    assert!(!empty.any_outdated());
}

#[test]
fn elapsed_needs_nanoseconds_below_a_second() {
    assert!(Elapsed::new(0, 1_000_000_000).is_none());
    assert!(Elapsed::new(5, u32::MAX).is_none());
    let elapsed = Elapsed::new(5, 999_999_999).expect("a duration");
    assert_eq!(elapsed.as_secs(), 5);
    assert_eq!(elapsed.subsec_nanos(), 999_999_999);
}

#[test]
fn elapsed_in_whole_milliseconds() {
    let millis = |secs, nanos| Elapsed::new(secs, nanos).expect("a duration").as_millis();
    assert_eq!(millis(0, 0), 0);
    assert_eq!(millis(0, 999_999), 0);
    assert_eq!(millis(0, 1_000_000), 1);
    assert_eq!(millis(0, 1_999_999), 1);
    assert_eq!(millis(1, 500_000_000), 1500);
    assert_eq!(millis(2, 1_000_000), 2001);
    assert_eq!(millis(12, 345_678_901), 12345);
    assert_eq!(millis(0, 999_999_999), 999);
}

#[test]
fn elapsed_milliseconds_do_not_overflow() {
    let longest = Elapsed::new(u64::MAX, 999_999_999).expect("a duration");
    assert_eq!(longest.as_millis(), 18_446_744_073_709_551_615_999);
}

#[test]
fn elapsed_agrees_with_the_standard_duration() {
    for &(secs, nanos) in &[(0u64, 0u32), (3, 141_592_653), (86_400, 1), (7, 999_999_999)] {
        let standard = std::time::Duration::new(secs, nanos);
        let elapsed = Elapsed::new(standard.as_secs(), standard.subsec_nanos()).expect("a duration");
        assert_eq!(elapsed.as_millis(), standard.as_millis());
    }
}
