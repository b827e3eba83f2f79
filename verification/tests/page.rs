use deps_status::engine::{AnalyzeDependenciesOutcome, Elapsed};
use deps_status::html::status::{
    dependency_table, dependency_tables, get_site_icon, render, render_failure, render_section,
    render_success, render_table, status_variant, StatusVariant,
};
use deps_status::html::{render_footer, render_html, render_navbar, Config};
use deps_status::models::crates::{AnalyzedDependencies, AnalyzedDependency, CrateName};
use deps_status::models::repo::{RepoPath, RepoSite};
use deps_status::report::{build_section, build_table};
use ordermap::OrderMap;

const FOOTER_START: &str = "<footer class=\"footer\"><div class=\"container\"><div class=\"content has-text-centered\"><p><strong>Deps.rs</strong> is a service for the Rust community. It is open source on <a href=\"https://github.com/srijs/deps.rs\">GitHub</a>.</p><p>Please report any issues on the <a href=\"https://github.com/srijs/deps.rs/issues\">issue tracker</a>.</p>";

const HEAD: &str = "<meta charset=\"utf-8\"><meta name=\"viewport\" content=\"width=device-width, initial-scale=1\"><title>rust-lang / cargo - Deps.rs</title><link rel=\"icon\" type=\"image/png\" href=\"/static/favicon.png\"><link rel=\"stylesheet\" type=\"text/css\" href=\"/static/style.css\"><link rel=\"stylesheet\" type=\"text/css\" href=\"https://fonts.googleapis.com/css?family=Fira+Sans:400,500,600\"><link rel=\"stylesheet\" type=\"text/css\" href=\"https://fonts.googleapis.com/css?family=Source+Code+Pro\"><link rel=\"stylesheet\" type=\"text/css\" href=\"https://maxcdn.bootstrapcdn.com/font-awesome/4.7.0/css/font-awesome.min.css\">";

const TABLE_HEAD: &str = "<table class=\"table is-fullwidth is-striped is-hoverable\"><thead><tr><th>Crate</th><th class=\"has-text-right\">Required</th><th class=\"has-text-right\">Latest</th><th class=\"has-text-right\">Status</th></tr></thead>";

const NAVBAR: &str = "<header class=\"navbar\"><div class=\"container\"><div class=\"navbar-brand\"><a class=\"navbar-item is-dark\" href=\"https://deps.rs\"><h1 class=\"title is-3\">Deps.rs</h1></a></div></div></header>";

const HEADING: &str = "<h1 class=\"title is-1\"><a href=\"https://github.com/rust-lang/cargo\"><i class=\"fa fa-github\"></i> rust-lang / cargo</a></h1>";

const SERDE_ROW: &str = "<tr><td><a href=\"https://crates.io/crates/serde\">serde</a></td><td class=\"has-text-right\"><code>^1.0</code></td><td class=\"has-text-right\"><code>1.0.197</code></td><td class=\"has-text-right\"><span class=\"tag is-success\">up to date</span></td></tr>";

const RAND_ROW: &str = "<tr><td><a href=\"https://crates.io/crates/rand\">rand</a></td><td class=\"has-text-right\"><code>^0.3</code></td><td class=\"has-text-right\"><code>0.8.5</code></td><td class=\"has-text-right\"><span class=\"tag is-warning\">out of date</span></td></tr>";

const LIBC_ROW: &str = "<tr><td><a href=\"https://crates.io/crates/libc\">libc</a></td><td class=\"has-text-right\"><code>^0.2</code></td><td class=\"has-text-right\">N/A</td><td class=\"has-text-right\"><span class=\"tag is-success\">up to date</span></td></tr>";

const SNIPPETS: &str = "<div class=\"hero-footer\"><div class=\"container\"><div class=\"tabs\"><ul><li class=\"is-active\"><a href=\"#markdown\">Markdown</a></li><li><a href=\"#asciidoc\">Asciidoc</a></li></ul></div></div><div class=\"container\"><div class=\"sources\"><div id=\"markdown\" class=\"is-active\"><pre class=\"is-size-7\">[![dependency status](https://deps.rs/repo/github/rust-lang/cargo/status.svg)](https://deps.rs/repo/github/rust-lang/cargo)\n</pre></div><div id=\"asciidoc\" class=\"is-hidden\"><pre class=\"is-size-7\">image::https://deps.rs/repo/github/rust-lang/cargo/status.svg[link=&quot;https://deps.rs/repo/github/rust-lang/cargo&quot;,alt=&quot;dependency status&quot;]\n</pre></div></div></div></div>";

const FAILURE_NOTICE: &str = "<section class=\"section\"><div class=\"container\"><div class=\"notification is-danger\"><h2 class=\"title is-3\">Failed to analyze repository</h2><p>The repository you requested might be structured in an uncommon way that is not yet supported.</p></div></div></section>";

fn name(text: &str) -> CrateName {
    CrateName::new(text.to_string()).expect("a crate name")
}

fn current(required: &str, latest: &str) -> AnalyzedDependency {
    AnalyzedDependency {
        required: required.to_string(),
        latest: Some(latest.to_string()),
        latest_satisfies: true,
    }
}

fn outdated(required: &str, latest: &str) -> AnalyzedDependency {
    AnalyzedDependency {
        required: required.to_string(),
        latest: Some(latest.to_string()),
        latest_satisfies: false,
    }
}

fn unknown(required: &str) -> AnalyzedDependency {
    AnalyzedDependency { required: required.to_string(), latest: None, latest_satisfies: false }
}

fn map_of(entries: Vec<(&str, AnalyzedDependency)>) -> OrderMap<CrateName, AnalyzedDependency> {
    let mut map = OrderMap::new();
    for (crate_name, analyzed) in entries {
        map.insert(name(crate_name), analyzed);
    }
    map
}

fn dependencies(
    main: Vec<(&str, AnalyzedDependency)>,
    dev: Vec<(&str, AnalyzedDependency)>,
    build: Vec<(&str, AnalyzedDependency)>,
) -> AnalyzedDependencies {
    AnalyzedDependencies { main: map_of(main), dev: map_of(dev), build: map_of(build) }
}

fn outcome_of(
    crates: Vec<(&str, AnalyzedDependencies)>,
    secs: u64,
    nanos: u32,
) -> AnalyzeDependenciesOutcome {
    let mut map = OrderMap::new();
    for (crate_name, analyzed) in crates {
        map.insert(name(crate_name), analyzed);
    }
    AnalyzeDependenciesOutcome { crates: map, duration: Elapsed::new(secs, nanos).expect("a duration") }
}

fn cargo() -> RepoPath {
    RepoPath::new(RepoSite::Github, "rust-lang".to_string(), "cargo".to_string())
        .expect("a valid repository path")
}

fn config() -> Config {
    Config::new(Some("https://deps.rs".to_string()), None)
}

fn footer(timing: &str) -> String {
    format!("{}{}</div></div></footer>", FOOTER_START, timing)
}

#[test]
fn config_falls_back_to_the_local_address() {
    let unset = Config::new(None, None);
    assert_eq!(unset.base_url, "http://localhost:8080");
    assert_eq!(unset.gauges_site_id, None);
    let set = Config::new(Some("https://deps.rs".to_string()), Some("abc123".to_string()));
    assert_eq!(set.base_url, "https://deps.rs");
    assert_eq!(set.gauges_site_id, Some("abc123".to_string()));
}

#[test]
fn footer_without_a_duration_reports_no_time() {
    assert_eq!(render_footer(None), footer(""));
}

#[test]
fn footer_reports_whole_milliseconds() {
    let elapsed = Elapsed::new(1, 234_567_890).expect("a duration");
    assert_eq!(
        render_footer(Some(elapsed)),
        footer("<p class=\"has-text-grey is-size-7\">(rendered in 1234 ms)</p>")
    );
    let short = Elapsed::new(0, 999_999).expect("a duration");
    assert_eq!(
        render_footer(Some(short)),
        footer("<p class=\"has-text-grey is-size-7\">(rendered in 0 ms)</p>")
    );
}

#[test]
fn navbar_links_to_the_base_address() {
    assert_eq!(render_navbar(&config()), NAVBAR);
}

#[test]
fn navbar_escapes_the_base_address() {
    let odd = Config::new(Some("https://deps.rs/?a=1&b=\"2\"".to_string()), None);
    assert_eq!(
        render_navbar(&odd),
        "<header class=\"navbar\"><div class=\"container\"><div class=\"navbar-brand\"><a class=\"navbar-item is-dark\" href=\"https://deps.rs/?a=1&amp;b=&quot;2&quot;\"><h1 class=\"title is-3\">Deps.rs</h1></a></div></div></header>"
    );
}

#[test]
fn document_without_tracking() {
    let document = render_html("rust-lang / cargo", "<p>content</p>", &config());
    assert_eq!(document.content_type, "text/html");
    assert_eq!(
        document.body,
        format!(
            "<html><head>{}</head><body><p>content</p><script type=\"text/javascript\" src=\"/static/app.js\"></script></body></html>",
            HEAD
        )
    );
}

#[test]
fn document_with_tracking() {
    let with_site = Config::new(None, Some("abc123".to_string()));
    let document = render_html("rust-lang / cargo", "<p>content</p>", &with_site);
    assert_eq!(document.content_type, "text/html");
    assert_eq!(
        document.body,
        format!(
            "<html><head>{}</head><body><p>content</p><script type=\"text/javascript\" src=\"/static/app.js\"><script type=\"text/javascript\">var _gauges = _gauges || [];\n(function() {{\n    var t   = document.createElement('script');\n    t.type  = 'text/javascript';\n    t.async = true;\n    t.id    = 'gauges-tracker';\n    t.setAttribute('data-site-id', 'abc123');\n    t.setAttribute('data-track-path', 'https://track.gaug.es/track.gif');\n    t.src = 'https://d2fuc4clr7gvcn.cloudfront.net/track.js';\n    var s = document.getElementsByTagName('script')[0];\n    s.parentNode.insertBefore(t, s);\n}})();</script></script></body></html>",
            HEAD
        )
    );
}

#[test]
fn document_escapes_the_title_and_not_the_content() {
    let document = render_html("a<b / c&d", "<b>bold</b>", &config());
    assert!(document.body.contains("<title>a&lt;b / c&amp;d - Deps.rs</title>"));
    assert!(document.body.contains("<body><b>bold</b><script"));
}

#[test]
fn table_of_mixed_dependencies() {
    let deps = map_of(vec![
        ("serde", current("^1.0", "1.0.197")),
        ("rand", outdated("^0.3", "0.8.5")),
        ("libc", unknown("^0.2")),
    ]);
    assert_eq!(
        dependency_table("Dependencies", &deps),
        format!(
            "<h3 class=\"title is-4\">Dependencies</h3><p class=\"subtitle is-5\"> (3 total, 2 up-to-date, 1 outdated)</p>{}<tbody>{}{}{}</tbody></table>",
            TABLE_HEAD, SERDE_ROW, RAND_ROW, LIBC_ROW
        )
    );
}

#[test]
fn table_keeps_the_order_of_insertion() {
    let deps = map_of(vec![
        ("rand", outdated("^0.3", "0.8.5")),
        ("libc", unknown("^0.2")),
        ("serde", current("^1.0", "1.0.197")),
    ]);
    assert_eq!(
        dependency_table("Dev dependencies", &deps),
        format!(
            "<h3 class=\"title is-4\">Dev dependencies</h3><p class=\"subtitle is-5\"> (3 total, 2 up-to-date, 1 outdated)</p>{}<tbody>{}{}{}</tbody></table>",
            TABLE_HEAD, RAND_ROW, LIBC_ROW, SERDE_ROW
        )
    );
}

#[test]
fn table_of_an_empty_map_has_no_rows() {
    assert_eq!(
        dependency_table("Build dependencies", &map_of(vec![])),
        format!(
            "<h3 class=\"title is-4\">Build dependencies</h3><p class=\"subtitle is-5\"> (0 total, all up-to-date)</p>{}<tbody></tbody></table>",
            TABLE_HEAD
        )
    );
}

#[test]
fn table_escapes_what_comes_from_the_manifest() {
    let deps = map_of(vec![("a<b", current(">=1.0, <2.0", "1.5.0 \"x\" & y"))]);
    assert_eq!(
        dependency_table("Q&A", &deps),
        format!(
            "<h3 class=\"title is-4\">Q&amp;A</h3><p class=\"subtitle is-5\"> (1 total, all up-to-date)</p>{}<tbody><tr><td><a href=\"https://crates.io/crates/a&lt;b\">a&lt;b</a></td><td class=\"has-text-right\"><code>&gt;=1.0, &lt;2.0</code></td><td class=\"has-text-right\"><code>1.5.0 &quot;x&quot; &amp; y</code></td><td class=\"has-text-right\"><span class=\"tag is-success\">up to date</span></td></tr></tbody></table>",
            TABLE_HEAD
        )
    );
}

#[test]
fn rendering_a_built_table_gives_the_same_markup() {
    let deps = map_of(vec![("serde", current("^1.0", "1.0.197")), ("rand", outdated("^0.3", "0.8.5"))]);
    let table = build_table("Dependencies", &deps);
    assert_eq!(render_table(&table), dependency_table("Dependencies", &deps));
}

#[test]
fn section_of_a_crate_without_dependencies() {
    assert_eq!(
        dependency_tables(&name("lonely"), &dependencies(vec![], vec![], vec![])),
        "<h2 class=\"title is-3\">Crate <code>lonely</code></h2><p class=\"notification has-text-centered\">No external dependencies! 🙌</p>"
    );
}

#[test]
fn section_of_a_crate_with_every_kind() {
    let deps = dependencies(
        vec![("serde", current("^1.0", "1.0.197"))],
        vec![("rand", outdated("^0.3", "0.8.5"))],
        vec![("libc", unknown("^0.2"))],
    );
    assert_eq!(
        dependency_tables(&name("full"), &deps),
        format!(
            "<h2 class=\"title is-3\">Crate <code>full</code></h2>\
             <h3 class=\"title is-4\">Dependencies</h3><p class=\"subtitle is-5\"> (1 total, all up-to-date)</p>{head}<tbody>{serde}</tbody></table>\
             <h3 class=\"title is-4\">Dev dependencies</h3><p class=\"subtitle is-5\"> (1 total, 0 up-to-date, 1 outdated)</p>{head}<tbody>{rand}</tbody></table>\
             <h3 class=\"title is-4\">Build dependencies</h3><p class=\"subtitle is-5\"> (1 total, all up-to-date)</p>{head}<tbody>{libc}</tbody></table>",
            head = TABLE_HEAD,
            serde = SERDE_ROW,
            rand = RAND_ROW,
            libc = LIBC_ROW
        )
    );
}

#[test]
fn section_leaves_empty_kinds_out() {
    let deps = dependencies(vec![], vec![("rand", outdated("^0.3", "0.8.5"))], vec![]);
    assert_eq!(
        dependency_tables(&name("tested"), &deps),
        format!(
            "<h2 class=\"title is-3\">Crate <code>tested</code></h2><h3 class=\"title is-4\">Dev dependencies</h3><p class=\"subtitle is-5\"> (1 total, 0 up-to-date, 1 outdated)</p>{}<tbody>{}</tbody></table>",
            TABLE_HEAD, RAND_ROW
        )
    );
}

#[test]
fn section_escapes_the_crate_name() {
    let html = dependency_tables(&name("<script>"), &dependencies(vec![], vec![], vec![]));
    assert!(html.starts_with("<h2 class=\"title is-3\">Crate <code>&lt;script&gt;</code></h2>"));
}

#[test]
fn rendering_a_built_section_gives_the_same_markup() {
    let deps = dependencies(vec![("serde", current("^1.0", "1.0.197"))], vec![], vec![]);
    let section = build_section(&name("one"), &deps);
    assert_eq!(render_section(&section), dependency_tables(&name("one"), &deps));
}

#[test]
fn every_site_has_its_icon() {
    assert_eq!(get_site_icon(&RepoSite::Github), "fa-github");
    assert_eq!(get_site_icon(&RepoSite::Gitlab), "fa-gitlab");
    assert_eq!(get_site_icon(&RepoSite::Bitbucket), "fa-bitbucket");
}

#[test]
fn variant_classes() {
    assert_eq!(StatusVariant::Success.css_class(), "is-success");
    assert_eq!(StatusVariant::Warning.css_class(), "is-warning");
    assert_eq!(StatusVariant::Danger.css_class(), "is-danger");
}

#[test]
fn variant_follows_the_outcome() {
    let stale = outcome_of(
        vec![("one", dependencies(vec![("rand", outdated("^0.3", "0.8.5"))], vec![], vec![]))],
        0,
        0,
    );
    let fresh = outcome_of(
        vec![("one", dependencies(vec![("serde", current("^1.0", "1.0.197"))], vec![], vec![]))],
        0,
        0,
    );
    assert_eq!(status_variant(&Some(stale)), StatusVariant::Warning);
    assert_eq!(status_variant(&Some(fresh)), StatusVariant::Success);
    assert_eq!(status_variant(&Some(outcome_of(vec![], 0, 0))), StatusVariant::Success);
    assert_eq!(status_variant(&None), StatusVariant::Danger);
}

#[test]
fn failure_page_content() {
    assert_eq!(
        render_failure(&cargo(), &config()),
        format!(
            "<section class=\"hero is-danger\"><div class=\"hero-head\">{}</div><div class=\"hero-body\"><div class=\"container\">{}</div></div></section>{}{}",
            NAVBAR,
            HEADING,
            FAILURE_NOTICE,
            footer("")
        )
    );
}

#[test]
fn failure_page_header_is_red() {
    let html = render_failure(&cargo(), &config());
    assert!(html.starts_with("<section class=\"hero is-danger\"><div class=\"hero-head\">"));
    assert!(html.contains("<div class=\"notification is-danger\">"));
    assert!(!html.contains("is-light"));
    assert!(!html.contains("is-warning"));
    assert!(!html.contains("is-success"));
}

#[test]
fn success_page_shows_the_asciidoc_macro_closed() {
    let html = render_success(outcome_of(vec![], 0, 0), &cargo(), &config(), "data:,");
    assert!(html.contains(
        "<pre class=\"is-size-7\">image::https://deps.rs/repo/github/rust-lang/cargo/status.svg[link=&quot;https://deps.rs/repo/github/rust-lang/cargo&quot;,alt=&quot;dependency status&quot;]\n</pre>"
    ));
}

#[test]
fn failure_page_shows_the_icon_of_the_site() {
    let gitlab = RepoPath::new(RepoSite::Gitlab, "inkscape".to_string(), "lib2geom".to_string())
        .expect("a valid repository path");
    let html = render_failure(&gitlab, &config());
    assert!(html.contains(
        "<a href=\"https://gitlab.com/inkscape/lib2geom\"><i class=\"fa fa-gitlab\"></i> inkscape / lib2geom</a>"
    ));
    let bitbucket = RepoPath::new(RepoSite::Bitbucket, "atlassian".to_string(), "aui".to_string())
        .expect("a valid repository path");
    let html = render_failure(&bitbucket, &config());
    assert!(html.contains(
        "<a href=\"https://bitbucket.org/atlassian/aui\"><i class=\"fa fa-bitbucket\"></i> atlassian / aui</a>"
    ));
}

#[test]
fn success_page_content_when_outdated() {
    let outcome = outcome_of(
        vec![
            ("cargo", dependencies(vec![("rand", outdated("^0.3", "0.8.5"))], vec![], vec![])),
            ("crates-io", dependencies(vec![], vec![], vec![])),
        ],
        2,
        5_000_000,
    );
    assert_eq!(
        render_success(outcome, &cargo(), &config(), "data:image/svg+xml;base64,AAAA"),
        format!(
            "<section class=\"hero is-warning\"><div class=\"hero-head\">{navbar}</div><div class=\"hero-body\"><div class=\"container\">{heading}<img src=\"data:image/svg+xml;base64,AAAA\"></div></div>{snippets}</section>\
             <section class=\"section\"><div class=\"container\">\
             <h2 class=\"title is-3\">Crate <code>cargo</code></h2><h3 class=\"title is-4\">Dependencies</h3><p class=\"subtitle is-5\"> (1 total, 0 up-to-date, 1 outdated)</p>{head}<tbody>{rand}</tbody></table>\
             <h2 class=\"title is-3\">Crate <code>crates-io</code></h2><p class=\"notification has-text-centered\">No external dependencies! 🙌</p>\
             </div></section>{footer}",
            navbar = NAVBAR,
            heading = HEADING,
            snippets = SNIPPETS,
            head = TABLE_HEAD,
            rand = RAND_ROW,
            footer = footer("<p class=\"has-text-grey is-size-7\">(rendered in 2005 ms)</p>")
        )
    );
}

#[test]
fn success_page_is_green_when_nothing_is_outdated() {
    let outcome = outcome_of(
        vec![("cargo", dependencies(vec![("serde", current("^1.0", "1.0.197"))], vec![], vec![]))],
        0,
        0,
    );
    let html = render_success(outcome, &cargo(), &config(), "data:,");
    assert!(html.starts_with("<section class=\"hero is-success\"><div class=\"hero-head\">"));
    assert!(!html.contains("is-warning"));
    assert!(!html.contains("is-danger"));
    assert!(html.contains("(rendered in 0 ms)"));
}

#[test]
fn success_page_escapes_the_badge_address() {
    let html = render_success(outcome_of(vec![], 0, 0), &cargo(), &config(), "data:x\"><script>");
    assert!(html.contains("<img src=\"data:x&quot;&gt;&lt;script&gt;\">"));
}

#[test]
fn success_page_lists_crates_in_the_order_of_the_outcome() {
    let outcome = outcome_of(
        vec![
            ("zebra", dependencies(vec![], vec![], vec![])),
            ("apple", dependencies(vec![], vec![], vec![])),
            ("mango", dependencies(vec![], vec![], vec![])),
        ],
        0,
        0,
    );
    let html = render_success(outcome, &cargo(), &config(), "data:,");
    let zebra = html.find("<code>zebra</code>").expect("the first crate");
    let apple = html.find("<code>apple</code>").expect("the second crate");
    let mango = html.find("<code>mango</code>").expect("the third crate");
    assert!(zebra < apple && apple < mango);
}

#[test]
fn page_without_an_outcome_is_the_failure_page() {
    let document = render(None, cargo(), &config(), "data:image/svg+xml;base64,AAAA");
    assert_eq!(document.content_type, "text/html");
    assert_eq!(
        document.body,
        format!(
            "<html><head>{}</head><body>{}<script type=\"text/javascript\" src=\"/static/app.js\"></script></body></html>",
            HEAD,
            render_failure(&cargo(), &config())
        )
    );
    assert!(document.body.contains("<section class=\"hero is-danger\">"));
    assert!(document.body.contains("notification is-danger"));
    assert!(!document.body.contains("is-warning"));
    assert!(!document.body.contains("is-success"));
    assert!(!document.body.contains("rendered in"));
    assert!(!document.body.contains("<img"));
    assert!(!document.body.contains("<table"));
}

#[test]
fn page_with_an_outcome_is_the_success_page() {
    let make = || {
        outcome_of(
            vec![("cargo", dependencies(vec![("rand", outdated("^0.3", "0.8.5"))], vec![], vec![]))],
            1,
            0,
        )
    };
    let document = render(Some(make()), cargo(), &config(), "data:image/svg+xml;base64,AAAA");
    assert_eq!(document.content_type, "text/html");
    assert_eq!(
        document.body,
        format!(
            "<html><head>{}</head><body>{}<script type=\"text/javascript\" src=\"/static/app.js\"></script></body></html>",
            HEAD,
            render_success(make(), &cargo(), &config(), "data:image/svg+xml;base64,AAAA")
        )
    );
    assert!(document.body.contains("hero is-warning"));
    assert!(document.body.contains("(rendered in 1000 ms)"));
    assert!(!document.body.contains("Failed to analyze repository"));
}
