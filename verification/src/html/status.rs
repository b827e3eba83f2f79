//! The status page of a repository: what became of analyzing its
//! dependencies, either the tables of every crate or the notice that the
//! analysis failed.

use crate::engine::AnalyzeDependenciesOutcome;
use crate::html::{
    document_html, footer_html, navbar_html, render_footer, render_html, render_navbar, text_of,
    Config, Document,
};
use crate::links::{asciidoc_snippet, markdown_snippet};
use crate::models::crates::{dependency_entries, AnalyzedDependencies, AnalyzedDependency, CrateName};
use crate::models::repo::{RepoPath, RepoPathView, RepoSite};
use crate::report::{
    build_section, build_sections, build_table, row_of, rows_of, rows_view, section_of,
    sections_of, sections_view, subsections_view, table_of, CrateSection, CrateSectionView,
    DependencyTable, Row, RowView, Subsection, SubsectionView, TableView,
};
use crate::text::{concat_all, escape_html, lemma_concat_all_step, push_escaped};
use ordermap::OrderMap;
use vstd::prelude::*;
use vstd::string::*;

verus! {

/// The colour in which a page or a part of it shows a status.
#[derive(Clone, Copy, Debug, PartialEq, Eq, Hash, Structural)]
pub enum StatusVariant {
    Success,
    Warning,
    Danger,
}

impl StatusVariant {
    /// The style class that gives an element the colour.
    pub open spec fn class(self) -> Seq<char> {
        match self {
            StatusVariant::Success => "is-success"@,
            StatusVariant::Warning => "is-warning"@,
            StatusVariant::Danger => "is-danger"@,
        }
    }

    /// The style class that gives an element the colour.
    pub fn css_class(&self) -> (class: &'static str)
        ensures
            class@ == self.class(),
    {
        match self {
            StatusVariant::Success => "is-success",
            StatusVariant::Warning => "is-warning",
            StatusVariant::Danger => "is-danger",
        }
    }
}

/// The colour of a dependency's status tag.
pub open spec fn tag_variant(outdated: bool) -> StatusVariant {
    if outdated {
        StatusVariant::Warning
    } else {
        StatusVariant::Success
    }
}

/// What a row shows of the newest version: the version as code, or the
/// plain note that none is known.
pub open spec fn latest_html(row: RowView) -> Seq<char> {
    if row.latest is Some {
        "<code>"@ + escape_html(row.latest_text()) + "</code>"@
    } else {
        row.latest_text()
    }
}

/// The markup of one row of a dependency table.
pub open spec fn row_html(row: RowView) -> Seq<char> {
    "<tr><td><a href=\""@ + escape_html("https://crates.io/crates/"@ + row.name) + "\">"@
        + escape_html(row.name) + "</a></td><td class=\"has-text-right\"><code>"@ + escape_html(
        row.required,
    ) + "</code></td><td class=\"has-text-right\">"@ + latest_html(row)
        + "</td><td class=\"has-text-right\"><span class=\"tag "@ + tag_variant(
        row.outdated,
    ).class() + "\">"@ + row.status_text() + "</span></td></tr>"@
}

/// The markup of each row.
pub open spec fn row_parts(rows: Seq<RowView>) -> Seq<Seq<char>> {
    rows.map_values(|row: RowView| row_html(row))
}

/// The markup of the rows, one after another in their order.
pub open spec fn rows_html(rows: Seq<RowView>) -> Seq<char> {
    concat_all(row_parts(rows))
}

/// The rows of a rendered table follow the order of the map's entries: the
/// markup for the first entries and one more is the markup for those first
/// entries, followed by the row of the one more.
pub proof fn lemma_rendered_rows_keep_order(
    entries: Seq<(CrateName, AnalyzedDependency)>,
    taken: int,
)
    requires
        0 <= taken < entries.len(),
    ensures
        rows_html(rows_of(entries.take(taken + 1))) == rows_html(rows_of(entries.take(taken)))
            + row_html(row_of(entries[taken])),
{
    let parts = row_parts(rows_of(entries));
    assert(row_parts(rows_of(entries.take(taken + 1))) =~= parts.take(taken + 1));
    assert(row_parts(rows_of(entries.take(taken))) =~= parts.take(taken));
    lemma_concat_all_step(parts, taken);
}

/// The markup of a dependency table: heading, summary, and the table proper
/// with a row for each dependency.
pub open spec fn table_html(table: TableView) -> Seq<char> {
    "<h3 class=\"title is-4\">"@ + escape_html(table.title) + "</h3><p class=\"subtitle is-5\"> "@
        + escape_html(table.summary.text)
        + "</p><table class=\"table is-fullwidth is-striped is-hoverable\"><thead><tr><th>Crate</th><th class=\"has-text-right\">Required</th><th class=\"has-text-right\">Latest</th><th class=\"has-text-right\">Status</th></tr></thead><tbody>"@
        + rows_html(table.rows) + "</tbody></table>"@
}

/// The markup of one part of a crate's section.
pub open spec fn subsection_html(subsection: SubsectionView) -> Seq<char> {
    match subsection {
        SubsectionView::NoDependencies => "<p class=\"notification has-text-centered\">No external dependencies! 🙌</p>"@,
        SubsectionView::Table(table) => table_html(table),
    }
}

/// The markup of each part.
pub open spec fn subsection_parts(subsections: Seq<SubsectionView>) -> Seq<Seq<char>> {
    subsections.map_values(|subsection: SubsectionView| subsection_html(subsection))
}

/// The markup of a crate's section: the crate's name, then its parts.
pub open spec fn section_html(section: CrateSectionView) -> Seq<char> {
    "<h2 class=\"title is-3\">Crate <code>"@ + escape_html(section.crate_name) + "</code></h2>"@
        + concat_all(subsection_parts(section.subsections))
}

/// The markup of each section.
pub open spec fn section_parts(sections: Seq<CrateSectionView>) -> Seq<Seq<char>> {
    sections.map_values(|section: CrateSectionView| section_html(section))
}

/// The markup of the sections, one after another in their order.
pub open spec fn sections_html(sections: Seq<CrateSectionView>) -> Seq<char> {
    concat_all(section_parts(sections))
}

fn render_latest(row: &Row) -> (html: String)
    ensures
        html@ == latest_html(row@),
{
    if row.latest.is_some() {
        let mut html = String::from_str("<code>");
        push_escaped(&mut html, row.latest_text());
        html.append("</code>");
        html
    } else {
        String::from_str(row.latest_text())
    }
}

fn render_row(row: &Row) -> (html: String)
    ensures
        html@ == row_html(row@),
{
    let mut link = String::from_str("https://crates.io/crates/");
    link.append(row.name.as_str());
    let latest = render_latest(row);
    let variant = if row.outdated {
        StatusVariant::Warning
    } else {
        StatusVariant::Success
    };
    let mut html = String::from_str("<tr><td><a href=\"");
    push_escaped(&mut html, link.as_str());
    html.append("\">");
    push_escaped(&mut html, row.name.as_str());
    html.append("</a></td><td class=\"has-text-right\"><code>");
    push_escaped(&mut html, row.required.as_str());
    html.append("</code></td><td class=\"has-text-right\">");
    html.append(latest.as_str());
    html.append("</td><td class=\"has-text-right\"><span class=\"tag ");
    html.append(variant.css_class());
    html.append("\">");
    html.append(row.status_text());
    html.append("</span></td></tr>");
    html
}

fn render_rows(rows: &Vec<Row>) -> (html: String)
    ensures
        html@ == rows_html(rows_view(rows@)),
{
    let ghost parts = row_parts(rows_view(rows@));
    let mut html = String::new();
    let mut index: usize = 0;
    while index < rows.len()
        invariant
            index <= rows.len(),
            parts == row_parts(rows_view(rows@)),
            html@ == concat_all(parts.take(index as int)),
        decreases rows.len() - index,
    {
        let row = render_row(&rows[index]);
        proof {
            lemma_concat_all_step(parts, index as int);
        }
        html.append(row.as_str());
        index += 1;
    }
    assert(parts.take(index as int) =~= parts);
    html
}

/// Renders a dependency table.
pub fn render_table(table: &DependencyTable) -> (html: String)
    ensures
        html@ == table_html(table@),
{
    let rows = render_rows(&table.rows);
    let mut html = String::from_str("<h3 class=\"title is-4\">");
    push_escaped(&mut html, table.title.as_str());
    html.append("</h3><p class=\"subtitle is-5\"> ");
    push_escaped(&mut html, table.summary.text.as_str());
    html.append(
        "</p><table class=\"table is-fullwidth is-striped is-hoverable\"><thead><tr><th>Crate</th><th class=\"has-text-right\">Required</th><th class=\"has-text-right\">Latest</th><th class=\"has-text-right\">Status</th></tr></thead><tbody>",
    );
    html.append(rows.as_str());
    html.append("</tbody></table>");
    html
}

fn render_subsection(subsection: &Subsection) -> (html: String)
    ensures
        html@ == subsection_html(subsection@),
{
    match subsection {
        Subsection::NoDependencies => String::from_str(
            "<p class=\"notification has-text-centered\">No external dependencies! 🙌</p>",
        ),
        Subsection::Table(table) => render_table(table),
    }
}

fn render_subsections(subsections: &Vec<Subsection>) -> (html: String)
    ensures
        html@ == concat_all(subsection_parts(subsections_view(subsections@))),
{
    let ghost parts = subsection_parts(subsections_view(subsections@));
    let mut html = String::new();
    let mut index: usize = 0;
    while index < subsections.len()
        invariant
            index <= subsections.len(),
            parts == subsection_parts(subsections_view(subsections@)),
            html@ == concat_all(parts.take(index as int)),
        decreases subsections.len() - index,
    {
        let subsection = render_subsection(&subsections[index]);
        proof {
            lemma_concat_all_step(parts, index as int);
        }
        html.append(subsection.as_str());
        index += 1;
    }
    assert(parts.take(index as int) =~= parts);
    html
}

/// Renders the section that shows one crate.
pub fn render_section(section: &CrateSection) -> (html: String)
    ensures
        html@ == section_html(section@),
{
    let subsections = render_subsections(&section.subsections);
    let mut html = String::from_str("<h2 class=\"title is-3\">Crate <code>");
    push_escaped(&mut html, section.crate_name.as_str());
    html.append("</code></h2>");
    html.append(subsections.as_str());
    html
}

/// Renders the sections of a page, one after another in their order.
pub fn render_sections(sections: &Vec<CrateSection>) -> (html: String)
    ensures
        html@ == sections_html(sections_view(sections@)),
{
    let ghost parts = section_parts(sections_view(sections@));
    let mut html = String::new();
    let mut index: usize = 0;
    while index < sections.len()
        invariant
            index <= sections.len(),
            parts == section_parts(sections_view(sections@)),
            html@ == concat_all(parts.take(index as int)),
        decreases sections.len() - index,
    {
        let section = render_section(&sections[index]);
        proof {
            lemma_concat_all_step(parts, index as int);
        }
        html.append(section.as_str());
        index += 1;
    }
    assert(parts.take(index as int) =~= parts);
    html
}

/// Renders the section of a crate: its name, and a table for each kind of
/// dependencies that it has, or the note that it has none at all.
pub fn dependency_tables(crate_name: &CrateName, deps: &AnalyzedDependencies) -> (html: String)
    ensures
        html@ == section_html(section_of((*crate_name, *deps))),
{
    let section = build_section(crate_name, deps);
    render_section(&section)
}

/// Renders the table of the dependencies that a map holds: the heading
/// `title`, how many there are and how many of them are outdated, and a row
/// for each in the order of the map.
pub fn dependency_table(title: &str, deps: &OrderMap<CrateName, AnalyzedDependency>) -> (html: String)
    ensures
        html@ == table_html(table_of(title@, dependency_entries(*deps))),
{
    let table = build_table(title, deps);
    render_table(&table)
}

/// The icon of each hosting site.
pub open spec fn site_icon(site: RepoSite) -> Seq<char> {
    match site {
        RepoSite::Github => "fa-github"@,
        RepoSite::Gitlab => "fa-gitlab"@,
        RepoSite::Bitbucket => "fa-bitbucket"@,
    }
}

/// Looks up the icon of a hosting site.
pub fn get_site_icon(repo_site: &RepoSite) -> (icon: &'static str)
    ensures
        icon@ == site_icon(*repo_site),
{
    match *repo_site {
        RepoSite::Github => "fa-github",
        RepoSite::Gitlab => "fa-gitlab",
        RepoSite::Bitbucket => "fa-bitbucket",
    }
}

/// The colour that tells how a repository stands: red where it could not be
/// analyzed, whatever may have been known of it before; else yellow where a
/// dependency is outdated; else green.
pub open spec fn variant_of(outcome: Option<AnalyzeDependenciesOutcome>) -> StatusVariant {
    match outcome {
        None => StatusVariant::Danger,
        Some(found) => if found.has_outdated() {
            StatusVariant::Warning
        } else {
            StatusVariant::Success
        },
    }
}

/// Picks the colour that tells how a repository stands.
pub fn status_variant(outcome: &Option<AnalyzeDependenciesOutcome>) -> (variant: StatusVariant)
    ensures
        variant == variant_of(*outcome),
{
    match outcome {
        None => StatusVariant::Danger,
        Some(found) => if found.any_outdated() {
            StatusVariant::Warning
        } else {
            StatusVariant::Success
        },
    }
}

/// The style classes of the header of a status page: those of a header, and
/// the colour that tells how the repository stands. A page without an
/// outcome has its header in red, one with an outcome in yellow or green.
pub open spec fn hero_class(outcome: Option<AnalyzeDependenciesOutcome>) -> Seq<char> {
    "hero "@ + variant_of(outcome).class()
}

fn render_hero_class(outcome: &Option<AnalyzeDependenciesOutcome>) -> (class: String)
    ensures
        class@ == hero_class(*outcome),
{
    let mut class = String::from_str("hero ");
    class.append(status_variant(outcome).css_class());
    class
}

/// The heading of a status page: the icon of the hosting site and the owner
/// and name of the repository, as a link to the repository on that site.
pub open spec fn heading_html(path: RepoPathView) -> Seq<char> {
    "<h1 class=\"title is-1\"><a href=\""@ + escape_html(path.origin_url()) + "\"><i class=\""@
        + escape_html("fa "@ + site_icon(path.site)) + "\"></i>"@ + escape_html(" "@ + path.title())
        + "</a></h1>"@
}

fn render_heading(repo_path: &RepoPath) -> (html: String)
    ensures
        html@ == heading_html(repo_path@),
{
    let origin = repo_path.origin_url();
    let site = repo_path.site();
    let mut icon = String::from_str("fa ");
    icon.append(get_site_icon(&site));
    let mut label = String::from_str(" ");
    label.append(repo_path.title().as_str());
    let mut html = String::from_str("<h1 class=\"title is-1\"><a href=\"");
    push_escaped(&mut html, origin.as_str());
    html.append("\"><i class=\"");
    push_escaped(&mut html, icon.as_str());
    html.append("\"></i>");
    push_escaped(&mut html, label.as_str());
    html.append("</a></h1>");
    html
}

/// The content of the page for a repository that could not be analyzed: a
/// header in red with the heading, one notice in red, and a footer that
/// reports no time.
pub open spec fn failure_html(path: RepoPathView, base_url: Seq<char>) -> Seq<char> {
    "<section class=\""@ + escape_html(hero_class(None))
        + "\"><div class=\"hero-head\">"@ + navbar_html(base_url)
        + "</div><div class=\"hero-body\"><div class=\"container\">"@ + heading_html(path)
        + "</div></div></section><section class=\"section\"><div class=\"container\"><div class=\""@
        + escape_html("notification "@ + variant_of(None).class())
        + "\"><h2 class=\"title is-3\">Failed to analyze repository</h2><p>The repository you requested might be structured in an uncommon way that is not yet supported.</p></div></div></section>"@
        + footer_html(None)
}

/// Renders the content of the page for a repository that could not be
/// analyzed.
pub fn render_failure(repo_path: &RepoPath, config: &Config) -> (html: String)
    ensures
        html@ == failure_html(repo_path@, config.base_url@),
{
    let navbar = render_navbar(config);
    let heading = render_heading(repo_path);
    let mut notice = String::from_str("notification ");
    notice.append(status_variant(&None).css_class());
    let footer = render_footer(None);
    let hero = render_hero_class(&None);
    let mut html = String::from_str("<section class=\"");
    push_escaped(&mut html, hero.as_str());
    html.append("\"><div class=\"hero-head\">");
    html.append(navbar.as_str());
    html.append("</div><div class=\"hero-body\"><div class=\"container\">");
    html.append(heading.as_str());
    html.append(
        "</div></div></section><section class=\"section\"><div class=\"container\"><div class=\"",
    );
    push_escaped(&mut html, notice.as_str());
    html.append(
        "\"><h2 class=\"title is-3\">Failed to analyze repository</h2><p>The repository you requested might be structured in an uncommon way that is not yet supported.</p></div></div></section>",
    );
    html.append(footer.as_str());
    html
}

/// The panel of a status page that offers the badge for other documents: a
/// tab for Markdown, which shows first, and one for Asciidoc, each with its
/// snippet in a block that keeps the text as it is.
pub open spec fn snippets_html(path: RepoPathView, base_url: Seq<char>) -> Seq<char> {
    "<div class=\"hero-footer\"><div class=\"container\"><div class=\"tabs\"><ul><li class=\"is-active\"><a href=\"#markdown\">Markdown</a></li><li><a href=\"#asciidoc\">Asciidoc</a></li></ul></div></div><div class=\"container\"><div class=\"sources\"><div id=\"markdown\" class=\"is-active\"><pre class=\"is-size-7\">"@
        + escape_html(path.markdown_snippet(base_url))
        + "</pre></div><div id=\"asciidoc\" class=\"is-hidden\"><pre class=\"is-size-7\">"@
        + escape_html(path.asciidoc_snippet(base_url)) + "</pre></div></div></div></div>"@
}

fn render_snippets(repo_path: &RepoPath, config: &Config) -> (html: String)
    ensures
        html@ == snippets_html(repo_path@, config.base_url@),
{
    let markdown = markdown_snippet(config.base_url.as_str(), repo_path);
    let asciidoc = asciidoc_snippet(config.base_url.as_str(), repo_path);
    let mut html = String::from_str(
        "<div class=\"hero-footer\"><div class=\"container\"><div class=\"tabs\"><ul><li class=\"is-active\"><a href=\"#markdown\">Markdown</a></li><li><a href=\"#asciidoc\">Asciidoc</a></li></ul></div></div><div class=\"container\"><div class=\"sources\"><div id=\"markdown\" class=\"is-active\"><pre class=\"is-size-7\">",
    );
    push_escaped(&mut html, markdown.as_str());
    html.append(
        "</pre></div><div id=\"asciidoc\" class=\"is-hidden\"><pre class=\"is-size-7\">",
    );
    push_escaped(&mut html, asciidoc.as_str());
    html.append("</pre></div></div></div></div>");
    html
}

/// The content of the page for an analyzed repository: a header in the
/// colour of the outcome with the heading, the badge as an inline image and
/// the snippet panel, then the sections of all crates in their order, and a
/// footer that reports the time that the analysis took.
pub open spec fn success_html(
    outcome: AnalyzeDependenciesOutcome,
    path: RepoPathView,
    base_url: Seq<char>,
    badge_uri: Seq<char>,
) -> Seq<char> {
    "<section class=\""@ + escape_html(hero_class(Some(outcome)))
        + "\"><div class=\"hero-head\">"@ + navbar_html(base_url)
        + "</div><div class=\"hero-body\"><div class=\"container\">"@ + heading_html(path)
        + "<img src=\""@ + escape_html(badge_uri) + "\"></div></div>"@ + snippets_html(path, base_url)
        + "</section><section class=\"section\"><div class=\"container\">"@ + sections_html(
        sections_of(outcome.entries()),
    ) + "</div></section>"@ + footer_html(Some(outcome.duration.millis()))
}

/// Renders the content of the page for an analyzed repository. The badge
/// comes from the badge renderer as the address that holds the image itself,
/// so that showing the page fetches nothing more.
pub fn render_success(
    analysis_outcome: AnalyzeDependenciesOutcome,
    repo_path: &RepoPath,
    config: &Config,
    badge_data_uri: &str,
) -> (html: String)
    ensures
        html@ == success_html(analysis_outcome, repo_path@, config.base_url@, badge_data_uri@),
{
    let navbar = render_navbar(config);
    let heading = render_heading(repo_path);
    let snippets = render_snippets(repo_path, config);
    let sections = render_sections(&build_sections(&analysis_outcome));
    let footer = render_footer(Some(analysis_outcome.duration));
    let hero = render_hero_class(&Some(analysis_outcome));
    let mut html = String::from_str("<section class=\"");
    push_escaped(&mut html, hero.as_str());
    html.append("\"><div class=\"hero-head\">");
    html.append(navbar.as_str());
    html.append("</div><div class=\"hero-body\"><div class=\"container\">");
    html.append(heading.as_str());
    html.append("<img src=\"");
    push_escaped(&mut html, badge_data_uri);
    html.append("\"></div></div>");
    html.append(snippets.as_str());
    html.append("</section><section class=\"section\"><div class=\"container\">");
    html.append(sections.as_str());
    html.append("</div></section>");
    html.append(footer.as_str());
    html
}

/// The content of the status page: that of an analyzed repository where
/// there is an outcome, that of a failed analysis where there is none.
pub open spec fn status_html(
    outcome: Option<AnalyzeDependenciesOutcome>,
    path: RepoPathView,
    base_url: Seq<char>,
    badge_uri: Seq<char>,
) -> Seq<char> {
    match outcome {
        Some(found) => success_html(found, path, base_url, badge_uri),
        None => failure_html(path, base_url),
    }
}

/// Renders the status page of a repository as a complete HTML document,
/// titled with the owner and name of the repository. With an outcome the
/// page shows it, and embeds the badge at `badge_data_uri`; without one the
/// page tells that the analysis failed, and the badge is left out.
pub fn render(
    analysis_outcome: Option<AnalyzeDependenciesOutcome>,
    repo_path: RepoPath,
    config: &Config,
    badge_data_uri: &str,
) -> (document: Document)
    ensures
        document.content_type@ == "text/html"@,
        document.body@ == document_html(
            repo_path@.title(),
            status_html(analysis_outcome, repo_path@, config.base_url@, badge_data_uri@),
            text_of(config.gauges_site_id),
        ),
{
    let title = repo_path.title();
    if let Some(outcome) = analysis_outcome {
        let content = render_success(outcome, &repo_path, config, badge_data_uri);
        render_html(title.as_str(), content.as_str(), config)
    } else {
        let content = render_failure(&repo_path, config);
        render_html(title.as_str(), content.as_str(), config)
    }
}

} // verus!
