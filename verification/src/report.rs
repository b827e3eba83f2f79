//! The content of a status page before any markup: for each crate of a
//! repository the tables of its dependencies, each with a summary and a row
//! for every dependency.

use crate::engine::{crate_count, crate_entry, AnalyzeDependenciesOutcome};
use crate::models::crates::{
    count_outdated, dependency_count, dependency_entries, dependency_entry, entry_outdated,
    no_dependencies, AnalyzedDependencies, AnalyzedDependency, CrateName,
};
use crate::text::{decimal, decimal_string, is_digit, lemma_decimal};
use ordermap::OrderMap;
use vstd::prelude::*;
use vstd::string::*;

verus! {

/// What a row of a dependency table holds, as plain text.
pub struct RowView {
    pub name: Seq<char>,
    pub required: Seq<char>,
    pub latest: Option<Seq<char>>,
    pub outdated: bool,
}

impl RowView {
    /// What the row shows in place of the newest version: the version, or a
    /// note that none is known.
    pub open spec fn latest_text(self) -> Seq<char> {
        match self.latest {
            Some(version) => version,
            None => "N/A"@,
        }
    }

    /// The words of the row's status tag.
    pub open spec fn status_text(self) -> Seq<char> {
        if self.outdated {
            "out of date"@
        } else {
            "up to date"@
        }
    }
}

/// One row of a dependency table: a dependency by name, the requirement on
/// it, the newest version that is known of it, and whether it is outdated.
#[derive(Debug)]
pub struct Row {
    pub name: String,
    pub required: String,
    pub latest: Option<String>,
    pub outdated: bool,
}

impl View for Row {
    type V = RowView;

    open spec fn view(&self) -> RowView {
        RowView {
            name: self.name@,
            required: self.required@,
            latest: match self.latest {
                Some(version) => Some(version@),
                None => None,
            },
            outdated: self.outdated,
        }
    }
}

/// The row that shows one entry of a dependency map.
pub open spec fn row_of(entry: (CrateName, AnalyzedDependency)) -> RowView {
    RowView {
        name: entry.0@,
        required: entry.1.required@,
        latest: match entry.1.latest {
            Some(version) => Some(version@),
            None => None,
        },
        outdated: entry.1.outdated(),
    }
}

/// The rows that show the entries of a dependency map: one for each entry,
/// in the order of the entries.
pub open spec fn rows_of(entries: Seq<(CrateName, AnalyzedDependency)>) -> Seq<RowView> {
    entries.map_values(|entry: (CrateName, AnalyzedDependency)| row_of(entry))
}

/// The rows of a table stand in the order of the entries that they show: the
/// row at each place shows the entry at that place. Nothing is sorted and
/// nothing is left out.
pub proof fn lemma_rows_keep_order(entries: Seq<(CrateName, AnalyzedDependency)>)
    ensures
        rows_of(entries).len() == entries.len(),
        forall|i: int| 0 <= i < entries.len() ==> #[trigger] rows_of(entries)[i] == row_of(entries[i]),
{
}

/// What each of the rows holds.
pub open spec fn rows_view(rows: Seq<Row>) -> Seq<RowView> {
    rows.map_values(|row: Row| row@)
}

impl Row {
    /// The row that shows a dependency under its name.
    pub fn new(name: &CrateName, dependency: &AnalyzedDependency) -> (row: Row)
        ensures
            row@ == row_of((*name, *dependency)),
    {
        Row {
            name: String::from_str(name.as_str()),
            required: dependency.required.clone(),
            latest: dependency.latest.clone(),
            outdated: dependency.is_outdated(),
        }
    }

    /// What the row shows in place of the newest version: the version, or
    /// `N/A` where none is known.
    pub fn latest_text(&self) -> (text: &str)
        ensures
            text@ == self@.latest_text(),
    {
        match &self.latest {
            Some(version) => version.as_str(),
            None => "N/A",
        }
    }

    /// The words of the row's status tag.
    pub fn status_text(&self) -> (text: &'static str)
        ensures
            text@ == self@.status_text(),
    {
        if self.outdated {
            "out of date"
        } else {
            "up to date"
        }
    }
}

/// Makes the rows of the table that shows a dependency map.
pub fn rows(deps: &OrderMap<CrateName, AnalyzedDependency>) -> (rows: Vec<Row>)
    ensures
        rows_view(rows@) == rows_of(dependency_entries(*deps)),
{
    let count = dependency_count(deps);
    let mut rows: Vec<Row> = Vec::new();
    let mut index: usize = 0;
    while index < count
        invariant
            count == dependency_entries(*deps).len(),
            index <= count,
            rows@.len() == index,
            forall|i: int| 0 <= i < index ==> (#[trigger] rows@[i])@ == row_of(dependency_entries(*deps)[i]),
        decreases count - index,
    {
        let (name, dependency) = dependency_entry(deps, index);
        rows.push(Row::new(name, dependency));
        index += 1;
    }
    assert(rows_view(rows@) =~= rows_of(dependency_entries(*deps)));
    rows
}

/// The sentence that sums a table up, for a table of `total` dependencies of
/// which `outdated` are outdated.
pub open spec fn summary_text(total: nat, outdated: nat) -> Seq<char> {
    if outdated == 0 {
        "("@ + decimal(total) + " total, all up-to-date)"@
    } else {
        "("@ + decimal(total) + " total, "@ + decimal((total - outdated) as nat) + " up-to-date, "@
            + decimal(outdated) + " outdated)"@
    }
}

/// The sentence for a table of `total` dependencies that are all current.
pub open spec fn all_current_text(total: nat) -> Seq<char> {
    "("@ + decimal(total) + " total, all up-to-date)"@
}

/// The summary says that all dependencies are up to date where none of them
/// is outdated, and only there.
pub proof fn lemma_summary_phrasing(total: nat, outdated: nat)
    ensures
        summary_text(total, outdated) == all_current_text(total) <==> outdated == 0,
{
    if outdated != 0 {
        let count = decimal(total);
        let current = decimal((total - outdated) as nat);
        let at = count.len() as int + 9;
        reveal_strlit("(");
        reveal_strlit(" total, all up-to-date)");
        reveal_strlit(" total, ");
        reveal_strlit(" up-to-date, ");
        reveal_strlit(" outdated)");
        lemma_decimal((total - outdated) as nat);
        assert(is_digit(current[0]));
        assert(all_current_text(total)[at] == 'a');
        assert(summary_text(total, outdated)[at] == current[0]);
    }
}

/// What a summary holds, as plain values.
pub struct SummaryView {
    pub count_total: nat,
    pub count_outdated: nat,
    pub text: Seq<char>,
}

/// The counts of a dependency table, and the sentence that states them.
#[derive(Debug)]
pub struct Summary {
    pub count_total: usize,
    pub count_outdated: usize,
    pub text: String,
}

impl View for Summary {
    type V = SummaryView;

    open spec fn view(&self) -> SummaryView {
        SummaryView {
            count_total: self.count_total as nat,
            count_outdated: self.count_outdated as nat,
            text: self.text@,
        }
    }
}

/// The summary of the entries of a dependency map.
pub open spec fn summary_of(entries: Seq<(CrateName, AnalyzedDependency)>) -> SummaryView {
    SummaryView {
        count_total: entries.len(),
        count_outdated: count_outdated(entries),
        text: summary_text(entries.len(), count_outdated(entries)),
    }
}

/// With one more entry taken, the count of the outdated ones grows by one
/// if that entry is outdated, and stays otherwise.
pub proof fn lemma_count_outdated_step(entries: Seq<(CrateName, AnalyzedDependency)>, taken: int)
    requires
        0 <= taken < entries.len(),
    ensures
        count_outdated(entries.take(taken + 1)) == count_outdated(entries.take(taken)) + (if entries[taken].1.outdated() {
            1nat
        } else {
            0nat
        }),
        count_outdated(entries.take(taken)) <= taken,
{
    let shorter = entries.take(taken);
    assert(shorter.push(entries[taken]) =~= entries.take(taken + 1));
    shorter.lemma_filter_len_push(entry_outdated(), entries[taken]);
    shorter.lemma_filter_len(entry_outdated());
}

/// Counts the dependencies of a map and those among them that are outdated,
/// and puts both into a sentence: that all are up to date where none is
/// outdated, else how many are up to date and how many outdated.
pub fn summarize(deps: &OrderMap<CrateName, AnalyzedDependency>) -> (summary: Summary)
    ensures
        summary@ == summary_of(dependency_entries(*deps)),
{
    let count_total = dependency_count(deps);
    let mut count_outdated: usize = 0;
    let mut index: usize = 0;
    while index < count_total
        invariant
            count_total == dependency_entries(*deps).len(),
            index <= count_total,
            count_outdated <= index,
            count_outdated == self::count_outdated(dependency_entries(*deps).take(index as int)),
        decreases count_total - index,
    {
        let (_, dependency) = dependency_entry(deps, index);
        proof {
            lemma_count_outdated_step(dependency_entries(*deps), index as int);
        }
        if dependency.is_outdated() {
            count_outdated += 1;
        }
        index += 1;
    }
    assert(dependency_entries(*deps).take(index as int) =~= dependency_entries(*deps));
    let mut text = String::from_str("(");
    text.append(decimal_string(count_total as u128).as_str());
    if count_outdated == 0 {
        text.append(" total, all up-to-date)");
    } else {
        text.append(" total, ");
        text.append(decimal_string((count_total - count_outdated) as u128).as_str());
        text.append(" up-to-date, ");
        text.append(decimal_string(count_outdated as u128).as_str());
        text.append(" outdated)");
    }
    Summary { count_total, count_outdated, text }
}

/// The kinds of dependencies that a manifest tells apart.
#[derive(Clone, Copy, Debug, PartialEq, Eq, Hash, Structural)]
pub enum Category {
    Main,
    Dev,
    Build,
}

impl Category {
    /// The heading over the table of a kind of dependencies.
    pub open spec fn spec_title(self) -> Seq<char> {
        match self {
            Category::Main => "Dependencies"@,
            Category::Dev => "Dev dependencies"@,
            Category::Build => "Build dependencies"@,
        }
    }

    /// The heading over the table of a kind of dependencies.
    pub fn title(&self) -> (title: &'static str)
        ensures
            title@ == self.spec_title(),
    {
        match self {
            Category::Main => "Dependencies",
            Category::Dev => "Dev dependencies",
            Category::Build => "Build dependencies",
        }
    }
}

/// What a dependency table holds, as plain values.
pub struct TableView {
    pub title: Seq<char>,
    pub summary: SummaryView,
    pub rows: Seq<RowView>,
}

/// A table of dependencies: its heading, its summary and its rows.
#[derive(Debug)]
pub struct DependencyTable {
    pub title: String,
    pub summary: Summary,
    pub rows: Vec<Row>,
}

impl View for DependencyTable {
    type V = TableView;

    open spec fn view(&self) -> TableView {
        TableView { title: self.title@, summary: self.summary@, rows: rows_view(self.rows@) }
    }
}

/// The table that shows the entries of a dependency map under a heading.
pub open spec fn table_of(title: Seq<char>, entries: Seq<(CrateName, AnalyzedDependency)>) -> TableView {
    TableView { title, summary: summary_of(entries), rows: rows_of(entries) }
}

/// Makes the table that shows a dependency map under a heading.
pub fn build_table(title: &str, deps: &OrderMap<CrateName, AnalyzedDependency>) -> (table:
    DependencyTable)
    ensures
        table@ == table_of(title@, dependency_entries(*deps)),
{
    DependencyTable { title: String::from_str(title), summary: summarize(deps), rows: rows(deps) }
}

/// What a part of a crate's section holds, as plain values.
pub enum SubsectionView {
    NoDependencies,
    Table(TableView),
}

/// A part of a crate's section: a table of dependencies, or the note that
/// the crate has none.
#[derive(Debug)]
pub enum Subsection {
    NoDependencies,
    Table(DependencyTable),
}

impl View for Subsection {
    type V = SubsectionView;

    open spec fn view(&self) -> SubsectionView {
        match self {
            Subsection::NoDependencies => SubsectionView::NoDependencies,
            Subsection::Table(table) => SubsectionView::Table(table@),
        }
    }
}

/// What each of the parts holds.
pub open spec fn subsections_view(subsections: Seq<Subsection>) -> Seq<SubsectionView> {
    subsections.map_values(|subsection: Subsection| subsection@)
}

/// What a crate's section holds, as plain values.
pub struct CrateSectionView {
    pub crate_name: Seq<char>,
    pub subsections: Seq<SubsectionView>,
}

/// The section of a status page that shows one crate.
#[derive(Debug)]
pub struct CrateSection {
    pub crate_name: String,
    pub subsections: Vec<Subsection>,
}

impl View for CrateSection {
    type V = CrateSectionView;

    open spec fn view(&self) -> CrateSectionView {
        CrateSectionView {
            crate_name: self.crate_name@,
            subsections: subsections_view(self.subsections@),
        }
    }
}

/// What each of the sections holds.
pub open spec fn sections_view(sections: Seq<CrateSection>) -> Seq<CrateSectionView> {
    sections.map_values(|section: CrateSection| section@)
}

/// What a kind of dependencies adds to a crate's section: its table, or
/// nothing where the crate has no dependency of the kind.
pub open spec fn category_subsections(
    category: Category,
    entries: Seq<(CrateName, AnalyzedDependency)>,
) -> Seq<SubsectionView> {
    if entries.len() == 0 {
        Seq::empty()
    } else {
        seq![SubsectionView::Table(table_of(category.spec_title(), entries))]
    }
}

/// The parts of a crate's section. A crate without any dependency gets the
/// note that says so and no table. Any other crate gets a table for each
/// kind of which it has dependencies: first those it is built with, then
/// those of its tests, then those of its build script.
pub open spec fn subsections_of(deps: AnalyzedDependencies) -> Seq<SubsectionView> {
    if deps.has_none() {
        seq![SubsectionView::NoDependencies]
    } else {
        category_subsections(Category::Main, deps.main_entries()) + category_subsections(
            Category::Dev,
            deps.dev_entries(),
        ) + category_subsections(Category::Build, deps.build_entries())
    }
}

/// The section that shows a crate with its dependencies.
pub open spec fn section_of(entry: (CrateName, AnalyzedDependencies)) -> CrateSectionView {
    CrateSectionView { crate_name: entry.0@, subsections: subsections_of(entry.1) }
}

/// The sections that show the crates of a repository: one for each crate, in
/// the order of the crates.
pub open spec fn sections_of(crates: Seq<(CrateName, AnalyzedDependencies)>) -> Seq<
    CrateSectionView,
> {
    crates.map_values(|entry: (CrateName, AnalyzedDependencies)| section_of(entry))
}

/// A crate without any dependency gets exactly one part, the note that it
/// has none, and no table. A crate with dependencies gets tables only: one
/// for each kind of which it has dependencies, and never the note.
pub proof fn lemma_subsections(deps: AnalyzedDependencies)
    ensures
        deps.has_none() ==> subsections_of(deps) == seq![SubsectionView::NoDependencies],
        !deps.has_none() ==> subsections_of(deps).len() == (if deps.main_entries().len() > 0 {
            1nat
        } else {
            0nat
        }) + (if deps.dev_entries().len() > 0 {
            1nat
        } else {
            0nat
        }) + (if deps.build_entries().len() > 0 {
            1nat
        } else {
            0nat
        }),
        !deps.has_none() ==> forall|i: int|
            0 <= i < subsections_of(deps).len() ==> #[trigger] subsections_of(deps)[i] is Table,
{
}

/// The sections of a page stand in the order of the crates that they show.
pub proof fn lemma_sections_keep_order(crates: Seq<(CrateName, AnalyzedDependencies)>)
    ensures
        sections_of(crates).len() == crates.len(),
        forall|i: int| 0 <= i < crates.len() ==> #[trigger] sections_of(crates)[i] == section_of(crates[i]),
{
}

fn push_category(
    subsections: &mut Vec<Subsection>,
    category: Category,
    deps: &OrderMap<CrateName, AnalyzedDependency>,
)
    ensures
        subsections_view(final(subsections)@) == subsections_view(old(subsections)@)
            + category_subsections(category, dependency_entries(*deps)),
{
    if !no_dependencies(deps) {
        subsections.push(Subsection::Table(build_table(category.title(), deps)));
    }
    assert(subsections_view(subsections@) =~= subsections_view(old(subsections)@)
        + category_subsections(category, dependency_entries(*deps)));
}

/// Makes the section that shows a crate with its dependencies.
pub fn build_section(crate_name: &CrateName, deps: &AnalyzedDependencies) -> (section: CrateSection)
    ensures
        section@ == section_of((*crate_name, *deps)),
{
    let mut subsections: Vec<Subsection> = Vec::new();
    if no_dependencies(&deps.main) && no_dependencies(&deps.dev) && no_dependencies(&deps.build) {
        subsections.push(Subsection::NoDependencies);
    } else {
        push_category(&mut subsections, Category::Main, &deps.main);
        push_category(&mut subsections, Category::Dev, &deps.dev);
        push_category(&mut subsections, Category::Build, &deps.build);
    }
    assert(subsections_view(subsections@) =~= subsections_of(*deps));
    CrateSection { crate_name: String::from_str(crate_name.as_str()), subsections }
}

/// Makes the sections of the page that shows an outcome: one for each crate,
/// in the order in which the outcome holds them.
pub fn build_sections(outcome: &AnalyzeDependenciesOutcome) -> (sections: Vec<CrateSection>)
    ensures
        sections_view(sections@) == sections_of(outcome.entries()),
{
    let count = crate_count(&outcome.crates);
    let mut sections: Vec<CrateSection> = Vec::new();
    let mut index: usize = 0;
    while index < count
        invariant
            count == outcome.entries().len(),
            index <= count,
            sections@.len() == index,
            forall|i: int| 0 <= i < index ==> (#[trigger] sections@[i])@ == section_of(outcome.entries()[i]),
        decreases count - index,
    {
        let (crate_name, deps) = crate_entry(&outcome.crates, index);
        sections.push(build_section(crate_name, deps));
        index += 1;
    }
    assert(sections_view(sections@) =~= sections_of(outcome.entries()));
    sections
}

} // verus!
