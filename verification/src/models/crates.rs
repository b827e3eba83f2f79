//! Crates and the outcome of comparing their dependencies with the registry.

use ordermap::OrderMap;
use vstd::prelude::*;
use vstd::string::*;

verus! {

/// `ordermap::OrderMap`, a hash map that keeps its entries in the order in
/// which they were inserted. It is opaque here: what a map holds is told by
/// [`dependency_entries`] and, for the crates of a repository, by
/// `crate_entries`.
#[verifier::external_type_specification]
#[verifier::external_body]
#[verifier::reject_recursive_types(K)]
#[verifier::reject_recursive_types(V)]
#[verifier::reject_recursive_types(S)]
pub struct ExOrderMap<K, V, S>(OrderMap<K, V, S>);

/// The name of a crate: a non-empty string that identifies it in a manifest.
#[derive(Debug, PartialEq, Eq, Hash)]
pub struct CrateName {
    name: String,
}

impl View for CrateName {
    type V = Seq<char>;

    closed spec fn view(&self) -> Seq<char> {
        self.name@
    }
}

impl Clone for CrateName {
    fn clone(&self) -> (copy: Self)
        ensures
            copy@ == self@,
    {
        proof {
            use_type_invariant(self);
        }
        CrateName { name: self.name.clone() }
    }
}

impl CrateName {
    #[verifier::type_invariant]
    spec fn non_empty(self) -> bool {
        self.name@.len() > 0
    }

    /// Accepts any non-empty string as a crate name.
    pub fn new(name: String) -> (result: Option<CrateName>)
        ensures
            name@.len() == 0 <==> result is None,
            result matches Some(crate_name) ==> crate_name@ == name@,
    {
        if name.as_str().is_empty() {
            None
        } else {
            Some(CrateName { name })
        }
    }

    /// The name as text, which is never empty.
    pub fn as_str(&self) -> (name: &str)
        ensures
            name@ == self@,
            name@.len() > 0,
    {
        proof {
            use_type_invariant(self);
        }
        self.name.as_str()
    }
}

/// One dependency of a crate, as the analysis left it.
#[derive(Debug)]
pub struct AnalyzedDependency {
    /// The version requirement as the manifest declares it.
    pub required: String,
    /// The newest version that the registry knows, if it knows any.
    pub latest: Option<String>,
    /// Whether `required` admits `latest`. It has no meaning while `latest`
    /// is absent.
    pub latest_satisfies: bool,
}

impl Clone for AnalyzedDependency {
    fn clone(&self) -> (copy: Self)
        ensures
            copy == *self,
    {
        AnalyzedDependency {
            required: self.required.clone(),
            latest: self.latest.clone(),
            latest_satisfies: self.latest_satisfies,
        }
    }
}

impl AnalyzedDependency {
    /// A dependency is outdated when a newest version is known and the
    /// requirement does not admit it. While none is known it counts as current.
    pub open spec fn outdated(self) -> bool {
        self.latest is Some && !self.latest_satisfies
    }

    /// Tells whether the dependency is outdated.
    pub fn is_outdated(&self) -> (outdated: bool)
        ensures
            outdated == self.outdated(),
    {
        self.latest.is_some() && !self.latest_satisfies
    }
}

/// A dependency of which no newest version is known is not outdated,
/// whatever is required of it.
pub proof fn lemma_unknown_latest_is_current(dependency: AnalyzedDependency)
    requires
        dependency.latest is None,
    ensures
        !dependency.outdated(),
{
}

/// The entries of a dependency map in the map's own order, which is the order
/// of its positions and the one in which it yields them. As long as nothing
/// is removed from a map and nothing sorts it, that is the order in which the
/// names were first inserted.
pub uninterp spec fn dependency_entries(map: OrderMap<CrateName, AnalyzedDependency>) -> Seq<
    (CrateName, AnalyzedDependency),
>;

/// `OrderMap::len`: the number of entries that the map holds.
#[verifier::external_body]
pub(crate) fn dependency_count(map: &OrderMap<CrateName, AnalyzedDependency>) -> (count: usize)
    ensures
        count == dependency_entries(*map).len(),
{
    map.len()
}

/// `OrderMap::is_empty`: whether the map holds no entry.
#[verifier::external_body]
pub(crate) fn no_dependencies(map: &OrderMap<CrateName, AnalyzedDependency>) -> (empty: bool)
    ensures
        empty == (dependency_entries(*map).len() == 0),
{
    map.is_empty()
}

/// `OrderMap::get_index`: the entry at a position of the map's order, by
/// reference, where the position is below the map's length, and nothing
/// where it is not.
#[verifier::external_body]
pub(crate) fn dependency_at(map: &OrderMap<CrateName, AnalyzedDependency>, index: usize) -> (entry:
    Option<(&CrateName, &AnalyzedDependency)>)
    ensures
        entry is Some <==> index < dependency_entries(*map).len(),
        entry matches Some(found) ==> *found.0 == dependency_entries(*map)[index as int].0
            && *found.1 == dependency_entries(*map)[index as int].1,
{
    map.get_index(index)
}

/// The entry at a position within the map.
pub(crate) fn dependency_entry(map: &OrderMap<CrateName, AnalyzedDependency>, index: usize) -> (entry:
    (&CrateName, &AnalyzedDependency))
    requires
        index < dependency_entries(*map).len(),
    ensures
        *entry.0 == dependency_entries(*map)[index as int].0,
        *entry.1 == dependency_entries(*map)[index as int].1,
{
    match dependency_at(map, index) {
        Some(found) => found,
        None => unreached(),
    }
}

/// The test that picks the outdated entries.
pub open spec fn entry_outdated() -> spec_fn((CrateName, AnalyzedDependency)) -> bool {
    |entry: (CrateName, AnalyzedDependency)| entry.1.outdated()
}

/// How many of the entries are outdated.
pub open spec fn count_outdated(entries: Seq<(CrateName, AnalyzedDependency)>) -> nat {
    entries.filter(entry_outdated()).len()
}

/// Whether any of the entries is outdated.
pub open spec fn any_outdated_among(entries: Seq<(CrateName, AnalyzedDependency)>) -> bool {
    exists|i: int| 0 <= i < entries.len() && (#[trigger] entries[i]).1.outdated()
}

/// Some entry is outdated exactly where the count of the outdated entries is
/// not zero.
pub proof fn lemma_any_outdated_is_counted(entries: Seq<(CrateName, AnalyzedDependency)>)
    ensures
        any_outdated_among(entries) <==> count_outdated(entries) > 0,
    decreases entries.len(),
{
    if entries.len() > 0 {
        let front = entries.drop_last();
        let last = entries.last();
        lemma_any_outdated_is_counted(front);
        assert(front.push(last) =~= entries);
        front.lemma_filter_len_push(entry_outdated(), last);
        if any_outdated_among(entries) {
            let i = choose|i: int| 0 <= i < entries.len() && (#[trigger] entries[i]).1.outdated();
            if i < front.len() {
                assert(front[i].1.outdated());
            }
        }
        if any_outdated_among(front) {
            let i = choose|i: int| 0 <= i < front.len() && (#[trigger] front[i]).1.outdated();
            assert(entries[i].1.outdated());
        }
        if last.1.outdated() {
            assert(entries[entries.len() - 1].1.outdated());
        }
    } else {
        assert(entries.filter(entry_outdated()).len() == 0) by {
            entries.lemma_filter_len(entry_outdated());
        }
    }
}

/// Looks through a map for an outdated dependency.
pub fn any_outdated_in(map: &OrderMap<CrateName, AnalyzedDependency>) -> (any: bool)
    ensures
        any == any_outdated_among(dependency_entries(*map)),
{
    let count = dependency_count(map);
    let mut index: usize = 0;
    while index < count
        invariant
            count == dependency_entries(*map).len(),
            index <= count,
            forall|i: int| 0 <= i < index ==> !(#[trigger] dependency_entries(*map)[i]).1.outdated(),
        decreases count - index,
    {
        let (_, dependency) = dependency_entry(map, index);
        if dependency.is_outdated() {
            return true;
        }
        index += 1;
    }
    false
}

/// The dependencies of one crate, by the table of the manifest that declares
/// them.
#[derive(Debug)]
pub struct AnalyzedDependencies {
    pub main: OrderMap<CrateName, AnalyzedDependency>,
    pub dev: OrderMap<CrateName, AnalyzedDependency>,
    pub build: OrderMap<CrateName, AnalyzedDependency>,
}

impl AnalyzedDependencies {
    /// The dependencies that the crate is built with, in the manifest's order.
    pub open spec fn main_entries(self) -> Seq<(CrateName, AnalyzedDependency)> {
        dependency_entries(self.main)
    }

    /// The dependencies of the crate's tests and examples, in the manifest's
    /// order.
    pub open spec fn dev_entries(self) -> Seq<(CrateName, AnalyzedDependency)> {
        dependency_entries(self.dev)
    }

    /// The dependencies of the crate's build script, in the manifest's order.
    pub open spec fn build_entries(self) -> Seq<(CrateName, AnalyzedDependency)> {
        dependency_entries(self.build)
    }

    /// Whether the crate has no dependency of any kind.
    pub open spec fn has_none(self) -> bool {
        self.main_entries().len() == 0 && self.dev_entries().len() == 0
            && self.build_entries().len() == 0
    }

    /// Whether any dependency of the crate, of whatever kind, is outdated.
    pub open spec fn has_outdated(self) -> bool {
        any_outdated_among(self.main_entries()) || any_outdated_among(self.dev_entries())
            || any_outdated_among(self.build_entries())
    }

    /// Tells whether any dependency of the crate is outdated.
    pub fn any_outdated(&self) -> (any: bool)
        ensures
            any == self.has_outdated(),
    {
        any_outdated_in(&self.main) || any_outdated_in(&self.dev) || any_outdated_in(&self.build)
    }
}

} // verus!
