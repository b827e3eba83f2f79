//! The outcome of analyzing the dependencies of a repository.

use crate::models::crates::{AnalyzedDependencies, CrateName};
use ordermap::OrderMap;
use vstd::prelude::*;

verus! {

/// The time that an analysis took: whole seconds and the nanoseconds of the
/// second that had begun.
#[derive(Clone, Copy, Debug)]
pub struct Elapsed {
    secs: u64,
    subsec_nanos: u32,
}

impl Elapsed {
    #[verifier::type_invariant]
    spec fn within_second(self) -> bool {
        self.subsec_nanos < 1_000_000_000
    }

    /// The whole seconds of the time.
    pub closed spec fn spec_secs(self) -> nat {
        self.secs as nat
    }

    /// The nanoseconds of the second that had begun.
    pub closed spec fn spec_subsec_nanos(self) -> nat {
        self.subsec_nanos as nat
    }

    /// The elapsed time in whole milliseconds: what is left of a millisecond
    /// is dropped.
    pub open spec fn millis(self) -> nat {
        self.spec_secs() * 1000 + self.spec_subsec_nanos() / 1_000_000
    }

    /// A time of `secs` seconds and `subsec_nanos` nanoseconds, where the
    /// nanoseconds are less than a second.
    pub fn new(secs: u64, subsec_nanos: u32) -> (result: Option<Elapsed>)
        ensures
            subsec_nanos < 1_000_000_000 <==> result is Some,
            result matches Some(elapsed) ==> elapsed.spec_secs() == secs
                && elapsed.spec_subsec_nanos() == subsec_nanos,
    {
        if subsec_nanos < 1_000_000_000 {
            Some(Elapsed { secs, subsec_nanos })
        } else {
            None
        }
    }

    /// The whole seconds of the time.
    pub fn as_secs(&self) -> (secs: u64)
        ensures
            secs == self.spec_secs(),
    {
        self.secs
    }

    /// The nanoseconds of the second that had begun: less than a second.
    pub fn subsec_nanos(&self) -> (nanos: u32)
        ensures
            nanos == self.spec_subsec_nanos(),
            nanos < 1_000_000_000,
    {
        proof {
            use_type_invariant(self);
        }
        self.subsec_nanos
    }

    /// The time in whole milliseconds: a thousand for each second and one
    /// for each full million of the nanoseconds. No time is too long for it.
    pub fn as_millis(&self) -> (millis: u128)
        ensures
            millis == self.millis(),
    {
        let secs: u128 = self.secs as u128;
        let nanos: u128 = self.subsec_nanos as u128;
        secs * 1000 + nanos / 1_000_000
    }
}

/// The entries of a map from crates to their dependencies in the map's own
/// order, which is the order of its positions and the one in which it yields
/// them. As long as nothing is removed from a map and nothing sorts it, that
/// is the order in which the names were first inserted.
pub uninterp spec fn crate_entries(map: OrderMap<CrateName, AnalyzedDependencies>) -> Seq<
    (CrateName, AnalyzedDependencies),
>;

/// `OrderMap::len`: the number of entries that the map holds.
#[verifier::external_body]
pub(crate) fn crate_count(map: &OrderMap<CrateName, AnalyzedDependencies>) -> (count: usize)
    ensures
        count == crate_entries(*map).len(),
{
    map.len()
}

/// `OrderMap::get_index`: the entry at a position of the map's order, by
/// reference, where the position is below the map's length, and nothing
/// where it is not.
#[verifier::external_body]
pub(crate) fn crate_at(map: &OrderMap<CrateName, AnalyzedDependencies>, index: usize) -> (entry:
    Option<(&CrateName, &AnalyzedDependencies)>)
    ensures
        entry is Some <==> index < crate_entries(*map).len(),
        entry matches Some(found) ==> *found.0 == crate_entries(*map)[index as int].0 && *found.1
            == crate_entries(*map)[index as int].1,
{
    map.get_index(index)
}

/// The entry at a position within the map.
pub(crate) fn crate_entry(map: &OrderMap<CrateName, AnalyzedDependencies>, index: usize) -> (entry: (
    &CrateName,
    &AnalyzedDependencies,
))
    requires
        index < crate_entries(*map).len(),
    ensures
        *entry.0 == crate_entries(*map)[index as int].0,
        *entry.1 == crate_entries(*map)[index as int].1,
{
    match crate_at(map, index) {
        Some(found) => found,
        None => unreached(),
    }
}

/// What the analysis of one repository found: the dependencies of each of its
/// crates, and the time that finding them took.
#[derive(Debug)]
pub struct AnalyzeDependenciesOutcome {
    pub crates: OrderMap<CrateName, AnalyzedDependencies>,
    pub duration: Elapsed,
}

impl AnalyzeDependenciesOutcome {
    /// The crates of the repository with their dependencies, in order.
    pub open spec fn entries(self) -> Seq<(CrateName, AnalyzedDependencies)> {
        crate_entries(self.crates)
    }

    /// Whether any dependency of any crate is outdated.
    pub open spec fn has_outdated(self) -> bool {
        exists|i: int|
            0 <= i < self.entries().len() && (#[trigger] self.entries()[i]).1.has_outdated()
    }

    /// Tells whether any dependency of any crate is outdated.
    pub fn any_outdated(&self) -> (any: bool)
        ensures
            any == self.has_outdated(),
    {
        let count = crate_count(&self.crates);
        let mut index: usize = 0;
        while index < count
            invariant
                count == self.entries().len(),
                index <= count,
                forall|i: int| 0 <= i < index ==> !(#[trigger] self.entries()[i]).1.has_outdated(),
            decreases count - index,
        {
            let (_, dependencies) = crate_entry(&self.crates, index);
            if dependencies.any_outdated() {
                return true;
            }
            index += 1;
        }
        false
    }
}

} // verus!
