//! Loading units from the files of a directory.
//!
//! The caller walks the directory and reads the files; which entries are unit
//! files, what each one describes and what a failure means is decided here.

use crate::text::{ends_with, is_suffix};
use crate::unitfile::{describes, fields_of, ini_parse, missing_key, LoadError};
use crate::units::{all_consistent, holds_path, AllUnits, Unit};
use vstd::prelude::*;

verus! {

/// A unit file that was read: its path and its text.
#[derive(Debug)]
pub struct UnitSource {
    pub path: String,
    pub text: String,
}

/// A unit file that could not be loaded: its position among the sources, and why.
#[derive(Debug, Clone, Copy, PartialEq, Eq, Structural)]
pub struct LoadFailure {
    pub index: usize,
    pub error: LoadError,
}

/// Why the unit file with this text is rejected, if it is.
pub open spec fn source_error(text: Seq<char>) -> Option<LoadError> {
    match ini_parse(text) {
        None => Some(LoadError::Malformed),
        Some(entries) => missing_key(fields_of(entries)),
    }
}

/// `unit` is the unit that this source describes.
pub open spec fn loaded_from(unit: Unit, source: UnitSource) -> bool {
    match ini_parse(source.text@) {
        None => false,
        Some(entries) => missing_key(fields_of(entries)) is None && describes(
            unit,
            source.path@,
            fields_of(entries),
        ),
    }
}

/// `units` are the units that the first `n` sources describe, one for one and in
/// order.
pub open spec fn all_loaded(units: Seq<Unit>, sources: Seq<UnitSource>, n: int) -> bool {
    &&& units.len() == n
    &&& forall|i: int| 0 <= i < n ==> loaded_from(#[trigger] units[i], sources[i])
}

/// `failure` names the first source that is rejected, and why it is.
pub open spec fn first_failure(sources: Seq<UnitSource>, failure: LoadFailure) -> bool {
    &&& failure.index < sources.len()
    &&& source_error(sources[failure.index as int].text@) == Some(failure.error)
    &&& forall|i: int|
        0 <= i < failure.index ==> source_error((#[trigger] sources[i]).text@) is None
}

/// Whether a directory entry is a unit file: a regular file whose name ends in
/// `.service`.
pub fn is_unit_file(name: &str, is_file: bool) -> (r: bool)
    ensures
        r == (is_file && is_suffix(".service"@, name@)),
{
    is_file && ends_with(name, ".service")
}

/// Loads the units that the sources describe, in order.
fn load_units(sources: &Vec<UnitSource>) -> (r: Result<Vec<Unit>, LoadFailure>)
    ensures
        match r {
            Ok(units) => all_loaded(units@, sources@, sources@.len() as int),
            Err(failure) => first_failure(sources@, failure),
        },
{
    let mut units: Vec<Unit> = Vec::new();
    let mut i: usize = 0;
    while i < sources.len()
        invariant
            i <= sources.len(),
            all_loaded(units@, sources@, i as int),
            forall|k: int| 0 <= k < i ==> source_error((#[trigger] sources@[k]).text@) is None,
        decreases sources.len() - i,
    {
        match Unit::from_unitfile(sources[i].path.as_str(), sources[i].text.as_str()) {
            Ok(unit) => {
                units.push(unit);
            },
            Err(error) => {
                return Err(LoadFailure { index: i, error });
            },
        }
        i += 1;
    }
    Ok(units)
}

/// Loads every source and appends the units to the registry, in order. One
/// rejected file fails the whole load: the registry is then left as it was,
/// and the first such file is named.
pub fn load_all_services(registry: &mut AllUnits, sources: &Vec<UnitSource>) -> (r: Result<
    (),
    LoadFailure,
>)
    ensures
        match r {
            Ok(_) => {
                &&& final(registry)@.len() == old(registry)@.len() + sources@.len()
                &&& final(registry)@.subrange(0, old(registry)@.len() as int) == old(registry)@
                &&& all_loaded(
                    final(registry)@.subrange(
                        old(registry)@.len() as int,
                        final(registry)@.len() as int,
                    ),
                    sources@,
                    sources@.len() as int,
                )
                &&& forall|i: int|
                    0 <= i < sources@.len() ==> source_error((#[trigger] sources@[i]).text@)
                        is None
            },
            Err(failure) => final(registry)@ == old(registry)@ && first_failure(sources@, failure),
        },
        all_consistent(old(registry)@) ==> all_consistent(final(registry)@),
{
    match load_units(sources) {
        Ok(units) => {
            let ghost added = units@;
            registry.add_all(units);
            assert(registry@.subrange(0, old(registry)@.len() as int) =~= old(registry)@);
            assert(registry@.subrange(old(registry)@.len() as int, registry@.len() as int)
                =~= added);
            assert forall|i: int| 0 <= i < sources@.len() implies source_error(
                (#[trigger] sources@[i]).text@,
            ) is None by {
                assert(loaded_from(added[i], sources@[i]));
            }
            assert(all_consistent(old(registry)@) ==> all_consistent(registry@)) by {
                assert forall|i: int| 0 <= i < added.len() implies (#[trigger] added[i]).service.runtime@.consistent() by {
                    assert(loaded_from(added[i], sources@[i]));
                }
            }
            Ok(())
        },
        Err(failure) => Err(failure),
    }
}

/// Builds the registry of a daemon from the unit files of its directory.
pub fn initialize(sources: &Vec<UnitSource>) -> (r: Result<AllUnits, LoadFailure>)
    ensures
        match r {
            Ok(registry) => all_loaded(registry@, sources@, sources@.len() as int)
                && all_consistent(registry@),
            Err(failure) => first_failure(sources@, failure),
        },
{
    let mut registry = AllUnits::new();
    match load_all_services(&mut registry, sources) {
        Ok(_) => {
            assert(registry@.subrange(0, registry@.len() as int) =~= registry@);
            Ok(registry)
        },
        Err(failure) => Err(failure),
    }
}

/// What a reload made of one unit file.
#[derive(Debug, Clone, Copy, PartialEq, Eq, Structural)]
pub enum Reloaded {
    /// The file was new: its unit was appended.
    Added,
    /// A unit with this path was there already: the file was skipped.
    Known,
    /// The file was rejected and skipped.
    Rejected(LoadError),
}

/// What a reload makes of a unit file, given the units that are held: a path
/// that is held is known, whatever the file says now; any other file is added
/// or rejected.
pub open spec fn reload_outcome(units: Seq<Unit>, source: UnitSource) -> Reloaded {
    if holds_path(units, source.path@) {
        Reloaded::Known
    } else {
        match source_error(source.text@) {
            Some(e) => Reloaded::Rejected(e),
            None => Reloaded::Added,
        }
    }
}

/// How many of the first `n` files were added.
pub open spec fn added_count(report: Seq<Reloaded>, n: int) -> int
    decreases n,
{
    if n <= 0 {
        0
    } else {
        added_count(report, n - 1) + if report[n - 1] is Added {
            1int
        } else {
            0int
        }
    }
}

/// The count of the files that were added among the first `n` depends on the
/// first `n` entries of the report alone.
pub proof fn lemma_added_count_of_prefix(a: Seq<Reloaded>, b: Seq<Reloaded>, n: int)
    requires
        0 <= n <= a.len(),
        n <= b.len(),
        forall|k: int| 0 <= k < n ==> a[k] == b[k],
    ensures
        added_count(a, n) == added_count(b, n),
        0 <= added_count(a, n) <= n,
    decreases n,
{
    if n > 0 {
        lemma_added_count_of_prefix(a, b, n - 1);
    }
}

/// The `i`-th file was judged against the units held when its turn came, and
/// its unit, if it was added, stands where it was appended.
pub open spec fn judged(
    before: Seq<Unit>,
    sources: Seq<UnitSource>,
    after: Seq<Unit>,
    report: Seq<Reloaded>,
    i: int,
) -> bool {
    let held = before.len() + added_count(report, i);
    &&& report[i] == reload_outcome(after.subrange(0, held), sources[i])
    &&& report[i] is Added ==> loaded_from(after[held], sources[i])
}

/// `after` and `report` are what a reload of the first `n` of `sources` makes of
/// the units `before`: nothing that was held is touched, every file is judged
/// in its turn, and the units of the files that were added follow in their
/// order.
pub open spec fn is_reload_of(
    before: Seq<Unit>,
    sources: Seq<UnitSource>,
    after: Seq<Unit>,
    report: Seq<Reloaded>,
    n: int,
) -> bool {
    &&& 0 <= n <= sources.len()
    &&& report.len() == n
    &&& after.len() == before.len() + added_count(report, n)
    &&& after.subrange(0, before.len() as int) == before
    &&& forall|i: int| 0 <= i < n ==> #[trigger] judged(before, sources, after, report, i)
}

/// `after` and `report` are what a reload of `sources` makes of the units
/// `before`.
pub open spec fn is_reload(
    before: Seq<Unit>,
    sources: Seq<UnitSource>,
    after: Seq<Unit>,
    report: Seq<Reloaded>,
) -> bool {
    is_reload_of(before, sources, after, report, sources.len() as int)
}

/// A judgement stands when the registry and the report grow behind it.
proof fn lemma_judged_stands(
    before: Seq<Unit>,
    sources: Seq<UnitSource>,
    held: Seq<Unit>,
    so_far: Seq<Reloaded>,
    after: Seq<Unit>,
    report: Seq<Reloaded>,
    i: int,
)
    requires
        0 <= i < so_far.len(),
        so_far.len() <= report.len(),
        forall|k: int| 0 <= k < so_far.len() ==> report[k] == so_far[k],
        held.len() == before.len() + added_count(so_far, so_far.len() as int),
        held.len() <= after.len(),
        after.subrange(0, held.len() as int) == held,
        judged(before, sources, held, so_far, i),
    ensures
        judged(before, sources, after, report, i),
{
    lemma_added_count_of_prefix(report, so_far, i);
    lemma_added_count_of_prefix(report, so_far, i + 1);
    lemma_added_count_monotonic(so_far, i + 1, so_far.len() as int);
    lemma_added_count_monotonic(so_far, i, i + 1);
    let seen = before.len() + added_count(so_far, i);
    assert(report[i] == so_far[i]);
    assert(seen <= held.len());
    assert(after.subrange(0, seen) =~= held.subrange(0, seen)) by {
        assert forall|j: int| 0 <= j < seen implies after.subrange(0, seen)[j] == held.subrange(
            0,
            seen,
        )[j] by {
            assert(after.subrange(0, held.len() as int)[j] == held[j]);
        }
    }
    if so_far[i] is Added {
        assert(seen < held.len());
        assert(after.subrange(0, held.len() as int)[seen] == held[seen]);
    }
}

/// One more file: a reload of the first `n` files, followed by the judgement of
/// the next, is a reload of the first `n + 1`.
proof fn lemma_reload_one_more(
    before: Seq<Unit>,
    sources: Seq<UnitSource>,
    held: Seq<Unit>,
    so_far: Seq<Reloaded>,
    n: int,
    after: Seq<Unit>,
    outcome: Reloaded,
)
    requires
        is_reload_of(before, sources, held, so_far, n),
        n < sources.len(),
        outcome == reload_outcome(held, sources[n]),
        outcome is Added ==> after.len() == held.len() + 1 && after.drop_last() == held
            && loaded_from(after.last(), sources[n]),
        !(outcome is Added) ==> after == held,
    ensures
        is_reload_of(before, sources, after, so_far.push(outcome), n + 1),
{
    let report = so_far.push(outcome);
    lemma_added_count_of_prefix(report, so_far, n);
    lemma_added_count_monotonic(so_far, 0, n);
    assert(after.subrange(0, held.len() as int) =~= held);
    assert(after.subrange(0, before.len() as int) =~= held.subrange(0, before.len() as int));
    assert forall|i: int| 0 <= i < n + 1 implies #[trigger] judged(
        before,
        sources,
        after,
        report,
        i,
    ) by {
        if i < n {
            lemma_judged_stands(before, sources, held, so_far, after, report, i);
        } else {
            assert(before.len() + added_count(report, n) == held.len());
            if outcome is Added {
                assert(after[held.len() as int] == after.last());
            }
        }
    }
}

/// Judges one unit file against the units that are held, and appends its unit
/// if the file is new and good.
fn reload_one(registry: &mut AllUnits, source: &UnitSource) -> (outcome: Reloaded)
    ensures
        outcome == reload_outcome(old(registry)@, *source),
        outcome is Added ==> {
            &&& final(registry)@.len() == old(registry)@.len() + 1
            &&& final(registry)@.drop_last() == old(registry)@
            &&& loaded_from(final(registry)@.last(), *source)
        },
        !(outcome is Added) ==> final(registry)@ == old(registry)@,
        all_consistent(old(registry)@) ==> all_consistent(final(registry)@),
{
    if registry.holds(source.path.as_str()) {
        Reloaded::Known
    } else {
        match Unit::from_unitfile(source.path.as_str(), source.text.as_str()) {
            Ok(unit) => {
                registry.add_unit(unit);
                assert(registry@.drop_last() =~= old(registry)@);
                Reloaded::Added
            },
            Err(e) => Reloaded::Rejected(e),
        }
    }
}

/// Looks for new units among the files of the directory. A file whose path no
/// unit has yet is loaded and its unit appended; a file that is rejected is
/// skipped and so_far; no unit is removed or replaced.
pub fn reload_server(registry: &mut AllUnits, sources: &Vec<UnitSource>) -> (report: Vec<Reloaded>)
    ensures
        is_reload(old(registry)@, sources@, final(registry)@, report@),
        all_consistent(old(registry)@) ==> all_consistent(final(registry)@),
{
    let ghost before = registry@;
    let mut report: Vec<Reloaded> = Vec::new();
    let mut i: usize = 0;
    assert(registry@.subrange(0, before.len() as int) =~= before);
    while i < sources.len()
        invariant
            is_reload_of(before, sources@, registry@, report@, i as int),
            all_consistent(before) ==> all_consistent(registry@),
        decreases sources.len() - i,
    {
        let ghost held = registry@;
        let ghost so_far = report@;
        let outcome = reload_one(registry, &sources[i]);
        report.push(outcome);
        proof {
            lemma_reload_one_more(before, sources@, held, so_far, i as int, registry@, outcome);
        }
        i += 1;
    }
    report
}

/// The count of the files that were added does not fall as more are counted.
pub proof fn lemma_added_count_monotonic(report: Seq<Reloaded>, m: int, n: int)
    requires
        0 <= m <= n,
    ensures
        0 <= added_count(report, m) <= added_count(report, n),
    decreases n,
{
    if m < n {
        lemma_added_count_monotonic(report, m, n - 1);
    } else if m > 0 {
        lemma_added_count_monotonic(report, m - 1, n - 1);
    }
}

} // verus!
