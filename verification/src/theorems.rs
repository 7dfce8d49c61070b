//! What holds of every comparison.

use vstd::prelude::*;
use vstd::multiset::{group_multiset_axioms, lemma_multiset_empty_len, Multiset};
use vstd::seq_lib::{to_multiset_build, to_multiset_len};
use crate::compare::{
    comparison, eligible, files, first_fault, listed, outcome, tally_of, Finding, Observed,
    Outcome, Tally, Verdict,
};
use crate::exclusion::excluded_by;
use crate::fingerprint::alike;

verus! {

/// The entry at place `j` of `walk` is compared, is recorded with verdict
/// `v`, and has the path `path`.
pub open spec fn recorded_at(
    root_a: Seq<char>,
    patterns: Seq<Seq<char>>,
    walk: Seq<Observed>,
    v: Verdict,
    j: int,
    path: Seq<char>,
) -> bool {
    &&& 0 <= j < walk.len()
    &&& eligible(patterns, walk[j].entry)
    &&& outcome(root_a, patterns, walk[j].entry, walk[j].finding) == Outcome::Recorded(v)
    &&& walk[j].entry.path@ == path
}

/// The paths of all three lists together, each as often as it is listed.
pub open spec fn all_listed(t: Tally) -> Multiset<Seq<char>> {
    t.changed.to_multiset().add(t.added.to_multiset()).add(t.unchanged.to_multiset())
}

/// Every member of a list is the path of a walked entry that was compared
/// and got that list's verdict. So no list holds a symbolic link, anything
/// but a regular file, or a path that an exclusion pattern matches.
pub proof fn listed_were_compared(
    root_a: Seq<char>,
    patterns: Seq<Seq<char>>,
    walk: Seq<Observed>,
    v: Verdict,
    i: int,
)
    ensures
        0 <= i < listed(root_a, patterns, walk, v).len() ==> {
            &&& exists|j: int|
                recorded_at(root_a, patterns, walk, v, j, listed(root_a, patterns, walk, v)[i])
            &&& !excluded_by(patterns, listed(root_a, patterns, walk, v)[i])
        },
    decreases walk.len(),
{
    let list = listed(root_a, patterns, walk, v);
    if 0 <= i < list.len() {
        let before = walk.drop_last();
        let earlier = listed(root_a, patterns, before, v);
        if i < earlier.len() {
            listed_were_compared(root_a, patterns, before, v, i);
            let j = choose|j: int| recorded_at(root_a, patterns, before, v, j, earlier[i]);
            assert(before[j] == walk[j]);
            assert(recorded_at(root_a, patterns, walk, v, j, list[i]));
        } else {
            assert(recorded_at(root_a, patterns, walk, v, walk.len() - 1, list[i]));
        }
    }
}

/// An excluded path, a symbolic link and an entry that is no regular file
/// are in no list, wherever they stand in the walk and whatever was found
/// for them.
pub proof fn skipped_are_not_listed(
    root_a: Seq<char>,
    patterns: Seq<Seq<char>>,
    walk: Seq<Observed>,
    v: Verdict,
    path: Seq<char>,
)
    ensures
        (forall|j: int|
            0 <= j < walk.len() && #[trigger] walk[j].entry.path@ == path ==> !eligible(
                patterns,
                walk[j].entry,
            )) ==> !listed(root_a, patterns, walk, v).contains(path),
{
    let list = listed(root_a, patterns, walk, v);
    if list.contains(path) {
        let i = choose|i: int| 0 <= i < list.len() && list[i] == path;
        listed_were_compared(root_a, patterns, walk, v, i);
        let j = choose|j: int| recorded_at(root_a, patterns, walk, v, j, list[i]);
        assert(walk[j].entry.path@ == path);
    }
}

/// Where no entry fails the comparison, the three lists together hold the
/// path of every compared entry, each as often as the walk came upon it and
/// no more: no file is counted twice and none is lost. Without exclusion
/// patterns the compared entries are all regular files that are no symbolic
/// links.
pub proof fn compared_are_listed_once(
    root_a: Seq<char>,
    patterns: Seq<Seq<char>>,
    walk: Seq<Observed>,
)
    ensures
        first_fault(root_a, patterns, walk) is None ==> all_listed(
            tally_of(root_a, patterns, walk),
        ) == files(patterns, walk).to_multiset(),
    decreases walk.len(),
{
    broadcast use to_multiset_build;
    broadcast use group_multiset_axioms;

    if first_fault(root_a, patterns, walk) is None {
        if walk.len() == 0 {
            let none = Seq::<Seq<char>>::empty();
            to_multiset_len(none);
            lemma_multiset_empty_len(none.to_multiset());
            assert(all_listed(tally_of(root_a, patterns, walk)) =~= files(
                patterns,
                walk,
            ).to_multiset());
        } else {
            let before = walk.drop_last();
            compared_are_listed_once(root_a, patterns, before);
            assert(all_listed(tally_of(root_a, patterns, walk)) =~= files(
                patterns,
                walk,
            ).to_multiset());
        }
    }
}

/// Where the second tree holds a file at no mirror path and no entry fails
/// the comparison, every compared entry is new: nothing is changed, nothing
/// unchanged, and the new files are the compared ones in the walk's order.
pub proof fn unmirrored_are_new(root_a: Seq<char>, patterns: Seq<Seq<char>>, walk: Seq<Observed>)
    requires
        forall|j: int| 0 <= j < walk.len() ==> (#[trigger] walk[j]).finding is Missing,
    ensures
        first_fault(root_a, patterns, walk) is None ==> {
            &&& listed(root_a, patterns, walk, Verdict::New) == files(patterns, walk)
            &&& listed(root_a, patterns, walk, Verdict::Changed) == Seq::<Seq<char>>::empty()
            &&& listed(root_a, patterns, walk, Verdict::Unchanged) == Seq::<Seq<char>>::empty()
        },
    decreases walk.len(),
{
    if first_fault(root_a, patterns, walk) is None && walk.len() > 0 {
        let before = walk.drop_last();
        assert forall|j: int| 0 <= j < before.len() implies (#[trigger] before[j]).finding
            is Missing by {
            assert(before[j] == walk[j]);
        }
        unmirrored_are_new(root_a, patterns, before);
        assert(walk.last() == walk[walk.len() - 1]);
    }
}

/// Two files with the same bytes give the verdict unchanged, whatever their
/// names.
pub proof fn equal_content_is_unchanged(ours: Vec<u8>, theirs: Vec<u8>)
    ensures
        ours@ == theirs@ ==> (Finding::Present { ours, theirs }).verdict() == Some(
            Verdict::Unchanged,
        ),
{
}

/// Two files are judged changed exactly when their fingerprints differ, and
/// then their bytes differ. Files whose bytes differ and whose fingerprints
/// agree are judged unchanged.
pub proof fn changed_content_differs(ours: Vec<u8>, theirs: Vec<u8>)
    ensures
        (Finding::Present { ours, theirs }).verdict() == Some(Verdict::Changed) <==> !alike(
            ours@,
            theirs@,
        ),
        (Finding::Present { ours, theirs }).verdict() == Some(Verdict::Changed) ==> ours@
            != theirs@,
{
}

/// Two findings tell the same: both found nothing, both read the same
/// bytes on either side, or both failed.
pub open spec fn same_finding(first: Finding, second: Finding) -> bool {
    match (first, second) {
        (Finding::Missing, Finding::Missing) => true,
        (
            Finding::Present { ours: a, theirs: b },
            Finding::Present { ours: c, theirs: d },
        ) => a@ == c@ && b@ == d@,
        (Finding::Failed(_), Finding::Failed(_)) => true,
        _ => false,
    }
}

/// Two walks saw the same: they are of one length, and at each place the
/// entries have the same path text and the same flags, and the findings tell
/// the same.
pub open spec fn same_walk(first: Seq<Observed>, second: Seq<Observed>) -> bool {
    &&& first.len() == second.len()
    &&& forall|j: int|
        0 <= j < first.len() ==> {
            &&& (#[trigger] first[j]).entry.path@ == second[j].entry.path@
            &&& first[j].entry.is_file == second[j].entry.is_file
            &&& first[j].entry.is_symlink == second[j].entry.is_symlink
            &&& same_finding(first[j].finding, second[j].finding)
        }
}

/// Walks that saw the same fill each list alike and fail alike.
proof fn same_walk_same_parts(
    root_a: Seq<char>,
    patterns: Seq<Seq<char>>,
    first: Seq<Observed>,
    second: Seq<Observed>,
    v: Verdict,
)
    requires
        same_walk(first, second),
    ensures
        listed(root_a, patterns, first, v) == listed(root_a, patterns, second, v),
        first_fault(root_a, patterns, first) == first_fault(root_a, patterns, second),
    decreases first.len(),
{
    if first.len() > 0 {
        let a = first.drop_last();
        let b = second.drop_last();
        assert forall|j: int| 0 <= j < a.len() implies {
            &&& (#[trigger] a[j]).entry.path@ == b[j].entry.path@
            &&& a[j].entry.is_file == b[j].entry.is_file
            &&& a[j].entry.is_symlink == b[j].entry.is_symlink
            &&& same_finding(a[j].finding, b[j].finding)
        } by {
            assert(a[j] == first[j]);
            assert(b[j] == second[j]);
        }
        same_walk_same_parts(root_a, patterns, a, b, v);
        let last = first.len() - 1;
        assert(first.last() == first[last]);
        assert(second.last() == second[last]);
    }
}

/// A comparison that is run again on trees that did not change gives the
/// same result: walks that saw the same fill the same lists in the same
/// order, or fail for the same cause.
pub proof fn comparison_repeats(
    root_a: Seq<char>,
    patterns: Seq<Seq<char>>,
    first: Seq<Observed>,
    second: Seq<Observed>,
)
    requires
        same_walk(first, second),
    ensures
        comparison(root_a, patterns, first) == comparison(root_a, patterns, second),
{
    same_walk_same_parts(root_a, patterns, first, second, Verdict::Changed);
    same_walk_same_parts(root_a, patterns, first, second, Verdict::New);
    same_walk_same_parts(root_a, patterns, first, second, Verdict::Unchanged);
}

} // verus!
