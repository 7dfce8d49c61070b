//! The classifier: which walked entries are compared, where their mirrors
//! lie, and what each finding means for the result.

use vstd::prelude::*;
use crate::error::{CompareError, Fault};
use crate::exclusion::{compiles, excluded_by, ExclusionFilter};
use crate::fingerprint::{fingerprint, fx_hash};
use crate::paths::{mirror_of, mirror_path, stripped};

verus! {

/// An entry that the walk of the first tree came upon.
#[derive(Debug)]
pub struct FileEntry {
    /// The entry's full path, root included.
    pub path: String,
    /// Whether the entry is a regular file.
    pub is_file: bool,
    /// Whether the entry itself is a symbolic link.
    pub is_symlink: bool,
}

/// What the walk of the first tree yields at one step.
#[derive(Debug)]
pub enum Walked {
    /// An entry.
    Entry(FileEntry),
    /// Something that could not be read: the walk goes on without it.
    Unreadable,
}

/// What was found for an entry at its mirror path.
#[derive(Debug)]
pub enum Finding {
    /// No file is there.
    Missing,
    /// A file is there; both contents were read in full.
    Present { ours: Vec<u8>, theirs: Vec<u8> },
    /// A file is there, but one of the two could not be read.
    Failed(std::io::Error),
}

/// A walked entry together with what was found at its mirror path. The
/// finding of an entry that is not compared counts for nothing.
#[derive(Debug)]
pub struct Observed {
    pub entry: FileEntry,
    pub finding: Finding,
}

/// How a compared file stands relative to the second tree.
#[derive(Clone, Copy, Debug, PartialEq, Eq, Structural)]
pub enum Verdict {
    New,
    Changed,
    Unchanged,
}

/// A file to look up: its path in the first tree, and its mirror path.
#[derive(Debug)]
pub struct Probe {
    pub path: String,
    pub mirror: String,
}

/// What to do with a walked entry.
#[derive(Debug)]
pub enum Action {
    /// Leave it out.
    Skip,
    /// Look at the mirror path, and record what is found.
    Probe(Probe),
}

/// What a walked entry comes to.
pub enum Outcome {
    Skipped,
    Recorded(Verdict),
    Aborted(Fault),
}

/// The three result lists as sequences of path texts.
pub struct Tally {
    pub changed: Seq<Seq<char>>,
    pub added: Seq<Seq<char>>,
    pub unchanged: Seq<Seq<char>>,
}

/// The result of a comparison: the paths of the first tree's files, each in
/// the list of its verdict, in the order in which the walk came upon them.
#[derive(Debug)]
pub struct FolderCompare {
    pub changed_files: Vec<String>,
    pub new_files: Vec<String>,
    pub unchanged_files: Vec<String>,
}

/// A comparison under way.
#[derive(Debug)]
pub struct Comparison {
    root_a: String,
    root_b: String,
    excluded: ExclusionFilter,
    found: FolderCompare,
}

/// An entry is compared when it is a regular file, no symbolic link, and no
/// pattern excludes its path.
pub open spec fn eligible(patterns: Seq<Seq<char>>, entry: FileEntry) -> bool {
    entry.candidate() && !excluded_by(patterns, entry.path@)
}

/// What one walked entry comes to, given what was found at its mirror path.
pub open spec fn outcome(
    root_a: Seq<char>,
    patterns: Seq<Seq<char>>,
    entry: FileEntry,
    finding: Finding,
) -> Outcome {
    if !eligible(patterns, entry) {
        Outcome::Skipped
    } else if stripped(entry.path@, root_a) is None {
        Outcome::Aborted(Fault::PathMapping)
    } else {
        match finding.verdict() {
            Some(v) => Outcome::Recorded(v),
            None => Outcome::Aborted(Fault::Io),
        }
    }
}

/// The paths of the entries of `walk` that are recorded with verdict `v`, in
/// the walk's order.
pub open spec fn listed(
    root_a: Seq<char>,
    patterns: Seq<Seq<char>>,
    walk: Seq<Observed>,
    v: Verdict,
) -> Seq<Seq<char>>
    decreases walk.len(),
{
    if walk.len() == 0 {
        Seq::empty()
    } else {
        let before = listed(root_a, patterns, walk.drop_last(), v);
        let last = walk.last();
        if outcome(root_a, patterns, last.entry, last.finding) == Outcome::Recorded(v) {
            before.push(last.entry.path@)
        } else {
            before
        }
    }
}

/// The paths of the entries of `walk` that are compared, in the walk's order.
pub open spec fn files(patterns: Seq<Seq<char>>, walk: Seq<Observed>) -> Seq<Seq<char>>
    decreases walk.len(),
{
    if walk.len() == 0 {
        Seq::empty()
    } else {
        let before = files(patterns, walk.drop_last());
        if eligible(patterns, walk.last().entry) {
            before.push(walk.last().entry.path@)
        } else {
            before
        }
    }
}

/// The failure of the first entry of `walk` that aborts the comparison, if
/// one does.
pub open spec fn first_fault(
    root_a: Seq<char>,
    patterns: Seq<Seq<char>>,
    walk: Seq<Observed>,
) -> Option<Fault>
    decreases walk.len(),
{
    if walk.len() == 0 {
        None
    } else {
        match first_fault(root_a, patterns, walk.drop_last()) {
            Some(f) => Some(f),
            None => match outcome(root_a, patterns, walk.last().entry, walk.last().finding) {
                Outcome::Aborted(f) => Some(f),
                _ => None,
            },
        }
    }
}

/// The error of the read that fails the comparison, where it is a read that
/// fails it: the error that was found for the first entry that aborts.
pub open spec fn failed_read(
    root_a: Seq<char>,
    patterns: Seq<Seq<char>>,
    walk: Seq<Observed>,
) -> Option<std::io::Error>
    decreases walk.len(),
{
    if walk.len() == 0 {
        None
    } else if first_fault(root_a, patterns, walk.drop_last()) is Some {
        failed_read(root_a, patterns, walk.drop_last())
    } else {
        match walk.last().finding {
            Finding::Failed(e) => if outcome(root_a, patterns, walk.last().entry, walk.last().finding)
                == Outcome::Aborted(Fault::Io) {
                Some(e)
            } else {
                None
            },
            _ => None,
        }
    }
}

/// The three lists that `walk` fills.
pub open spec fn tally_of(root_a: Seq<char>, patterns: Seq<Seq<char>>, walk: Seq<Observed>) -> Tally {
    Tally {
        changed: listed(root_a, patterns, walk, Verdict::Changed),
        added: listed(root_a, patterns, walk, Verdict::New),
        unchanged: listed(root_a, patterns, walk, Verdict::Unchanged),
    }
}

/// The whole comparison. Patterns that do not compile fail it before any
/// entry is looked at; otherwise the first entry that aborts fails it; and
/// otherwise every compared entry stands in the list of its verdict.
pub open spec fn comparison(
    root_a: Seq<char>,
    patterns: Seq<Seq<char>>,
    walk: Seq<Observed>,
) -> Result<Tally, Fault> {
    if !compiles(patterns) {
        Err(Fault::Pattern)
    } else {
        match first_fault(root_a, patterns, walk) {
            Some(f) => Err(f),
            None => Ok(tally_of(root_a, patterns, walk)),
        }
    }
}

impl FileEntry {
    /// An entry is a candidate when it is a regular file and no symbolic
    /// link.
    pub open spec fn candidate(&self) -> bool {
        self.is_file && !self.is_symlink
    }

    /// Whether the entry is a candidate for comparison.
    pub fn is_candidate(&self) -> (r: bool)
        ensures
            r == self.candidate(),
    {
        if !self.is_file {
            return false;
        }
        !self.is_symlink
    }
}

impl Verdict {
    /// The verdict on a file whose mirror exists, given the fingerprints of
    /// the two contents: unchanged where they are equal, changed where not.
    pub open spec fn of_fingerprints(ours: u64, theirs: u64) -> Verdict {
        if ours == theirs {
            Verdict::Unchanged
        } else {
            Verdict::Changed
        }
    }

    /// Judges a file whose mirror exists by the two fingerprints.
    pub fn from_fingerprints(ours: u64, theirs: u64) -> (v: Verdict)
        ensures
            v == Verdict::of_fingerprints(ours, theirs),
    {
        if ours == theirs {
            Verdict::Unchanged
        } else {
            Verdict::Changed
        }
    }
}

impl Finding {
    /// The verdict that a finding gives: new where no mirror exists, and
    /// otherwise that of the fingerprints of the two contents. A failed read
    /// gives none.
    pub open spec fn verdict(&self) -> Option<Verdict> {
        match *self {
            Finding::Missing => Some(Verdict::New),
            Finding::Present { ours, theirs } => Some(
                Verdict::of_fingerprints(fx_hash(ours@), fx_hash(theirs@)),
            ),
            Finding::Failed(_) => None,
        }
    }

    /// Judges a finding.
    pub fn judge(&self) -> (v: Option<Verdict>)
        ensures
            v == self.verdict(),
    {
        match self {
            Finding::Missing => Some(Verdict::New),
            Finding::Present { ours, theirs } => {
                let first = fingerprint(ours.as_slice());
                let second = fingerprint(theirs.as_slice());
                Some(Verdict::from_fingerprints(first, second))
            },
            Finding::Failed(_) => None,
        }
    }
}

impl Tally {
    /// Three empty lists.
    pub open spec fn empty() -> Tally {
        Tally { changed: Seq::empty(), added: Seq::empty(), unchanged: Seq::empty() }
    }

    /// The lists after `path` was recorded with verdict `v`: it is appended
    /// to the list of `v`, and the other two stay.
    pub open spec fn with(self, path: Seq<char>, v: Verdict) -> Tally {
        match v {
            Verdict::Changed => Tally { changed: self.changed.push(path), ..self },
            Verdict::New => Tally { added: self.added.push(path), ..self },
            Verdict::Unchanged => Tally { unchanged: self.unchanged.push(path), ..self },
        }
    }
}

/// Appends `path` to `list`.
fn append(list: &mut Vec<String>, path: String)
    ensures
        final(list).deep_view() == old(list).deep_view().push(path@),
{
    list.push(path);
    assert(list.deep_view() =~= old(list).deep_view().push(path@));
}

/// The items of `items` in the opposite order.
fn reversed<T>(items: Vec<T>) -> (r: Vec<T>)
    ensures
        r.len() == items.len(),
        forall|j: int| 0 <= j < r.len() ==> r@[j] == items@[items.len() - 1 - j],
{
    let mut items = items;
    let ghost all = items@;
    let mut r: Vec<T> = Vec::new();
    while items.len() > 0
        invariant
            items.len() + r.len() == all.len(),
            forall|j: int| 0 <= j < items.len() ==> items@[j] == all[j],
            forall|j: int| 0 <= j < r.len() ==> r@[j] == all[all.len() - 1 - j],
        decreases items.len(),
    {
        match items.pop() {
            Some(item) => r.push(item),
            None => {},
        }
    }
    r
}

impl FolderCompare {
    /// The three lists as path texts.
    pub open spec fn tally(&self) -> Tally {
        Tally {
            changed: self.changed_files.deep_view(),
            added: self.new_files.deep_view(),
            unchanged: self.unchanged_files.deep_view(),
        }
    }

    /// Compares a recorded walk: `walk` holds the entries of the tree under
    /// `path1` in the order of the walk, each with what was found at its
    /// mirror path under `path2`. The result is that of `comparison`; where
    /// a read fails it, the error is the one that was found.
    pub fn new(path1: &str, path2: &str, excluded: &Vec<String>, walk: Vec<Observed>) -> (r: Result<
        FolderCompare,
        CompareError,
    >)
        ensures
            match r {
                Ok(found) => comparison(path1@, excluded.deep_view(), walk@) == Ok::<Tally, Fault>(
                    found.tally(),
                ),
                Err(e) => comparison(path1@, excluded.deep_view(), walk@) == Err::<Tally, Fault>(
                    e.cause(),
                ),
            },
            r matches Err(CompareError::Io(e)) ==> failed_read(
                path1@,
                excluded.deep_view(),
                walk@,
            ) == Some(e),
    {
        let mut session = match Comparison::start(path1, path2, excluded) {
            Ok(session) => session,
            Err(e) => {
                return Err(e);
            },
        };
        let ghost all = walk@;
        let ghost patterns = excluded.deep_view();
        let mut rest = reversed(walk);
        let ghost mut done: int = 0;
        proof {
            assert(all.take(0) =~= Seq::<Observed>::empty());
        }
        while rest.len() > 0
            invariant
                all == walk@,
                patterns == excluded.deep_view(),
                0 <= done <= all.len(),
                rest.len() == all.len() - done,
                forall|j: int| 0 <= j < rest.len() ==> rest@[j] == all[all.len() - 1 - j],
                session.root_a() == path1@,
                session.root_b() == path2@,
                session.patterns() == patterns,
                compiles(patterns),
                first_fault(path1@, patterns, all.take(done)) is None,
                session.tally() == tally_of(path1@, patterns, all.take(done)),
            decreases rest.len(),
        {
            let ghost prefix = all.take(done + 1);
            proof {
                assert(prefix.drop_last() =~= all.take(done));
                assert(prefix.last() == all[done]);
            }
            match rest.pop() {
                Some(observed) => {
                    assert(observed == all[done]);
                    let Observed { entry, finding } = observed;
                    match session.examine(&Walked::Entry(entry)) {
                        Err(e) => {
                            proof {
                                assert(first_fault(path1@, patterns, prefix) == Some(
                                    Fault::PathMapping,
                                ));
                                fault_stays(path1@, patterns, all, done + 1);
                            }
                            return Err(e);
                        },
                        Ok(Action::Skip) => {},
                        Ok(Action::Probe(probe)) => {
                            match session.record(probe, finding) {
                                Err(e) => {
                                    proof {
                                        assert(first_fault(path1@, patterns, prefix) == Some(
                                            Fault::Io,
                                        ));
                                        assert(e is Io);
                                        assert(failed_read(path1@, patterns, prefix) == Some(
                                            e->Io_0,
                                        ));
                                        fault_stays(path1@, patterns, all, done + 1);
                                    }
                                    return Err(e);
                                },
                                Ok(()) => {},
                            }
                        },
                    }
                },
                None => {},
            }
            proof {
                done = done + 1;
            }
        }
        proof {
            assert(all.take(done) =~= all);
        }
        Ok(session.finish())
    }
}

impl Comparison {
    /// The first root.
    pub closed spec fn root_a(&self) -> Seq<char> {
        self.root_a@
    }

    /// The second root.
    pub closed spec fn root_b(&self) -> Seq<char> {
        self.root_b@
    }

    /// The exclusion patterns.
    pub closed spec fn patterns(&self) -> Seq<Seq<char>> {
        self.excluded.patterns()
    }

    /// The lists as they stand.
    pub closed spec fn tally(&self) -> Tally {
        self.found.tally()
    }

    /// Begins a comparison of the tree under `path1` with the tree under
    /// `path2`. Fails, before anything is walked, exactly when the patterns
    /// do not compile.
    pub fn start(path1: &str, path2: &str, excluded: &Vec<String>) -> (r: Result<Comparison, CompareError>)
        ensures
            match r {
                Ok(session) => {
                    &&& compiles(excluded.deep_view())
                    &&& session.root_a() == path1@
                    &&& session.root_b() == path2@
                    &&& session.patterns() == excluded.deep_view()
                    &&& session.tally() == Tally::empty()
                },
                Err(e) => !compiles(excluded.deep_view()) && e is Regex,
            },
    {
        let found = FolderCompare {
            changed_files: Vec::new(),
            new_files: Vec::new(),
            unchanged_files: Vec::new(),
        };
        match ExclusionFilter::new(excluded) {
            Ok(filter) => {
                proof {
                    assert(found.tally().changed =~= Seq::empty());
                    assert(found.tally().added =~= Seq::empty());
                    assert(found.tally().unchanged =~= Seq::empty());
                }
                Ok(
                    Comparison {
                        root_a: path1.to_owned(),
                        root_b: path2.to_owned(),
                        excluded: filter,
                        found,
                    },
                )
            },
            Err(e) => Err(e),
        }
    }

    /// Decides what to do with what the walk yields. What could not be read
    /// is skipped, and so is an entry unless it is a regular file, no
    /// symbolic link and not excluded; otherwise its mirror path is to be
    /// looked at. An entry that is to be compared and does not lie under the
    /// first root fails the comparison.
    pub fn examine(&self, walked: &Walked) -> (r: Result<Action, CompareError>)
        ensures
            match *walked {
                Walked::Unreadable => r matches Ok(Action::Skip),
                Walked::Entry(entry) => match r {
                    Ok(Action::Skip) => !eligible(self.patterns(), entry),
                    Ok(Action::Probe(probe)) => {
                        &&& eligible(self.patterns(), entry)
                        &&& probe.path@ == entry.path@
                        &&& mirror_of(entry.path@, self.root_a(), self.root_b()) == Some(
                            probe.mirror@,
                        )
                    },
                    Err(e) => {
                        &&& eligible(self.patterns(), entry)
                        &&& stripped(entry.path@, self.root_a()) is None
                        &&& e is StripPrefix
                    },
                },
            },
    {
        let entry = match walked {
            Walked::Entry(entry) => entry,
            Walked::Unreadable => {
                return Ok(Action::Skip);
            },
        };
        if !entry.is_candidate() {
            return Ok(Action::Skip);
        }
        if self.excluded.excludes(entry.path.as_str()) {
            return Ok(Action::Skip);
        }
        match mirror_path(entry.path.as_str(), self.root_a.as_str(), self.root_b.as_str()) {
            Ok(mirror) => Ok(Action::Probe(Probe { path: entry.path.clone(), mirror })),
            Err(e) => Err(e),
        }
    }

    /// Records what was found for a probed file. A failed read fails the
    /// comparison with that very error and records nothing; any other
    /// finding appends the file's path to the list of its verdict.
    pub fn record(&mut self, probe: Probe, finding: Finding) -> (r: Result<(), CompareError>)
        ensures
            final(self).root_a() == old(self).root_a(),
            final(self).root_b() == old(self).root_b(),
            final(self).patterns() == old(self).patterns(),
            match finding {
                Finding::Failed(e) => r == Err::<(), CompareError>(CompareError::Io(e)) && final(self).tally() == old(
                    self,
                ).tally(),
                _ => r is Ok && finding.verdict() is Some && final(self).tally() == old(
                    self,
                ).tally().with(probe.path@, finding.verdict().unwrap()),
            },
    {
        match finding.judge() {
            Some(Verdict::New) => append(&mut self.found.new_files, probe.path),
            Some(Verdict::Changed) => append(&mut self.found.changed_files, probe.path),
            Some(Verdict::Unchanged) => append(&mut self.found.unchanged_files, probe.path),
            None => {},
        }
        match finding {
            Finding::Failed(e) => Err(CompareError::from(e)),
            _ => Ok(()),
        }
    }

    /// Ends the comparison and hands out the lists.
    pub fn finish(self) -> (found: FolderCompare)
        ensures
            found.tally() == self.tally(),
    {
        self.found
    }
}

/// A failure among the first `k` entries of a walk is the failure of the
/// whole walk, with the same error where a read failed.
pub proof fn fault_stays(root_a: Seq<char>, patterns: Seq<Seq<char>>, walk: Seq<Observed>, k: int)
    requires
        0 <= k <= walk.len(),
    ensures
        first_fault(root_a, patterns, walk.take(k)) is Some ==> {
            &&& first_fault(root_a, patterns, walk) == first_fault(root_a, patterns, walk.take(k))
            &&& failed_read(root_a, patterns, walk) == failed_read(root_a, patterns, walk.take(k))
        },
    decreases walk.len() - k,
{
    if k == walk.len() {
        assert(walk.take(k) =~= walk);
    } else {
        assert(walk.take(k + 1).drop_last() =~= walk.take(k));
        fault_stays(root_a, patterns, walk, k + 1);
    }
}

} // verus!
