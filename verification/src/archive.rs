//! Which entries of the project folder go into the uploaded archive, and
//! under which relative path.  The folder is walked depth first: an
//! `ArchiveWalk` keeps the stack of directories being read, and the caller
//! feeds it, one at a time, the entries of the directory on top of the
//! stack and the end of each directory's listing; each step says what to do.

use vstd::prelude::*;
use crate::text::{copy_texts, same_text};

verus! {

/// Entry names left out of the archive at every depth: the build output
/// directory and the version-control directory.
pub open spec fn is_excluded(name: Seq<char>) -> bool {
    name == "target"@ || name == ".git"@
}

/// No component of a relative path is an excluded name.
pub open spec fn avoids_excluded(path: Seq<Seq<char>>) -> bool {
    forall|i: int| 0 <= i < path.len() ==> !is_excluded(#[trigger] path[i])
}

/// What to do after one step of the walk.
pub enum WalkAction {
    /// Leave the entry, and all below it, out of the archive.
    Skip,
    /// Add the directory under this relative path, then read it.
    AddDirectory(Vec<String>),
    /// Add the file under this relative path.
    AddFile(Vec<String>),
    /// The directory on top of the stack has been read to its end.
    LeaveDirectory,
}

/// A walk step's action as plain values.
pub enum WalkActionView {
    Skip,
    AddDirectory(Seq<Seq<char>>),
    AddFile(Seq<Seq<char>>),
    LeaveDirectory,
}

impl View for WalkAction {
    type V = WalkActionView;

    open spec fn view(&self) -> WalkActionView {
        match self {
            WalkAction::Skip => WalkActionView::Skip,
            WalkAction::AddDirectory(p) => WalkActionView::AddDirectory(p.deep_view()),
            WalkAction::AddFile(p) => WalkActionView::AddFile(p.deep_view()),
            WalkAction::LeaveDirectory => WalkActionView::LeaveDirectory,
        }
    }
}

/// What the caller read from the directory on top of the stack.
pub enum WalkEvent {
    /// The next entry: its name and whether it is a directory.
    Entry { name: String, is_dir: bool },
    /// The directory has no more entries.
    EndOfDirectory,
}

/// A walk event as plain values.
pub enum WalkEventView {
    Entry { name: Seq<char>, is_dir: bool },
    EndOfDirectory,
}

impl View for WalkEvent {
    type V = WalkEventView;

    open spec fn view(&self) -> WalkEventView {
        match self {
            WalkEvent::Entry { name, is_dir } => WalkEventView::Entry { name: name@, is_dir: *is_dir },
            WalkEvent::EndOfDirectory => WalkEventView::EndOfDirectory,
        }
    }
}

/// The decision for the entry `name` of the directory at relative path
/// `dir` (empty for the project folder itself).
pub open spec fn entry_action_of(dir: Seq<Seq<char>>, name: Seq<char>, is_dir: bool) -> WalkActionView {
    if is_excluded(name) {
        WalkActionView::Skip
    } else if is_dir {
        WalkActionView::AddDirectory(dir.push(name))
    } else {
        WalkActionView::AddFile(dir.push(name))
    }
}

/// One step of the walk on the stack of relative directories being read
/// (the last is read now): the stack afterwards and the action.  An added
/// directory is read next; the end of a listing pops its directory.  A
/// finished walk, with an empty stack, ignores events.
pub open spec fn walk_step(stack: Seq<Seq<Seq<char>>>, e: WalkEventView) -> (
    Seq<Seq<Seq<char>>>,
    WalkActionView,
) {
    if stack.len() == 0 {
        (stack, WalkActionView::Skip)
    } else {
        match e {
            WalkEventView::Entry { name, is_dir } => {
                let a = entry_action_of(stack.last(), name, is_dir);
                match a {
                    WalkActionView::AddDirectory(p) => (stack.push(p), a),
                    _ => (stack, a),
                }
            },
            WalkEventView::EndOfDirectory => (stack.drop_last(), WalkActionView::LeaveDirectory),
        }
    }
}

/// The stack and the actions after a run of events.
pub open spec fn walk_run(stack: Seq<Seq<Seq<char>>>, es: Seq<WalkEventView>) -> (
    Seq<Seq<Seq<char>>>,
    Seq<WalkActionView>,
)
    decreases es.len(),
{
    if es.len() == 0 {
        (stack, seq![])
    } else {
        let (s1, a) = walk_step(stack, es[0]);
        let (s2, rest) = walk_run(s1, es.drop_first());
        (s2, seq![a] + rest)
    }
}

/// An entry of a project folder: a file, or a directory with its entries
/// in the order the directory lists them.
pub enum FsEntry {
    File(Seq<char>),
    Dir(Seq<char>, Seq<FsEntry>),
}

/// An entry's name.
pub open spec fn entry_name(e: FsEntry) -> Seq<char> {
    match e {
        FsEntry::File(n) => n,
        FsEntry::Dir(n, _) => n,
    }
}

/// The events a caller feeds while the walk reads a directory with these
/// entries: each entry, the listing of each added directory right after
/// it, and the end of the listing.
pub open spec fn listing_events(entries: Seq<FsEntry>) -> Seq<WalkEventView>
    decreases entries,
{
    if entries.len() == 0 {
        seq![WalkEventView::EndOfDirectory]
    } else {
        entry_events(entries[0]) + listing_events(entries.drop_first())
    }
}

/// The events a caller feeds for one entry.
pub open spec fn entry_events(e: FsEntry) -> Seq<WalkEventView>
    decreases e,
{
    match e {
        FsEntry::File(n) => seq![WalkEventView::Entry { name: n, is_dir: false }],
        FsEntry::Dir(n, children) => seq![WalkEventView::Entry { name: n, is_dir: true }] + (
        if is_excluded(n) {
            seq![]
        } else {
            listing_events(children)
        }),
    }
}

/// The actions of archiving, in pre-order, the directory at relative path
/// `dir` with these entries: excluded entries are skipped with all below
/// them, each other entry is added under `dir` followed by its name, a
/// directory's own entries follow the directory, and each directory ends
/// with leaving it.
pub open spec fn listing_actions(dir: Seq<Seq<char>>, entries: Seq<FsEntry>) -> Seq<WalkActionView>
    decreases entries,
{
    if entries.len() == 0 {
        seq![WalkActionView::LeaveDirectory]
    } else {
        entry_actions(dir, entries[0]) + listing_actions(dir, entries.drop_first())
    }
}

/// The pre-order archiving actions for one entry of the directory `dir`.
pub open spec fn entry_actions(dir: Seq<Seq<char>>, e: FsEntry) -> Seq<WalkActionView>
    decreases e,
{
    match e {
        FsEntry::File(n) => if is_excluded(n) {
            seq![WalkActionView::Skip]
        } else {
            seq![WalkActionView::AddFile(dir.push(n))]
        },
        FsEntry::Dir(n, children) => if is_excluded(n) {
            seq![WalkActionView::Skip]
        } else {
            seq![WalkActionView::AddDirectory(dir.push(n))] + listing_actions(dir.push(n), children)
        },
    }
}

/// The paths the actions add, in order.
pub open spec fn added_paths(acts: Seq<WalkActionView>) -> Seq<Seq<Seq<char>>>
    decreases acts.len(),
{
    if acts.len() == 0 {
        seq![]
    } else {
        let rest = added_paths(acts.drop_first());
        match acts[0] {
            WalkActionView::AddDirectory(p) => seq![p] + rest,
            WalkActionView::AddFile(p) => seq![p] + rest,
            _ => rest,
        }
    }
}

/// Names within each directory are distinct, as a file system keeps them.
pub open spec fn names_distinct(entries: Seq<FsEntry>) -> bool
    decreases entries,
{
    entries.len() > 0 ==> {
        &&& forall|j: int| 1 <= j < entries.len() ==> entry_name(#[trigger] entries[j]) != entry_name(entries[0])
        &&& entry_names_distinct(entries[0])
        &&& names_distinct(entries.drop_first())
    }
}

/// Names are distinct within each directory below an entry.
pub open spec fn entry_names_distinct(e: FsEntry) -> bool
    decreases e,
{
    match e {
        FsEntry::File(_) => true,
        FsEntry::Dir(_, children) => names_distinct(children),
    }
}

/// The names of entries, in order.
pub open spec fn names_of(entries: Seq<FsEntry>) -> Seq<Seq<char>> {
    entries.map_values(|e: FsEntry| entry_name(e))
}

/// `p` lies at or below the entry `name` of the directory `dir`.
pub open spec fn lies_under(p: Seq<Seq<char>>, dir: Seq<Seq<char>>, name: Seq<char>) -> bool {
    &&& p.len() > dir.len()
    &&& p.subrange(0, dir.len() as int) == dir
    &&& p[dir.len() as int] == name
}

/// A walk over a project folder.
pub struct ArchiveWalk {
    /// The relative paths of the directories being read; the last is read now.
    pub dirs: Vec<Vec<String>>,
}

impl View for ArchiveWalk {
    type V = Seq<Seq<Seq<char>>>;

    open spec fn view(&self) -> Seq<Seq<Seq<char>>> {
        self.dirs@.map_values(|d: Vec<String>| d.deep_view())
    }
}

/// Whether an entry name is left out of the archive.
pub fn is_excluded_name(name: &str) -> (r: bool)
    ensures
        r == is_excluded(name@),
        r == (name@ == "target"@ || name@ == ".git"@),
{
    same_text(name, "target") || same_text(name, ".git")
}

/// Decides what to do with the entry `name` of the directory at relative
/// path `dir`.
pub fn entry_action(dir: &Vec<String>, name: &str, is_dir: bool) -> (r: WalkAction)
    ensures
        r@ == entry_action_of(dir.deep_view(), name@, is_dir),
{
    if is_excluded_name(name) {
        return WalkAction::Skip;
    }
    let mut path = copy_texts(dir);
    path.push(name.to_owned());
    assert(path.deep_view() =~= dir.deep_view().push(name@));
    if is_dir {
        WalkAction::AddDirectory(path)
    } else {
        WalkAction::AddFile(path)
    }
}

impl ArchiveWalk {
    /// A walk that starts reading the project folder itself.
    pub fn new() -> (r: Self)
        ensures
            r@ == seq![Seq::<Seq<char>>::empty()],
    {
        let root: Vec<String> = Vec::new();
        assert(root.deep_view() =~= Seq::<Seq<char>>::empty());
        let mut dirs: Vec<Vec<String>> = Vec::new();
        dirs.push(root);
        let r = ArchiveWalk { dirs };
        assert(r@ =~= seq![Seq::<Seq<char>>::empty()]);
        r
    }

    /// Whether every directory has been read to its end.
    pub fn is_done(&self) -> (r: bool)
        ensures
            r == (self@.len() == 0),
    {
        self.dirs.len() == 0
    }

    /// Takes what was read from the directory on top of the stack.
    pub fn step(&mut self, e: WalkEvent) -> (a: WalkAction)
        ensures
            (final(self)@, a@) == walk_step(old(self)@, e@),
    {
        let n = self.dirs.len();
        if n == 0 {
            return WalkAction::Skip;
        }
        match e {
            WalkEvent::Entry { name, is_dir } => {
                let a = entry_action(&self.dirs[n - 1], name.as_str(), is_dir);
                match a {
                    WalkAction::AddDirectory(p) => {
                        let copy = copy_texts(&p);
                        self.dirs.push(copy);
                        assert(self@ =~= old(self)@.push(p.deep_view()));
                        WalkAction::AddDirectory(p)
                    },
                    _ => a,
                }
            },
            WalkEvent::EndOfDirectory => {
                self.dirs.pop();
                assert(self@ =~= old(self)@.drop_last());
                WalkAction::LeaveDirectory
            },
        }
    }
}

/// Walking from the project folder, every path added to the archive is
/// one component below the directory it was found in and has no excluded
/// component, so nothing at or below an excluded entry is ever added.
pub proof fn lemma_added_paths_avoid_excluded(dir: Seq<Seq<char>>, name: Seq<char>, is_dir: bool)
    requires
        avoids_excluded(dir),
    ensures
        match entry_action_of(dir, name, is_dir) {
            WalkActionView::AddDirectory(p) => p == dir.push(name) && avoids_excluded(p),
            WalkActionView::AddFile(p) => p == dir.push(name) && avoids_excluded(p),
            _ => is_excluded(name),
        },
{
    if !is_excluded(name) {
        let p = dir.push(name);
        assert forall|i: int| 0 <= i < p.len() implies !is_excluded(#[trigger] p[i]) by {
            if i < dir.len() {
                assert(p[i] == dir[i]);
            }
        }
    }
}


/// Running two runs of events one after the other is running their
/// concatenation.
pub proof fn lemma_walk_run_append(stack: Seq<Seq<Seq<char>>>, a: Seq<WalkEventView>, b: Seq<WalkEventView>)
    ensures
        ({
            let (s1, x) = walk_run(stack, a);
            let (s2, y) = walk_run(s1, b);
            walk_run(stack, a + b) == (s2, x + y)
        }),
    decreases a.len(),
{
    if a.len() == 0 {
        assert(a + b =~= b);
    } else {
        let (s1, act) = walk_step(stack, a[0]);
        lemma_walk_run_append(s1, a.drop_first(), b);
        assert((a + b).drop_first() =~= a.drop_first() + b);
        let (t1, x1) = walk_run(s1, a.drop_first());
        let (t2, y) = walk_run(t1, b);
        assert(seq![act] + (x1 + y) =~= (seq![act] + x1) + y);
    }
}

/// A run of one event is one step.
proof fn lemma_walk_run_single(stack: Seq<Seq<Seq<char>>>, e: WalkEventView)
    ensures
        walk_run(stack, seq![e]) == (walk_step(stack, e).0, seq![walk_step(stack, e).1]),
{
    let es = seq![e];
    assert(es.drop_first() =~= Seq::<WalkEventView>::empty());
    let (s1, a) = walk_step(stack, e);
    assert(walk_run(s1, es.drop_first()) == (s1, Seq::<WalkActionView>::empty()));
    assert(seq![a] + Seq::<WalkActionView>::empty() =~= seq![a]);
}

/// Reading a directory to its end, with the listing of each added
/// directory fed right after it, archives it in pre-order and returns the
/// walk to the directories below it on the stack.
pub proof fn lemma_listing_walk(stack: Seq<Seq<Seq<char>>>, dir: Seq<Seq<char>>, entries: Seq<FsEntry>)
    ensures
        walk_run(stack.push(dir), listing_events(entries)) == (stack, listing_actions(dir, entries)),
    decreases entries,
{
    if entries.len() == 0 {
        assert(stack.push(dir).drop_last() =~= stack);
        lemma_walk_run_single(stack.push(dir), WalkEventView::EndOfDirectory);
    } else {
        let e0 = entries[0];
        lemma_entry_walk(stack, dir, e0);
        lemma_listing_walk(stack, dir, entries.drop_first());
        lemma_walk_run_append(stack.push(dir), entry_events(e0), listing_events(entries.drop_first()));
    }
}

/// Feeding one entry, and the listing below it where it is an added
/// directory, gives that entry's pre-order actions and leaves the stack as
/// it was.
pub proof fn lemma_entry_walk(stack: Seq<Seq<Seq<char>>>, dir: Seq<Seq<char>>, e: FsEntry)
    ensures
        walk_run(stack.push(dir), entry_events(e)) == (stack.push(dir), entry_actions(dir, e)),
    decreases e,
{
    let s = stack.push(dir);
    match e {
        FsEntry::File(n) => {
            assert(s.last() == dir);
            lemma_walk_run_single(s, WalkEventView::Entry { name: n, is_dir: false });
        },
        FsEntry::Dir(n, children) => {
            let first = seq![WalkEventView::Entry { name: n, is_dir: true }];
            assert(s.last() == dir);
            if is_excluded(n) {
                assert(entry_events(e) =~= first);
                lemma_walk_run_single(s, WalkEventView::Entry { name: n, is_dir: true });
            } else {
                lemma_listing_walk(s, dir.push(n), children);
                lemma_walk_run_append(s, first, listing_events(children));
                lemma_walk_run_single(s, WalkEventView::Entry { name: n, is_dir: true });
            }
        },
    }
}

/// The whole walk: fed the project folder's listing from a new walk, the
/// steps archive the folder in pre-order and end with nothing left to read.
pub proof fn lemma_walk_archives_in_preorder(entries: Seq<FsEntry>)
    ensures
        walk_run(seq![Seq::<Seq<char>>::empty()], listing_events(entries)) == (
            Seq::<Seq<Seq<char>>>::empty(),
            listing_actions(Seq::<Seq<char>>::empty(), entries),
        ),
{
    let empty = Seq::<Seq<Seq<char>>>::empty();
    assert(empty.push(Seq::<Seq<char>>::empty()) =~= seq![Seq::<Seq<char>>::empty()]);
    lemma_listing_walk(empty, Seq::<Seq<char>>::empty(), entries);
}

/// The paths added by two runs of actions are those of the first, then
/// those of the second.
pub proof fn lemma_added_paths_append(a: Seq<WalkActionView>, b: Seq<WalkActionView>)
    ensures
        added_paths(a + b) == added_paths(a) + added_paths(b),
    decreases a.len(),
{
    if a.len() == 0 {
        assert(a + b =~= b);
    } else {
        lemma_added_paths_append(a.drop_first(), b);
        assert((a + b).drop_first() =~= a.drop_first() + b);
        assert((a + b)[0] == a[0]);
        let r = added_paths(a.drop_first());
        let rb = added_paths(b);
        match a[0] {
            WalkActionView::AddDirectory(p) => {
                assert(seq![p] + (r + rb) =~= (seq![p] + r) + rb);
            },
            WalkActionView::AddFile(p) => {
                assert(seq![p] + (r + rb) =~= (seq![p] + r) + rb);
            },
            _ => {},
        }
    }
}

/// The paths a single action adds.
proof fn lemma_added_paths_single(a: WalkActionView)
    ensures
        added_paths(seq![a]) == (match a {
            WalkActionView::AddDirectory(p) => seq![p],
            WalkActionView::AddFile(p) => seq![p],
            _ => Seq::<Seq<Seq<char>>>::empty(),
        }),
{
    let acts = seq![a];
    assert(acts.drop_first() =~= Seq::<WalkActionView>::empty());
    assert(added_paths(acts.drop_first()) == Seq::<Seq<Seq<char>>>::empty());
    match a {
        WalkActionView::AddDirectory(p) => {
            assert(seq![p] + Seq::<Seq<Seq<char>>>::empty() =~= seq![p]);
        },
        WalkActionView::AddFile(p) => {
            assert(seq![p] + Seq::<Seq<Seq<char>>>::empty() =~= seq![p]);
        },
        _ => {},
    }
}

/// Every path archived for an entry lies under it, avoids excluded names
/// where its directory does, and none is archived twice where names are
/// distinct in each directory.
pub proof fn lemma_entry_paths(dir: Seq<Seq<char>>, e: FsEntry)
    ensures
        ({
            let ps = added_paths(entry_actions(dir, e));
            &&& forall|i: int| 0 <= i < ps.len() ==> lies_under(#[trigger] ps[i], dir, entry_name(e))
            &&& avoids_excluded(dir) ==> forall|i: int| 0 <= i < ps.len() ==> avoids_excluded(#[trigger] ps[i])
            &&& entry_names_distinct(e) ==> ps.no_duplicates()
        }),
    decreases e,
{
    let ps = added_paths(entry_actions(dir, e));
    let n = entry_name(e);
    let p0 = dir.push(n);
    assert(p0.subrange(0, dir.len() as int) =~= dir);
    if !is_excluded(n) && avoids_excluded(dir) {
        lemma_added_paths_avoid_excluded(dir, n, false);
    }
    match e {
        FsEntry::File(_) => {
            if !is_excluded(n) {
                lemma_added_paths_single(WalkActionView::AddFile(p0));
            } else {
                lemma_added_paths_single(WalkActionView::Skip);
            }
        },
        FsEntry::Dir(_, children) => {
            if is_excluded(n) {
                lemma_added_paths_single(WalkActionView::Skip);
            } else {
                let first = seq![WalkActionView::AddDirectory(p0)];
                let rest = listing_actions(p0, children);
                lemma_added_paths_append(first, rest);
                lemma_added_paths_single(WalkActionView::AddDirectory(p0));
                lemma_listing_paths(p0, children);
                let qs = added_paths(rest);
                assert(ps =~= seq![p0] + qs);
                assert forall|i: int| 0 <= i < ps.len() implies lies_under(#[trigger] ps[i], dir, n) by {
                    if i > 0 {
                        let q = qs[i - 1];
                        assert(q.subrange(0, p0.len() as int) == p0);
                        assert(q.subrange(0, dir.len() as int) =~= q.subrange(0, p0.len() as int).subrange(
                            0,
                            dir.len() as int,
                        ));
                        assert(q[dir.len() as int] == q.subrange(0, p0.len() as int)[dir.len() as int]);
                    }
                }
                if avoids_excluded(dir) {
                    assert forall|i: int| 0 <= i < ps.len() implies avoids_excluded(#[trigger] ps[i]) by {
                        if i > 0 {
                            assert(ps[i] == qs[i - 1]);
                        }
                    }
                }
                if entry_names_distinct(e) {
                    assert forall|i: int, j: int| 0 <= i < ps.len() && 0 <= j < ps.len() && i != j
                        implies ps[i] != ps[j] by {
                        if i > 0 && j > 0 {
                            assert(ps[i] == qs[i - 1] && ps[j] == qs[j - 1]);
                        } else if i == 0 {
                            assert(ps[j] == qs[j - 1]);
                            assert(ps[j].len() > p0.len());
                        } else {
                            assert(ps[i] == qs[i - 1]);
                            assert(ps[i].len() > p0.len());
                        }
                    }
                }
            }
        },
    }
}

/// Every path archived for a directory's entries lies under one of them,
/// avoids excluded names where the directory does, and none is archived
/// twice where names are distinct in each directory.
pub proof fn lemma_listing_paths(dir: Seq<Seq<char>>, entries: Seq<FsEntry>)
    ensures
        ({
            let ps = added_paths(listing_actions(dir, entries));
            &&& forall|i: int| 0 <= i < ps.len() ==> {
                &&& (#[trigger] ps[i]).len() > dir.len()
                &&& ps[i].subrange(0, dir.len() as int) == dir
                &&& names_of(entries).contains(ps[i][dir.len() as int])
            }
            &&& avoids_excluded(dir) ==> forall|i: int| 0 <= i < ps.len() ==> avoids_excluded(#[trigger] ps[i])
            &&& names_distinct(entries) ==> ps.no_duplicates()
        }),
    decreases entries,
{
    let ps = added_paths(listing_actions(dir, entries));
    if entries.len() == 0 {
        lemma_added_paths_single(WalkActionView::LeaveDirectory);
    } else {
        let e0 = entries[0];
        let rest = entries.drop_first();
        lemma_entry_paths(dir, e0);
        lemma_listing_paths(dir, rest);
        lemma_added_paths_append(entry_actions(dir, e0), listing_actions(dir, rest));
        let p0s = added_paths(entry_actions(dir, e0));
        let rs = added_paths(listing_actions(dir, rest));
        assert(ps == p0s + rs);
        assert(names_of(entries)[0] == entry_name(e0));
        assert forall|i: int| 0 <= i < ps.len() implies {
            &&& (#[trigger] ps[i]).len() > dir.len()
            &&& ps[i].subrange(0, dir.len() as int) == dir
            &&& names_of(entries).contains(ps[i][dir.len() as int])
        } by {
            if i < p0s.len() {
                assert(ps[i] == p0s[i]);
                assert(lies_under(p0s[i], dir, entry_name(e0)));
            } else {
                assert(ps[i] == rs[i - p0s.len()]);
                let k = choose|k: int| 0 <= k < names_of(rest).len() && names_of(rest)[k] == rs[i - p0s.len()][dir.len() as int];
                assert(names_of(entries)[k + 1] == names_of(rest)[k]);
            }
        }
        if avoids_excluded(dir) {
            assert forall|i: int| 0 <= i < ps.len() implies avoids_excluded(#[trigger] ps[i]) by {
                if i < p0s.len() {
                    assert(ps[i] == p0s[i]);
                } else {
                    assert(ps[i] == rs[i - p0s.len()]);
                }
            }
        }
        if names_distinct(entries) {
            assert forall|i: int, j: int| 0 <= i < ps.len() && 0 <= j < ps.len() && i != j
                implies ps[i] != ps[j] by {
                if i < p0s.len() && j < p0s.len() {
                    assert(ps[i] == p0s[i] && ps[j] == p0s[j]);
                } else if i >= p0s.len() && j >= p0s.len() {
                    assert(ps[i] == rs[i - p0s.len()] && ps[j] == rs[j - p0s.len()]);
                } else {
                    let (a, b) = if i < p0s.len() { (i, j) } else { (j, i) };
                    assert(ps[a] == p0s[a]);
                    assert(lies_under(p0s[a], dir, entry_name(e0)));
                    assert(ps[b] == rs[b - p0s.len()]);
                    let r = rs[b - p0s.len()];
                    let k = choose|k: int| 0 <= k < names_of(rest).len() && names_of(rest)[k] == r[dir.len() as int];
                    assert(names_of(rest)[k] == entry_name(entries[k + 1]));
                    assert(entry_name(entries[k + 1]) != entry_name(entries[0]));
                }
            }
        }
    }
}

/// Archiving a project folder adds each path at most once, where names
/// are distinct in each directory, and never a path with an excluded
/// component.
pub proof fn lemma_archive_adds_each_path_once(entries: Seq<FsEntry>)
    ensures
        ({
            let ps = added_paths(listing_actions(Seq::<Seq<char>>::empty(), entries));
            &&& forall|i: int| 0 <= i < ps.len() ==> avoids_excluded(#[trigger] ps[i])
            &&& names_distinct(entries) ==> ps.no_duplicates()
        }),
{
    lemma_listing_paths(Seq::<Seq<char>>::empty(), entries);
}

/// Each entry of a directory whose name is not excluded is archived under
/// the directory's path followed by its name; for a directory, its own
/// entries are then archived in the same way below it.
pub proof fn lemma_listing_adds_each_entry(dir: Seq<Seq<char>>, entries: Seq<FsEntry>)
    ensures
        forall|j: int|
            0 <= j < entries.len() && !is_excluded(entry_name(#[trigger] entries[j])) ==> added_paths(
                listing_actions(dir, entries),
            ).contains(dir.push(entry_name(entries[j]))),
    decreases entries.len(),
{
    if entries.len() > 0 {
        let e0 = entries[0];
        let rest = entries.drop_first();
        lemma_listing_adds_each_entry(dir, rest);
        lemma_added_paths_append(entry_actions(dir, e0), listing_actions(dir, rest));
        let p0s = added_paths(entry_actions(dir, e0));
        let rs = added_paths(listing_actions(dir, rest));
        let n = entry_name(e0);
        if !is_excluded(n) {
            let p0 = dir.push(n);
            match e0 {
                FsEntry::File(_) => {
                    lemma_added_paths_single(WalkActionView::AddFile(p0));
                },
                FsEntry::Dir(_, children) => {
                    let first = seq![WalkActionView::AddDirectory(p0)];
                    lemma_added_paths_append(first, listing_actions(p0, children));
                    lemma_added_paths_single(WalkActionView::AddDirectory(p0));
                },
            }
            assert(p0s[0] == p0);
        }
        assert forall|j: int|
            0 <= j < entries.len() && !is_excluded(entry_name(#[trigger] entries[j])) implies added_paths(
                listing_actions(dir, entries),
            ).contains(dir.push(entry_name(entries[j]))) by {
            if j == 0 {
                assert((p0s + rs)[0] == p0s[0]);
            } else {
                assert(rest[j - 1] == entries[j]);
                let k = choose|k: int| 0 <= k < rs.len() && rs[k] == dir.push(entry_name(rest[j - 1]));
                assert((p0s + rs)[p0s.len() + k] == rs[k]);
            }
        }
    }
}

/// Exactly the entries named `target` or `.git` are left out; any other
/// name, such as `target.rs` or `targets`, is kept.
pub proof fn lemma_excluded_names_exactly(name: Seq<char>)
    ensures
        is_excluded(name) <==> (name == "target"@ || name == ".git"@),
{
}

/// An entry whose name is neither `target` nor `.git` is added under its
/// directory's path followed by its name, as a directory or as a file as
/// it is one; an entry with one of those names is skipped.
pub proof fn lemma_entry_action_cases(dir: Seq<Seq<char>>, name: Seq<char>, is_dir: bool)
    ensures
        (name == "target"@ || name == ".git"@) ==> entry_action_of(dir, name, is_dir) == WalkActionView::Skip,
        !(name == "target"@ || name == ".git"@) && is_dir ==> entry_action_of(dir, name, is_dir)
            == WalkActionView::AddDirectory(dir.push(name)),
        !(name == "target"@ || name == ".git"@) && !is_dir ==> entry_action_of(dir, name, is_dir)
            == WalkActionView::AddFile(dir.push(name)),
{
}

/// A walk step on the directory `d` on top of the stack: an entry named
/// neither `target` nor `.git` is added as `d` followed by its name, and a
/// directory so added goes on top of the stack; the end of a listing pops
/// `d` and leaves it.
pub proof fn lemma_walk_step_cases(
    below: Seq<Seq<Seq<char>>>,
    d: Seq<Seq<char>>,
    name: Seq<char>,
    is_dir: bool,
)
    ensures
        walk_step(below.push(d), WalkEventView::EndOfDirectory) == (below, WalkActionView::LeaveDirectory),
        (name == "target"@ || name == ".git"@) ==> walk_step(
            below.push(d),
            WalkEventView::Entry { name, is_dir },
        ) == (below.push(d), WalkActionView::Skip),
        !(name == "target"@ || name == ".git"@) && is_dir ==> walk_step(
            below.push(d),
            WalkEventView::Entry { name, is_dir },
        ) == (below.push(d).push(d.push(name)), WalkActionView::AddDirectory(d.push(name))),
        !(name == "target"@ || name == ".git"@) && !is_dir ==> walk_step(
            below.push(d),
            WalkEventView::Entry { name, is_dir },
        ) == (below.push(d), WalkActionView::AddFile(d.push(name))),
{
    assert(below.push(d).drop_last() =~= below);
    assert(below.push(d).last() == d);
}

} // verus!
