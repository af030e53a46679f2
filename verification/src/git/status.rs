//! The changed files of a status snapshot: their states from the status
//! flags, their line counts from the staged and working diffs, in path
//! order.  Reading the flags and the diffs is the caller's business.
use vstd::prelude::*;

use super::log::{staged_state, staged_state_from_status, working_state, working_state_from_status};
use super::types::{is_change, FileState, FileStatus};
use crate::text::{chars_of, str_eq};

verus! {

/// A file the status reports, with its status flags.
#[derive(Debug)]
pub struct StatusEntry {
    /// Path relative to the repository root
    pub path: String,
    /// Status flags
    pub bits: u32,
}

/// A line of a diff: the path of its file and its origin (`+` added, `-`
/// removed, anything else context).
#[derive(Debug)]
pub struct DiffLine {
    /// Path of the file the line belongs to
    pub path: String,
    /// Origin of the line
    pub origin: char,
}

/// The number of lines of `origin` in the file at `path`.
pub open spec fn count_lines(lines: Seq<DiffLine>, path: Seq<char>, origin: char) -> nat
    decreases lines.len(),
{
    if lines.len() == 0 {
        0
    } else {
        count_lines(lines.drop_last(), path, origin) + if lines.last().path@ == path
            && lines.last().origin == origin {
            1nat
        } else {
            0nat
        }
    }
}

/// A file of a status snapshot: path, working state, staged state, working
/// lines added and removed, staged lines added and removed.
pub type FileView = (Seq<char>, FileState, FileState, nat, nat, nat, nat);

/// The view of a file status.
pub open spec fn file_view(f: FileStatus) -> FileView {
    (
        f.path@,
        f.working,
        f.staged,
        f.working_insertions as nat,
        f.working_deletions as nat,
        f.staged_insertions as nat,
        f.staged_deletions as nat,
    )
}

/// The views of a list of file statuses.
pub open spec fn files_views(v: Seq<FileStatus>) -> Seq<FileView> {
    v.map_values(|f: FileStatus| file_view(f))
}

/// The file a status entry describes, with its line counts.
pub open spec fn entry_view(e: StatusEntry, staged: Seq<DiffLine>, working: Seq<DiffLine>) -> FileView {
    (
        e.path@,
        working_state(e.bits),
        staged_state(e.bits),
        count_lines(working, e.path@, '+'),
        count_lines(working, e.path@, '-'),
        count_lines(staged, e.path@, '+'),
        count_lines(staged, e.path@, '-'),
    )
}

/// The files of the entries that have a change, staged or not, in the order
/// of the entries.
pub open spec fn changed_entries(
    entries: Seq<StatusEntry>,
    staged: Seq<DiffLine>,
    working: Seq<DiffLine>,
) -> Seq<FileView>
    decreases entries.len(),
{
    if entries.len() == 0 {
        seq![]
    } else {
        let rest = changed_entries(entries.drop_last(), staged, working);
        let f = entry_view(entries.last(), staged, working);
        if is_change(f.1) || is_change(f.2) {
            rest.push(f)
        } else {
            rest
        }
    }
}

/// Whether path `a` comes strictly before path `b`.  Paths compare component
/// by component (the parts between `/`), each component in character order,
/// and a path whose components begin the other's comes first: so `a/b` comes
/// before `a.txt`, as `a` comes before `a.txt`.  Compared character by
/// character, that is the order in which `/` comes before every other
/// character.
pub open spec fn path_lt(a: Seq<char>, b: Seq<char>) -> bool
    decreases a.len(),
{
    if a.len() == 0 {
        b.len() > 0
    } else if b.len() == 0 {
        false
    } else if a[0] == b[0] {
        path_lt(a.drop_first(), b.drop_first())
    } else if a[0] == '/' {
        true
    } else if b[0] == '/' {
        false
    } else {
        a[0] < b[0]
    }
}

/// Path `a` comes before path `b`, or is `b`.
pub open spec fn path_le(a: Seq<char>, b: Seq<char>) -> bool {
    a == b || path_lt(a, b)
}

/// The files are in path order.
pub open spec fn path_sorted(v: Seq<FileView>) -> bool {
    forall|i: int, j: int| 0 <= i < j < v.len() ==> path_le(#[trigger] v[i].0, #[trigger] v[j].0)
}

/// No path comes before itself, and of two paths at most one comes before
/// the other.
pub proof fn lemma_path_lt_asymmetric(a: Seq<char>, b: Seq<char>)
    ensures
        !(path_lt(a, b) && path_lt(b, a)),
        !path_lt(a, a),
    decreases a.len(),
{
    if a.len() > 0 && b.len() > 0 && a[0] == b[0] {
        lemma_path_lt_asymmetric(a.drop_first(), b.drop_first());
    }
    if a.len() > 0 {
        lemma_path_lt_asymmetric(a.drop_first(), a.drop_first());
    }
}

/// Path order is transitive.
pub proof fn lemma_path_lt_transitive(a: Seq<char>, b: Seq<char>, c: Seq<char>)
    requires
        path_lt(a, b),
        path_lt(b, c),
    ensures
        path_lt(a, c),
    decreases a.len(),
{
    if a.len() > 0 && b.len() > 0 && c.len() > 0 && a[0] == b[0] && b[0] == c[0] {
        lemma_path_lt_transitive(a.drop_first(), b.drop_first(), c.drop_first());
    }
}

/// Of two different paths one comes before the other.
pub proof fn lemma_path_lt_total(a: Seq<char>, b: Seq<char>)
    ensures
        a == b || path_lt(a, b) || path_lt(b, a),
    decreases a.len(),
{
    if a.len() == 0 && b.len() == 0 {
        assert(a =~= b);
    } else if a.len() > 0 && b.len() > 0 && a[0] == b[0] {
        lemma_path_lt_total(a.drop_first(), b.drop_first());
        if a.drop_first() == b.drop_first() {
            assert(a =~= seq![a[0]] + a.drop_first());
            assert(b =~= seq![b[0]] + b.drop_first());
        }
    }
}

/// Whether path `a` comes strictly before path `b`.
pub fn path_chars_lt(a: &Vec<char>, b: &Vec<char>) -> (res: bool)
    ensures
        res == path_lt(a@, b@),
{
    let mut i: usize = 0;
    assert(a@.skip(0) =~= a@);
    assert(b@.skip(0) =~= b@);
    while i < a.len() && i < b.len()
        invariant
            i <= a@.len(),
            i <= b@.len(),
            a@.take(i as int) == b@.take(i as int),
            path_lt(a@, b@) == path_lt(a@.skip(i as int), b@.skip(i as int)),
        decreases a@.len() - i,
    {
        let ca = a[i];
        let cb = b[i];
        assert(a@.skip(i as int)[0] == ca);
        assert(b@.skip(i as int)[0] == cb);
        if ca != cb {
            return if ca == '/' {
                true
            } else if cb == '/' {
                false
            } else {
                ca < cb
            };
        }
        assert(a@.skip(i as int).drop_first() =~= a@.skip(i + 1));
        assert(b@.skip(i as int).drop_first() =~= b@.skip(i + 1));
        assert(a@.take(i + 1) =~= a@.take(i as int).push(ca));
        assert(b@.take(i + 1) =~= b@.take(i as int).push(cb));
        i = i + 1;
    }
    i < b.len()
}

/// The number of lines of `origin` in the file at `path`.
pub fn line_count(lines: &Vec<DiffLine>, path: &str, origin: char) -> (res: usize)
    ensures
        res == count_lines(lines@, path@, origin),
{
    let mut count: usize = 0;
    let n = lines.len();
    assert(lines@.take(0) =~= Seq::<DiffLine>::empty());
    for i in 0..n
        invariant
            n == lines@.len(),
            count == count_lines(lines@.take(i as int), path@, origin),
            count <= i,
    {
        assert(lines@.take(i + 1).drop_last() =~= lines@.take(i as int));
        if lines[i].origin == origin && str_eq(lines[i].path.as_str(), path) {
            count = count + 1;
        }
    }
    assert(lines@.take(n as int) =~= lines@);
    count
}

proof fn lemma_path_le_transitive(a: Seq<char>, b: Seq<char>, c: Seq<char>)
    requires
        path_le(a, b),
        path_le(b, c),
    ensures
        path_le(a, c),
{
    if path_lt(a, b) && path_lt(b, c) {
        lemma_path_lt_transitive(a, b, c);
    }
}

/// Where a file goes in a list kept in path order: after every file whose
/// path is not after its own.
fn path_position(v: &Vec<FileStatus>, path: &Vec<char>) -> (res: usize)
    requires
        path_sorted(files_views(v@)),
    ensures
        res <= v@.len(),
        forall|k: int| 0 <= k < res ==> path_le(#[trigger] files_views(v@)[k].0, path@),
        forall|k: int| res <= k < v@.len() ==> path_lt(path@, #[trigger] files_views(v@)[k].0),
{
    let ghost fs = files_views(v@);
    let mut i: usize = 0;
    while i < v.len()
        invariant
            i <= v@.len(),
            fs == files_views(v@),
            path_sorted(fs),
            forall|k: int| 0 <= k < i ==> path_le(#[trigger] fs[k].0, path@),
        decreases v@.len() - i,
    {
        let other = chars_of(v[i].path.as_str());
        assert(fs[i as int].0 == other@);
        if path_chars_lt(path, &other) {
            assert forall|k: int| i <= k < v@.len() implies path_lt(path@, #[trigger] fs[k].0) by {
                if k > i {
                    assert(path_le(fs[i as int].0, fs[k].0));
                    if path_lt(fs[i as int].0, fs[k].0) {
                        lemma_path_lt_transitive(path@, fs[i as int].0, fs[k].0);
                    }
                }
            }
            return i;
        }
        proof {
            lemma_path_lt_total(path@, other@);
        }
        i = i + 1;
    }
    i
}

/// The changed files of a status snapshot, in path order, each with its
/// working and staged states (from its status flags) and the lines added and
/// removed in the working and in the staged diff.
pub fn file_statuses(
    entries: &Vec<StatusEntry>,
    staged_lines: &Vec<DiffLine>,
    working_lines: &Vec<DiffLine>,
) -> (res: Vec<FileStatus>)
    ensures
        path_sorted(files_views(res@)),
        files_views(res@).to_multiset() == changed_entries(
            entries@,
            staged_lines@,
            working_lines@,
        ).to_multiset(),
{
    let mut out: Vec<FileStatus> = Vec::new();
    let n = entries.len();
    assert(entries@.take(0) =~= Seq::<StatusEntry>::empty());
    assert(files_views(out@) =~= Seq::<FileView>::empty());
    for i in 0..n
        invariant
            n == entries@.len(),
            path_sorted(files_views(out@)),
            files_views(out@).to_multiset() == changed_entries(
                entries@.take(i as int),
                staged_lines@,
                working_lines@,
            ).to_multiset(),
    {
        assert(entries@.take(i + 1).drop_last() =~= entries@.take(i as int));
        let entry = &entries[i];
        let path = entry.path.as_str();
        let working = working_state_from_status(entry.bits);
        let staged = staged_state_from_status(entry.bits);
        if working.is_changed() || staged.is_changed() {
            let f = FileStatus {
                path: entry.path.clone(),
                working,
                staged,
                working_insertions: line_count(working_lines, path, '+'),
                working_deletions: line_count(working_lines, path, '-'),
                staged_insertions: line_count(staged_lines, path, '+'),
                staged_deletions: line_count(staged_lines, path, '-'),
            };
            let key = chars_of(path);
            let pos = path_position(&out, &key);
            let ghost before = files_views(out@);
            let ghost me = file_view(f);
            assert(me == entry_view(entries@[i as int], staged_lines@, working_lines@));
            out.insert(pos, f);
            proof {
                let after = files_views(out@);
                assert(after =~= before.insert(pos as int, me));
                assert forall|a: int, b: int| 0 <= a < b < after.len() implies path_le(
                    #[trigger] after[a].0,
                    #[trigger] after[b].0,
                ) by {
                    if b < pos {
                    } else if b == pos {
                    } else if a < pos {
                        lemma_path_le_transitive(before[a].0, me.0, before[b - 1].0);
                    } else if a == pos {
                    } else {
                    }
                }
                broadcast use vstd::seq_lib::group_to_multiset_ensures;
                broadcast use vstd::multiset::group_multiset_axioms;

                assert(after.remove(pos as int) =~= before);
                assert(after[pos as int] == me);
                assert(after.to_multiset().remove(me) == before.to_multiset());
                assert(after.to_multiset().contains(me));
                assert(after.to_multiset() =~= before.to_multiset().insert(me));
            }
        }
    }
    assert(entries@.take(n as int) =~= entries@);
    out
}

} // verus!
