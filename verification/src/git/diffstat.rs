//! The files a commit changes, with their line counts, as the diff against
//! its parent reports them; and whether a commit is signed.  Computing the
//! diff is the caller's business.
use vstd::prelude::*;

use super::types::{CommitFile, FileState};
use crate::text::{
    chars_lt, chars_of, contains, contains_chars, lemma_seq_lt_total,
    lemma_seq_lt_transitive, owned, seq_lt, str_eq,
};

verus! {

/// The kind of change of a file in a diff.
#[derive(Debug, Clone, Copy, PartialEq, Eq, Structural)]
pub enum DeltaKind {
    Unmodified,
    Added,
    Deleted,
    Modified,
    Renamed,
    Copied,
    Ignored,
    Untracked,
    Typechange,
    Unreadable,
    Conflicted,
}

/// What a diff reports, in order: each changed file, then the lines of its
/// hunks.
#[derive(Debug)]
pub enum DiffEvent {
    /// A changed file, by path
    File { path: String, kind: DeltaKind },
    /// A line of a hunk of the file at `path`; `origin` is `+` for an added
    /// line and `-` for a removed one
    Line { path: String, origin: char },
}

/// The state a commit's file is shown with: added (or copied), deleted,
/// renamed, else modified.
pub open spec fn delta_state(kind: DeltaKind) -> FileState {
    match kind {
        DeltaKind::Added | DeltaKind::Copied => FileState::Added,
        DeltaKind::Deleted => FileState::Deleted,
        DeltaKind::Renamed => FileState::Renamed,
        _ => FileState::Modified,
    }
}

/// The state a commit's file is shown with.
pub fn commit_file_state(kind: DeltaKind) -> (res: FileState)
    ensures
        res == delta_state(kind),
{
    match kind {
        DeltaKind::Added | DeltaKind::Copied => FileState::Added,
        DeltaKind::Deleted => FileState::Deleted,
        DeltaKind::Renamed => FileState::Renamed,
        _ => FileState::Modified,
    }
}

/// A file of the tally: path, state, lines added, lines removed.
pub type FileTally = (Seq<char>, FileState, nat, nat);

/// The tally of a list of commit files.
pub open spec fn files_view(v: Seq<CommitFile>) -> Seq<FileTally> {
    v.map_values(|f: CommitFile| (f.path@, f.status, f.insertions as nat, f.deletions as nat))
}

/// A file reported again starts over: the tally, kept in path order, gets
/// the file with no lines counted, replacing an earlier entry of that path.
pub open spec fn tally_file(t: Seq<FileTally>, path: Seq<char>, state: FileState) -> Seq<FileTally>
    decreases t.len(),
{
    if t.len() == 0 {
        seq![(path, state, 0nat, 0nat)]
    } else if t[0].0 == path {
        seq![(path, state, 0nat, 0nat)] + t.drop_first()
    } else if seq_lt(path, t[0].0) {
        seq![(path, state, 0nat, 0nat)] + t
    } else {
        seq![t[0]] + tally_file(t.drop_first(), path, state)
    }
}

/// A line counts for the file at its path, if that file was reported: `+`
/// as added, `-` as removed, other lines not at all.
pub open spec fn tally_line(t: Seq<FileTally>, path: Seq<char>, origin: char) -> Seq<FileTally> {
    t.map_values(
        |e: FileTally|
            if e.0 == path {
                if origin == '+' {
                    (e.0, e.1, e.2 + 1, e.3)
                } else if origin == '-' {
                    (e.0, e.1, e.2, e.3 + 1)
                } else {
                    e
                }
            } else {
                e
            },
    )
}

/// The files of a diff with their line counts, in path order.
pub open spec fn tally(events: Seq<DiffEvent>) -> Seq<FileTally>
    decreases events.len(),
{
    if events.len() == 0 {
        seq![]
    } else {
        let t = tally(events.drop_last());
        match events.last() {
            DiffEvent::File { path, kind } => tally_file(t, path@, delta_state(kind)),
            DiffEvent::Line { path, origin } => tally_line(t, path@, origin),
        }
    }
}

/// Copies of the files `v[from..to]`.
fn copy_files(v: &Vec<CommitFile>, from: usize, to: usize) -> (res: Vec<CommitFile>)
    requires
        from <= to <= v.len(),
    ensures
        res@ == v@.subrange(from as int, to as int),
{
    let mut res: Vec<CommitFile> = Vec::new();
    for j in from..to
        invariant
            to <= v.len(),
            res@ == v@.subrange(from as int, j as int),
    {
        let f = &v[j];
        res.push(
            CommitFile {
                path: f.path.clone(),
                status: f.status,
                insertions: f.insertions,
                deletions: f.deletions,
            },
        );
        assert(v@.subrange(from as int, j + 1) =~= v@.subrange(from as int, j as int).push(
            v@[j as int],
        ));
    }
    res
}

/// Where a file of path `path` goes in a tally kept in path order, and
/// whether that path is there already.
fn file_position(v: &Vec<CommitFile>, path: &String) -> (res: (usize, bool))
    ensures
        res.0 <= v.len(),
        res.1 <==> (res.0 < v.len() && v@[res.0 as int].path@ == path@),
        forall|st: FileState|
            tally_file(files_view(v@), path@, st) == files_view(v@).take(res.0 as int) + tally_file(
                files_view(v@).skip(res.0 as int),
                path@,
                st,
            ),
        res.0 < v.len() ==> (v@[res.0 as int].path@ == path@ || seq_lt(
            path@,
            v@[res.0 as int].path@,
        )),
{
    let ghost s = files_view(v@);
    let key = chars_of(path.as_str());
    let mut i: usize = 0;
    assert(s.take(0) + s.skip(0) =~= s);
    while i < v.len() && !str_eq(v[i].path.as_str(), path.as_str()) && !chars_lt(
        &key,
        &chars_of(v[i].path.as_str()),
    )
        invariant
            i <= v.len(),
            s == files_view(v@),
            key@ == path@,
            forall|st: FileState|
                tally_file(s, path@, st) == s.take(i as int) + tally_file(
                    s.skip(i as int),
                    path@,
                    st,
                ),
        decreases v.len() - i,
    {
        assert(s.skip(i as int)[0] == s[i as int]);
        assert(s.skip(i as int).drop_first() =~= s.skip(i + 1));
        assert(s.take(i + 1) =~= s.take(i as int) + seq![s[i as int]]);
        assert forall|st: FileState|
            tally_file(s, path@, st) == s.take(i + 1) + tally_file(s.skip(i + 1), path@, st) by {
            assert(tally_file(s.skip(i as int), path@, st) == seq![s[i as int]] + tally_file(
                s.skip(i + 1),
                path@,
                st,
            ));
            assert(s.take(i as int) + (seq![s[i as int]] + tally_file(s.skip(i + 1), path@, st))
                =~= s.take(i + 1) + tally_file(s.skip(i + 1), path@, st));
        }
        i = i + 1;
    }
    let found = i < v.len() && str_eq(v[i].path.as_str(), path.as_str());
    (i, found)
}

/// The tally after a file is reported.
fn record_file(v: &Vec<CommitFile>, path: String, state: FileState, Ghost(bound): Ghost<nat>) -> (res:
    Vec<CommitFile>)
    requires
        forall|k: int| 0 <= k < v@.len() ==> (#[trigger] v@[k]).insertions + v@[k].deletions <= bound,
    ensures
        files_view(res@) == tally_file(files_view(v@), path@, state),
        forall|k: int| 0 <= k < res@.len() ==> (#[trigger] res@[k]).insertions + res@[k].deletions <= bound,
{
    let ghost s = files_view(v@);
    let (i, replace) = file_position(v, &path);
    let start = if replace {
        i + 1
    } else {
        i
    };
    let mut res = copy_files(v, 0, i);
    let ghost new_file = CommitFile { path: path, status: state, insertions: 0, deletions: 0 };
    res.push(CommitFile { path, status: state, insertions: 0, deletions: 0 });
    let mut tail = copy_files(v, start, v.len());
    res.append(&mut tail);
    assert(res@ =~= v@.subrange(0, i as int).push(new_file) + v@.subrange(
        start as int,
        v@.len() as int,
    ));
    if i < v.len() {
        assert(s.skip(i as int)[0] == s[i as int]);
        assert(s.skip(i as int).drop_first() =~= s.skip(i + 1));
    }
    assert(files_view(res@) =~= s.take(i as int) + tally_file(s.skip(i as int), new_file.path@, state));
    assert forall|k: int|
        0 <= k < res@.len() implies (#[trigger] res@[k]).insertions + res@[k].deletions <= bound by {
        if k < i {
            assert(v@[k] == res@[k]);
        } else if k > i {
            assert(v@[k - i - 1 + start] == res@[k]);
        }
    }
    res
}

/// The tally after a line is reported.
fn record_line(v: &mut Vec<CommitFile>, path: &str, origin: char, Ghost(bound): Ghost<nat>)
    requires
        forall|k: int| 0 <= k < old(v)@.len() ==> (#[trigger] old(v)@[k]).insertions + old(v)@[k].deletions <= bound,
        bound < usize::MAX,
    ensures
        files_view(final(v)@) == tally_line(files_view(old(v)@), path@, origin),
        forall|k: int| 0 <= k < final(v)@.len() ==> (#[trigger] final(v)@[k]).insertions + final(v)@[k].deletions <= bound + 1,
{
    let ghost s = files_view(v@);
    let n = v.len();
    for i in 0..n
        invariant
            n == v@.len(),
            bound < usize::MAX,
            s == files_view(old(v)@),
            v@.len() == old(v)@.len(),
            forall|k: int|
                0 <= k < i ==> (#[trigger] v@[k].path@, v@[k].status, v@[k].insertions as nat, v@[k].deletions as nat)
                    == tally_line(s, path@, origin)[k],
            forall|k: int| i <= k < n ==> #[trigger] v@[k] == old(v)@[k],
            forall|k: int| 0 <= k < n ==> (#[trigger] v@[k]).insertions + v@[k].deletions <= bound + 1,
            forall|k: int| i <= k < n ==> (#[trigger] v@[k]).insertions + v@[k].deletions <= bound,
    {
        if str_eq(v[i].path.as_str(), path) {
            let f = &v[i];
            let updated = if origin == '+' {
                CommitFile {
                    path: f.path.clone(),
                    status: f.status,
                    insertions: f.insertions + 1,
                    deletions: f.deletions,
                }
            } else if origin == '-' {
                CommitFile {
                    path: f.path.clone(),
                    status: f.status,
                    insertions: f.insertions,
                    deletions: f.deletions + 1,
                }
            } else {
                CommitFile {
                    path: f.path.clone(),
                    status: f.status,
                    insertions: f.insertions,
                    deletions: f.deletions,
                }
            };
            v.set(i, updated);
        }
        assert(s[i as int] == (old(v)@[i as int].path@, old(v)@[i as int].status, old(
            v,
        )@[i as int].insertions as nat, old(v)@[i as int].deletions as nat));
        assert(files_view(v@)[i as int] == tally_line(s, path@, origin)[i as int]);
    }
    assert(files_view(v@) =~= tally_line(s, path@, origin));
}

/// The files a commit changes, in path order, with the lines added and
/// removed in each, from what the diff against its parent reports.
pub fn commit_files(events: &Vec<DiffEvent>) -> (res: Vec<CommitFile>)
    ensures
        files_view(res@) == tally(events@),
{
    let mut out: Vec<CommitFile> = Vec::new();
    let n = events.len();
    assert(events@.take(0) =~= Seq::<DiffEvent>::empty());
    assert(files_view(out@) =~= Seq::<FileTally>::empty());
    for i in 0..n
        invariant
            n == events@.len(),
            files_view(out@) == tally(events@.take(i as int)),
            forall|k: int| 0 <= k < out@.len() ==> (#[trigger] out@[k]).insertions + out@[k].deletions <= i,
    {
        assert(events@.take(i + 1).drop_last() =~= events@.take(i as int));
        match &events[i] {
            DiffEvent::File { path, kind } => {
                let state = commit_file_state(*kind);
                out = record_file(&out, path.clone(), state, Ghost(i as nat));
            },
            DiffEvent::Line { path, origin } => {
                record_line(&mut out, path.as_str(), *origin, Ghost(i as nat));
            },
        }
    }
    assert(events@.take(n as int) =~= events@);
    out
}

/// The signature status of a commit from its raw header: signed when the
/// header carries a `gpgsig` field.
pub fn signature_status(raw_header: Option<&str>) -> (res: Option<String>)
    ensures
        match raw_header {
            Some(h) => if contains(h@, "gpgsig"@) {
                res matches Some(s) && s@ == "Signed"@
            } else {
                res is None
            },
            None => res is None,
        },
{
    match raw_header {
        Some(h) => {
            if contains_chars(&chars_of(h), "gpgsig") {
                Some(owned("Signed"))
            } else {
                None
            }
        },
        None => None,
    }
}

/// The paths of a tally are strictly increasing: each file appears once.
pub open spec fn strictly_sorted(t: Seq<FileTally>) -> bool {
    forall|i: int, j: int| 0 <= i < j < t.len() ==> seq_lt(#[trigger] t[i].0, #[trigger] t[j].0)
}

proof fn lemma_tally_file_bound(t: Seq<FileTally>, path: Seq<char>, state: FileState, x: Seq<char>)
    requires
        forall|i: int| 0 <= i < t.len() ==> seq_lt(x, #[trigger] t[i].0),
        seq_lt(x, path),
    ensures
        forall|i: int|
            0 <= i < tally_file(t, path, state).len() ==> seq_lt(
                x,
                #[trigger] tally_file(t, path, state)[i].0,
            ),
    decreases t.len(),
{
    if t.len() > 0 && t[0].0 != path && !seq_lt(path, t[0].0) {
        lemma_tally_file_bound(t.drop_first(), path, state, x);
        let r = seq![t[0]] + tally_file(t.drop_first(), path, state);
        assert forall|i: int| 0 <= i < r.len() implies seq_lt(x, #[trigger] r[i].0) by {
            if i > 0 {
                assert(r[i] == tally_file(t.drop_first(), path, state)[i - 1]);
            }
        }
    } else if t.len() > 0 && t[0].0 == path {
        let r = seq![(path, state, 0nat, 0nat)] + t.drop_first();
        assert forall|i: int| 0 <= i < r.len() implies seq_lt(x, #[trigger] r[i].0) by {
            if i > 0 {
                assert(r[i] == t[i]);
            }
        }
    } else if t.len() > 0 {
        let r = seq![(path, state, 0nat, 0nat)] + t;
        assert forall|i: int| 0 <= i < r.len() implies seq_lt(x, #[trigger] r[i].0) by {
            if i > 0 {
                assert(r[i] == t[i - 1]);
            }
        }
    }
}

proof fn lemma_tally_file_sorted(t: Seq<FileTally>, path: Seq<char>, state: FileState)
    requires
        strictly_sorted(t),
    ensures
        strictly_sorted(tally_file(t, path, state)),
    decreases t.len(),
{
    if t.len() > 0 && t[0].0 != path && !seq_lt(path, t[0].0) {
        let rest = t.drop_first();
        assert(strictly_sorted(rest)) by {
            assert forall|i: int, j: int| 0 <= i < j < rest.len() implies seq_lt(
                #[trigger] rest[i].0,
                #[trigger] rest[j].0,
            ) by {
                assert(rest[i] == t[i + 1] && rest[j] == t[j + 1]);
            }
        }
        lemma_tally_file_sorted(rest, path, state);
        lemma_seq_lt_total(t[0].0, path);
        assert forall|i: int| 0 <= i < rest.len() implies seq_lt(t[0].0, #[trigger] rest[i].0) by {
            assert(rest[i] == t[i + 1]);
        }
        lemma_tally_file_bound(rest, path, state, t[0].0);
        let tail = tally_file(rest, path, state);
        let r = seq![t[0]] + tail;
        assert forall|i: int, j: int| 0 <= i < j < r.len() implies seq_lt(
            #[trigger] r[i].0,
            #[trigger] r[j].0,
        ) by {
            assert(r[j] == tail[j - 1]);
            if i > 0 {
                assert(r[i] == tail[i - 1]);
            }
        }
    } else if t.len() > 0 && t[0].0 == path {
        let r = seq![(path, state, 0nat, 0nat)] + t.drop_first();
        assert forall|i: int, j: int| 0 <= i < j < r.len() implies seq_lt(
            #[trigger] r[i].0,
            #[trigger] r[j].0,
        ) by {
            assert(r[j] == t[j]);
            if i > 0 {
                assert(r[i] == t[i]);
            }
        }
    } else if t.len() > 0 {
        let r = seq![(path, state, 0nat, 0nat)] + t;
        assert forall|i: int, j: int| 0 <= i < j < r.len() implies seq_lt(
            #[trigger] r[i].0,
            #[trigger] r[j].0,
        ) by {
            assert(r[j] == t[j - 1]);
            if i > 0 {
                assert(r[i] == t[i - 1]);
            } else if j - 1 > 0 {
                assert(seq_lt(t[0].0, t[j - 1].0));
                lemma_seq_lt_transitive(path, t[0].0, t[j - 1].0);
            }
        }
    }
}

/// Each file a commit changes appears once among its files, and they come in
/// path order.
pub proof fn lemma_tally_sorted(events: Seq<DiffEvent>)
    ensures
        strictly_sorted(tally(events)),
    decreases events.len(),
{
    if events.len() > 0 {
        lemma_tally_sorted(events.drop_last());
        let t = tally(events.drop_last());
        match events.last() {
            DiffEvent::File { path, kind } => {
                lemma_tally_file_sorted(t, path@, delta_state(kind));
            },
            DiffEvent::Line { path, origin } => {
                let r = tally_line(t, path@, origin);
                assert forall|i: int, j: int| 0 <= i < j < r.len() implies seq_lt(
                    #[trigger] r[i].0,
                    #[trigger] r[j].0,
                ) by {
                    assert(r[i].0 == t[i].0 && r[j].0 == t[j].0);
                }
            },
        }
    }
}

} // verus!
