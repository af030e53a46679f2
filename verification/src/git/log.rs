//! Decisions on what the repository reports: file states from status flags,
//! decorations from reference names, which part of a history walk a page
//! shows, and where remote-only commits go in the log.
use vstd::prelude::*;

use super::types::{is_change, FileState, GitCommand, RefDecoration};
use crate::text::{chars_of, ends_with, ends_with_chars, slice_chars, starts_with, starts_with_chars, str_eq, string_of};

verus! {

/// Status flag: new in the index.
pub const INDEX_NEW: u32 = 1;
/// Status flag: modified in the index.
pub const INDEX_MODIFIED: u32 = 2;
/// Status flag: deleted in the index.
pub const INDEX_DELETED: u32 = 4;
/// Status flag: renamed in the index.
pub const INDEX_RENAMED: u32 = 8;
/// Status flag: new in the working tree.
pub const WT_NEW: u32 = 128;
/// Status flag: modified in the working tree.
pub const WT_MODIFIED: u32 = 256;
/// Status flag: deleted in the working tree.
pub const WT_DELETED: u32 = 512;
/// Status flag: renamed in the working tree.
pub const WT_RENAMED: u32 = 2048;
/// Status flag: conflicted.
pub const CONFLICTED: u32 = 32768;

/// The working-tree state that status flags report, the first that applies of
/// untracked, modified, deleted, renamed, conflicted.
pub open spec fn working_state(bits: u32) -> FileState {
    if bits & WT_NEW != 0 {
        FileState::Untracked
    } else if bits & WT_MODIFIED != 0 {
        FileState::Modified
    } else if bits & WT_DELETED != 0 {
        FileState::Deleted
    } else if bits & WT_RENAMED != 0 {
        FileState::Renamed
    } else if bits & CONFLICTED != 0 {
        FileState::Conflicted
    } else {
        FileState::Unmodified
    }
}

/// The index state that status flags report, the first that applies of added,
/// modified, deleted, renamed.
pub open spec fn staged_state(bits: u32) -> FileState {
    if bits & INDEX_NEW != 0 {
        FileState::Added
    } else if bits & INDEX_MODIFIED != 0 {
        FileState::Modified
    } else if bits & INDEX_DELETED != 0 {
        FileState::Deleted
    } else if bits & INDEX_RENAMED != 0 {
        FileState::Renamed
    } else {
        FileState::Unmodified
    }
}

/// What an index flag reports of a file: a file new in the index is added;
/// one modified there (and not new) is modified; one deleted there (and
/// neither new nor modified) is deleted, as after `git rm`; one renamed there
/// (and none of those) is renamed.  A file has a staged change exactly when
/// one of these flags is set.
pub proof fn lemma_index_flags(bits: u32)
    ensures
        bits & INDEX_NEW != 0 ==> staged_state(bits) == FileState::Added,
        bits & INDEX_NEW == 0 && bits & INDEX_MODIFIED != 0 ==> staged_state(bits)
            == FileState::Modified,
        bits & INDEX_NEW == 0 && bits & INDEX_MODIFIED == 0 && bits & INDEX_DELETED != 0
            ==> staged_state(bits) == FileState::Deleted,
        bits & INDEX_NEW == 0 && bits & INDEX_MODIFIED == 0 && bits & INDEX_DELETED == 0 && bits
            & INDEX_RENAMED != 0 ==> staged_state(bits) == FileState::Renamed,
        is_change(staged_state(bits)) <==> (bits & INDEX_NEW != 0 || bits & INDEX_MODIFIED != 0
            || bits & INDEX_DELETED != 0 || bits & INDEX_RENAMED != 0),
        staged_state(INDEX_DELETED) == FileState::Deleted,
{
    assert(INDEX_DELETED & INDEX_NEW == 0) by (bit_vector);
    assert(INDEX_DELETED & INDEX_MODIFIED == 0) by (bit_vector);
    assert(INDEX_DELETED & INDEX_DELETED != 0) by (bit_vector);
}

/// What a working-tree flag reports of a file: untracked when it is new,
/// else modified, deleted, renamed or conflicted, the first of these flags
/// that is set.  A file has a working change exactly when one of these flags
/// is set.
pub proof fn lemma_working_flags(bits: u32)
    ensures
        bits & WT_NEW != 0 ==> working_state(bits) == FileState::Untracked,
        bits & WT_NEW == 0 && bits & WT_MODIFIED != 0 ==> working_state(bits)
            == FileState::Modified,
        bits & WT_NEW == 0 && bits & WT_MODIFIED == 0 && bits & WT_DELETED != 0
            ==> working_state(bits) == FileState::Deleted,
        is_change(working_state(bits)) <==> (bits & WT_NEW != 0 || bits & WT_MODIFIED != 0
            || bits & WT_DELETED != 0 || bits & WT_RENAMED != 0 || bits & CONFLICTED != 0),
{
}

/// Uncommitted work keeps a branch from being checked out: a file modified
/// or deleted in the working tree, or new, modified or deleted in the index,
/// blocks it, wherever it stands among the statuses; an untracked file alone
/// does not.
pub proof fn lemma_changes_block_checkout(statuses: Seq<u32>, i: int)
    requires
        0 <= i < statuses.len(),
    ensures
        (statuses[i] & INDEX_MODIFIED != 0 || statuses[i] & INDEX_NEW != 0 || statuses[i]
            & INDEX_DELETED != 0 || statuses[i] & WT_MODIFIED != 0 || statuses[i] & WT_DELETED != 0)
            ==> exists|j: int| 0 <= j < statuses.len() && blocks_checkout(#[trigger] statuses[j]),
        !blocks_checkout(WT_NEW),
        blocks_checkout(INDEX_MODIFIED),
{
    assert(WT_NEW & WT_MODIFIED == 0 && WT_NEW & WT_DELETED == 0 && WT_NEW & INDEX_MODIFIED == 0
        && WT_NEW & INDEX_DELETED == 0 && WT_NEW & INDEX_NEW == 0) by (bit_vector);
    assert(INDEX_MODIFIED & INDEX_MODIFIED != 0) by (bit_vector);
    if statuses[i] & INDEX_MODIFIED != 0 || statuses[i] & INDEX_NEW != 0 || statuses[i]
        & INDEX_DELETED != 0 || statuses[i] & WT_MODIFIED != 0 || statuses[i] & WT_DELETED != 0 {
        assert(blocks_checkout(statuses[i]));
    }
}

/// Extract working directory state from status flags
pub fn working_state_from_status(bits: u32) -> (res: FileState)
    ensures
        res == working_state(bits),
{
    if bits & WT_NEW != 0 {
        FileState::Untracked
    } else if bits & WT_MODIFIED != 0 {
        FileState::Modified
    } else if bits & WT_DELETED != 0 {
        FileState::Deleted
    } else if bits & WT_RENAMED != 0 {
        FileState::Renamed
    } else if bits & CONFLICTED != 0 {
        FileState::Conflicted
    } else {
        FileState::Unmodified
    }
}

/// Extract staged (index) state from status flags
pub fn staged_state_from_status(bits: u32) -> (res: FileState)
    ensures
        res == staged_state(bits),
{
    if bits & INDEX_NEW != 0 {
        FileState::Added
    } else if bits & INDEX_MODIFIED != 0 {
        FileState::Modified
    } else if bits & INDEX_DELETED != 0 {
        FileState::Deleted
    } else if bits & INDEX_RENAMED != 0 {
        FileState::Renamed
    } else {
        FileState::Unmodified
    }
}

/// A file whose status keeps a branch from being checked out: modified or
/// deleted in the working tree, or new, modified or deleted in the index.
pub open spec fn blocks_checkout(bits: u32) -> bool {
    bits & WT_MODIFIED != 0 || bits & WT_DELETED != 0 || bits & INDEX_MODIFIED != 0 || bits
        & INDEX_DELETED != 0 || bits & INDEX_NEW != 0
}

/// Whether uncommitted changes keep a branch from being checked out, given
/// the status flags of the repository's files.
pub fn has_uncommitted_changes(statuses: &Vec<u32>) -> (res: bool)
    ensures
        res == exists|i: int| 0 <= i < statuses@.len() && blocks_checkout(#[trigger] statuses@[i]),
{
    let n = statuses.len();
    for i in 0..n
        invariant
            n == statuses@.len(),
            forall|j: int| 0 <= j < i ==> !blocks_checkout(#[trigger] statuses@[j]),
    {
        let bits = statuses[i];
        if bits & WT_MODIFIED != 0 || bits & WT_DELETED != 0 || bits & INDEX_MODIFIED != 0 || bits
            & INDEX_DELETED != 0 || bits & INDEX_NEW != 0 {
            assert(blocks_checkout(statuses@[i as int]));
            return true;
        }
    }
    false
}

/// The short name of a reference under a prefix, when it is under it.
pub open spec fn under(name: Seq<char>, prefix: Seq<char>) -> Option<Seq<char>> {
    if starts_with(name, prefix) {
        Some(name.skip(prefix.len() as int))
    } else {
        None
    }
}

/// Kind of decoration a reference name gives.
#[derive(Debug, Clone, Copy, PartialEq, Eq, Structural)]
pub enum RefKind {
    Local,
    Remote,
    Tag,
}

/// The decoration a reference name gives: local branches, remote branches
/// (but not a remote's `HEAD`) and tags, each by its short name.
pub open spec fn ref_target(name: Seq<char>) -> Option<(RefKind, Seq<char>)> {
    if under(name, "refs/heads/"@) is Some {
        Some((RefKind::Local, under(name, "refs/heads/"@)->0))
    } else if under(name, "refs/remotes/"@) is Some {
        if ends_with(under(name, "refs/remotes/"@)->0, "/HEAD"@) {
            None
        } else {
            Some((RefKind::Remote, under(name, "refs/remotes/"@)->0))
        }
    } else if under(name, "refs/tags/"@) is Some {
        Some((RefKind::Tag, under(name, "refs/tags/"@)->0))
    } else {
        None
    }
}

/// The short name after a prefix.
fn after_prefix(v: &Vec<char>, prefix: &str) -> (res: Option<Vec<char>>)
    ensures
        res matches Some(r) ==> under(v@, prefix@) == Some(r@),
        res is None ==> under(v@, prefix@) is None,
{
    if starts_with_chars(v, prefix) {
        let p = chars_of(prefix);
        Some(slice_chars(v, p.len(), v.len()))
    } else {
        None
    }
}

/// Parse a reference name into a decoration.
pub fn decoration_for_ref(name: &str) -> (res: Option<RefDecoration>)
    ensures
        match ref_target(name@) {
            Some((RefKind::Local, n)) => res matches Some(RefDecoration::LocalBranch(b)) && b@ == n,
            Some((RefKind::Remote, n)) => res matches Some(RefDecoration::RemoteBranch(b)) && b@
                == n,
            Some((RefKind::Tag, n)) => res matches Some(RefDecoration::Tag(b)) && b@ == n,
            None => res is None,
        },
{
    let v = chars_of(name);
    if let Some(b) = after_prefix(&v, "refs/heads/") {
        return Some(RefDecoration::LocalBranch(string_of(b.as_slice())));
    }
    if let Some(r) = after_prefix(&v, "refs/remotes/") {
        if ends_with_chars(&r, "/HEAD") {
            return None;
        }
        return Some(RefDecoration::RemoteBranch(string_of(r.as_slice())));
    }
    if let Some(t) = after_prefix(&v, "refs/tags/") {
        return Some(RefDecoration::Tag(string_of(t.as_slice())));
    }
    None
}

/// The short SHA of a log entry, or the empty text when it has none.
pub open spec fn sha_or_empty(c: GitCommand) -> Seq<char> {
    match c.sha {
        Some(s) => s@,
        None => seq![],
    }
}

/// Position of the first entry whose SHA is `base`, or the length when none is.
pub open spec fn base_position(cs: Seq<GitCommand>, base: Seq<char>) -> int
    decreases cs.len(),
{
    if cs.len() == 0 {
        0
    } else if sha_or_empty(cs[0]) == base {
        0
    } else {
        1 + base_position(cs.drop_first(), base)
    }
}

/// The log with the remote-only commits placed just before the merge base
/// (when it is among the listed commits), else after all of them.
pub open spec fn spliced_log(
    main: Seq<GitCommand>,
    remote: Seq<GitCommand>,
    base: Option<Seq<char>>,
) -> Seq<GitCommand> {
    match base {
        Some(b) => {
            let k = base_position(main, b);
            main.take(k) + remote + main.skip(k)
        },
        None => main + remote,
    }
}

proof fn lemma_base_position(cs: Seq<GitCommand>, base: Seq<char>)
    ensures
        0 <= base_position(cs, base) <= cs.len(),
    decreases cs.len(),
{
    if cs.len() > 0 {
        lemma_base_position(cs.drop_first(), base);
    }
}

/// The page of a walk that skips `skip` entries and shows at most `limit`:
/// empty when the walk is no longer than `skip`.
pub open spec fn page_of<T>(walk: Seq<T>, skip: int, limit: int) -> Seq<T> {
    if skip >= walk.len() {
        Seq::empty()
    } else if limit >= walk.len() - skip {
        walk.subrange(skip, walk.len() as int)
    } else {
        walk.subrange(skip, skip + limit)
    }
}

/// The entries of a walk that a page shows: `skip` of them are passed over,
/// then at most `limit` are kept, in the walk's order.
pub fn page<T>(walk: Vec<T>, skip: usize, limit: usize) -> (res: Vec<T>)
    ensures
        res@ == page_of(walk@, skip as int, limit as int),
{
    let mut walk = walk;
    if skip >= walk.len() {
        return Vec::new();
    }
    let mut rest = walk.split_off(skip);
    rest.truncate(limit);
    rest
}

/// Consecutive pages show consecutive parts of the walk: a page followed by
/// the next one shows what one page as long as both would, so every entry
/// comes once, on one page, in the walk's order; and a page of a walk that
/// repeats nothing repeats nothing.
pub proof fn lemma_pages_follow<T>(walk: Seq<T>, skip: nat, n: nat, m: nat)
    ensures
        page_of(walk, skip as int, n as int) + page_of(walk, (skip + n) as int, m as int) == page_of(
            walk,
            skip as int,
            (n + m) as int,
        ),
        walk.no_duplicates() ==> page_of(walk, skip as int, (n + m) as int).no_duplicates(),
{
    let a = page_of(walk, skip as int, n as int);
    let b = page_of(walk, (skip + n) as int, m as int);
    let c = page_of(walk, skip as int, (n + m) as int);
    assert(a + b =~= c);
    if walk.no_duplicates() {
        assert forall|i: int, j: int| 0 <= i < c.len() && 0 <= j < c.len() && i != j implies c[i]
            != c[j] by {
            assert(c[i] == walk[skip + i]);
            assert(c[j] == walk[skip + j]);
        }
    }
}

/// Inserts the remote-only commits into the log at the merge base.
pub fn splice_remote_commits(
    main: Vec<GitCommand>,
    remote: Vec<GitCommand>,
    merge_base: Option<String>,
) -> (res: Vec<GitCommand>)
    ensures
        res@ == spliced_log(main@, remote@, match merge_base {
            Some(b) => Some(b@),
            None => None,
        }),
{
    let mut main = main;
    let mut remote = remote;
    match merge_base {
        None => {
            main.append(&mut remote);
            main
        },
        Some(base) => {
            let ghost m = main@;
            proof {
                lemma_base_position(m, base@);
            }
            let mut k: usize = 0;
            let mut found = false;
            assert(m.skip(0) == m);
            while !found && k < main.len()
                invariant
                    main@ == m,
                    k <= m.len(),
                    found ==> base_position(m, base@) == k,
                    !found ==> base_position(m, base@) == k + base_position(
                        m.skip(k as int),
                        base@,
                    ),
                decreases m.len() - k + (if found { 0int } else { 1int }),
            {
                let matches = match &main[k].sha {
                    Some(s) => str_eq(s.as_str(), base.as_str()),
                    None => str_eq("", base.as_str()),
                };
                proof {
                    reveal_strlit("");
                    assert(""@ =~= Seq::<char>::empty());
                }
                assert(m.skip(k as int)[0] == m[k as int]);
                assert(matches == (sha_or_empty(m[k as int]) == base@));
                assert(base_position(m.skip(k as int), base@) == if matches {
                    0
                } else {
                    1 + base_position(m.skip(k as int).drop_first(), base@)
                });
                if matches {
                    found = true;
                } else {
                    assert(m.skip(k as int).drop_first() == m.skip(k + 1));
                    k = k + 1;
                }
            }
            assert(base_position(m, base@) == k);
            let mut tail = main.split_off(k);
            main.append(&mut remote);
            main.append(&mut tail);
            main
        },
    }
}

/// Splicing keeps every commit: the log holds the listed commits and the
/// remote-only ones, the listed ones still in their order.
pub proof fn lemma_splice_keeps_commits(
    main: Seq<GitCommand>,
    remote: Seq<GitCommand>,
    base: Option<Seq<char>>,
)
    ensures
        spliced_log(main, remote, base).to_multiset() == (main + remote).to_multiset(),
        spliced_log(main, remote, base).len() == main.len() + remote.len(),
{
    match base {
        Some(b) => {
            lemma_base_position(main, b);
            let k = base_position(main, b);
            let (a, m, z) = (main.take(k), remote, main.skip(k));
            vstd::seq_lib::lemma_multiset_commutative(a, m);
            vstd::seq_lib::lemma_multiset_commutative(a + m, z);
            vstd::seq_lib::lemma_multiset_commutative(a, z);
            vstd::seq_lib::lemma_multiset_commutative(main, m);
            assert(a + z =~= main);
            broadcast use vstd::multiset::group_multiset_axioms;

            assert((a + m + z).to_multiset() =~= (main + m).to_multiset());
        },
        None => {},
    }
}

} // verus!
