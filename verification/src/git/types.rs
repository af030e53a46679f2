//! Git status and history types.
use vstd::prelude::*;

use crate::text::{chars_of, contains, contains_chars, lowercase, starts_with, starts_with_chars, to_lowercase};

verus! {

/// Status of a file in the repository
#[derive(Debug, PartialEq, Eq)]
pub struct FileStatus {
    /// Path relative to repository root
    pub path: String,
    /// Status in working directory
    pub working: FileState,
    /// Status in staging area (index)
    pub staged: FileState,
    /// Lines inserted in working directory changes
    pub working_insertions: usize,
    /// Lines deleted in working directory changes
    pub working_deletions: usize,
    /// Lines inserted in staged changes
    pub staged_insertions: usize,
    /// Lines deleted in staged changes
    pub staged_deletions: usize,
}

impl Clone for FileStatus {
    fn clone(&self) -> (res: Self)
        ensures
            res == *self,
    {
        FileStatus {
            path: self.path.clone(),
            working: self.working,
            staged: self.staged,
            working_insertions: self.working_insertions,
            working_deletions: self.working_deletions,
            staged_insertions: self.staged_insertions,
            staged_deletions: self.staged_deletions,
        }
    }
}

/// State of a file
#[derive(Debug, Clone, Copy, PartialEq, Eq, Structural)]
pub enum FileState {
    Unmodified,
    Modified,
    Added,
    Deleted,
    Renamed,
    Untracked,
    Ignored,
    Conflicted,
}

impl Default for FileState {
    fn default() -> (res: Self)
        ensures
            res == FileState::Unmodified,
    {
        FileState::Unmodified
    }
}

/// The status letter of a state, as `git status --short` shows it.
pub open spec fn state_char(s: FileState) -> char {
    match s {
        FileState::Unmodified => ' ',
        FileState::Modified => 'M',
        FileState::Added => 'A',
        FileState::Deleted => 'D',
        FileState::Renamed => 'R',
        FileState::Untracked => '?',
        FileState::Ignored => '!',
        FileState::Conflicted => 'U',
    }
}

/// A state that is a change: anything but unmodified or ignored.
pub open spec fn is_change(s: FileState) -> bool {
    !(s == FileState::Unmodified || s == FileState::Ignored)
}

impl FileState {
    /// Character representation (like git status --short)
    pub fn as_char(self) -> (res: char)
        ensures
            res == state_char(self),
    {
        match self {
            FileState::Unmodified => ' ',
            FileState::Modified => 'M',
            FileState::Added => 'A',
            FileState::Deleted => 'D',
            FileState::Renamed => 'R',
            FileState::Untracked => '?',
            FileState::Ignored => '!',
            FileState::Conflicted => 'U',
        }
    }

    /// Whether the state is a change
    pub fn is_changed(self) -> (res: bool)
        ensures
            res == is_change(self),
    {
        match self {
            FileState::Unmodified | FileState::Ignored => false,
            _ => true,
        }
    }
}

/// Repository state (merging, rebasing, etc.)
#[derive(Debug, Clone, Copy, PartialEq, Eq, Structural)]
pub enum RepoState {
    Normal,
    Merge,
    Rebase,
    RebaseInteractive,
    CherryPick,
    Revert,
    Bisect,
}

impl Default for RepoState {
    fn default() -> (res: Self)
        ensures
            res == RepoState::Normal,
    {
        RepoState::Normal
    }
}

/// Complete git status snapshot
#[derive(Debug)]
pub struct GitStatus {
    /// Current branch name (None if detached HEAD)
    pub branch: Option<String>,
    /// Upstream branch name if tracking
    pub upstream: Option<String>,
    /// Commits ahead of upstream
    pub ahead: usize,
    /// Commits behind upstream
    pub behind: usize,
    /// Files with changes
    pub files: Vec<FileStatus>,
    /// Repository state
    pub state: RepoState,
}

/// The number of files whose working state is `Untracked`.
pub open spec fn untracked_in(files: Seq<FileStatus>) -> nat
    decreases files.len(),
{
    if files.len() == 0 {
        0
    } else {
        untracked_in(files.drop_last()) + if files.last().working == FileState::Untracked {
            1nat
        } else {
            0nat
        }
    }
}

impl Default for GitStatus {
    fn default() -> (res: Self)
        ensures
            res.branch is None,
            res.upstream is None,
            res.ahead == 0,
            res.behind == 0,
            res.files@.len() == 0,
            res.state == RepoState::Normal,
    {
        GitStatus {
            branch: None,
            upstream: None,
            ahead: 0,
            behind: 0,
            files: Vec::new(),
            state: RepoState::Normal,
        }
    }
}

/// The files whose working-tree state (`staged == false`) or index state
/// (`staged == true`) is a change, in order.
pub open spec fn changed_files(files: Seq<FileStatus>, staged: bool) -> Seq<FileStatus>
    decreases files.len(),
{
    if files.len() == 0 {
        seq![]
    } else {
        let rest = changed_files(files.drop_last(), staged);
        let f = files.last();
        if is_change(if staged {
            f.staged
        } else {
            f.working
        }) {
            rest.push(f)
        } else {
            rest
        }
    }
}

/// The file at position `selected` of the main list (position 0 is the
/// command line; the staged files come first, then the working ones).
pub open spec fn file_at(status: GitStatus, selected: Option<usize>) -> Option<
    (Seq<char>, bool, FileState),
> {
    match selected {
        None => None,
        Some(s) => if s == 0 {
            None
        } else {
            let staged = changed_files(status.files@, true);
            let working = changed_files(status.files@, false);
            let i = s - 1;
            if i < staged.len() {
                Some((staged[i].path@, true, staged[i].staged))
            } else if i < staged.len() + working.len() {
                let w = working[i - staged.len()];
                Some((w.path@, false, w.working))
            } else {
                None
            }
        },
    }
}

impl GitStatus {
    /// The files with a working-tree or index change.
    fn changes(&self, staged: bool) -> (res: Vec<&FileStatus>)
        ensures
            res@.map_values(|f: &FileStatus| *f) == changed_files(self.files@, staged),
    {
        let mut res: Vec<&FileStatus> = Vec::new();
        let n = self.files.len();
        for i in 0..n
            invariant
                n == self.files@.len(),
                res@.map_values(|f: &FileStatus| *f) == changed_files(
                    self.files@.take(i as int),
                    staged,
                ),
        {
            let f = &self.files[i];
            assert(self.files@.take(i + 1).drop_last() == self.files@.take(i as int));
            assert(self.files@.take(i + 1).last() == *f);
            let st = if staged {
                f.staged
            } else {
                f.working
            };
            if st.is_changed() {
                let ghost before = res@.map_values(|f: &FileStatus| *f);
                res.push(f);
                assert(res@.map_values(|f: &FileStatus| *f) =~= before.push(*f));
            }
        }
        assert(self.files@.take(n as int) == self.files@);
        res
    }

    /// Files changed in working directory (not staged)
    pub fn working_changes(&self) -> (res: Vec<&FileStatus>)
        ensures
            res@.map_values(|f: &FileStatus| *f) == changed_files(self.files@, false),
    {
        self.changes(false)
    }

    /// The number of files whose working state is `Untracked`.
    pub fn untracked_count(&self) -> (res: usize)
        ensures
            res == untracked_in(self.files@),
    {
        let mut count: usize = 0;
        let n = self.files.len();
        assert(self.files@.take(0) =~= Seq::<FileStatus>::empty());
        for i in 0..n
            invariant
                n == self.files@.len(),
                count == untracked_in(self.files@.take(i as int)),
                count <= i,
        {
            assert(self.files@.take(i + 1).drop_last() =~= self.files@.take(i as int));
            if self.files[i].working == FileState::Untracked {
                count = count + 1;
            }
        }
        assert(self.files@.take(n as int) =~= self.files@);
        count
    }

    /// Files staged for commit
    pub fn staged_changes(&self) -> (res: Vec<&FileStatus>)
        ensures
            res@.map_values(|f: &FileStatus| *f) == changed_files(self.files@, true),
    {
        self.changes(true)
    }

    /// The file at position `selected` of the main list, where position 0 is
    /// the command line and the staged files come before the working ones:
    /// its path, whether it is the staged entry, and its state there.
    pub fn selected_file(&self, selected: Option<usize>) -> (res: Option<(String, bool, FileState)>)
        ensures
            match res {
                Some((p, staged, state)) => file_at(*self, selected) == Some((p@, staged, state)),
                None => file_at(*self, selected) is None,
            },
    {
        let s = match selected {
            Some(s) => s,
            None => {
                return None;
            },
        };
        if s == 0 {
            return None;
        }
        let staged = self.staged_changes();
        let working = self.working_changes();
        let i = s - 1;
        proof {
            assert(staged@.len() == changed_files(self.files@, true).len());
            assert(working@.len() == changed_files(self.files@, false).len());
        }
        if i < staged.len() {
            let f = staged[i];
            assert(*f == changed_files(self.files@, true)[i as int]);
            Some((f.path.clone(), true, f.staged))
        } else if i - staged.len() < working.len() {
            let f = working[i - staged.len()];
            assert(*f == changed_files(self.files@, false)[i - staged@.len()]);
            Some((f.path.clone(), false, f.working))
        } else {
            None
        }
    }
}

/// A decoration (branch, tag, etc.) attached to a commit
#[derive(Debug, PartialEq, Eq)]
pub enum RefDecoration {
    /// HEAD pointer
    Head,
    /// Local branch
    LocalBranch(String),
    /// Remote branch (e.g., origin/main)
    RemoteBranch(String),
    /// Tag
    Tag(String),
}

impl Clone for RefDecoration {
    fn clone(&self) -> (res: Self)
        ensures
            res == *self,
    {
        match self {
            RefDecoration::Head => RefDecoration::Head,
            RefDecoration::LocalBranch(s) => RefDecoration::LocalBranch(s.clone()),
            RefDecoration::RemoteBranch(s) => RefDecoration::RemoteBranch(s.clone()),
            RefDecoration::Tag(s) => RefDecoration::Tag(s.clone()),
        }
    }
}

/// A git command/action from the reflog, or a commit from the log
#[derive(Debug)]
pub struct GitCommand {
    /// When the command was executed, in seconds since the Unix epoch
    pub timestamp: i64,
    /// Type of command
    pub command_type: CommandType,
    /// Command message/description
    pub message: String,
    /// Short SHA if available
    pub sha: Option<String>,
    /// Decorations (branches, tags) pointing to this commit
    pub decorations: Vec<RefDecoration>,
    /// True if this commit only exists on remote (not reachable from HEAD)
    pub is_remote_only: bool,
}

/// Detailed commit information for expanded view
#[derive(Debug)]
pub struct CommitDetail {
    /// Full 40-character SHA
    pub full_sha: String,
    /// Author name
    pub author_name: String,
    /// Author email
    pub author_email: String,
    /// Author timestamp, in seconds since the Unix epoch
    pub author_time: i64,
    /// Author time zone offset, in minutes east of UTC
    pub author_offset_minutes: i32,
    /// Committer name
    pub committer_name: String,
    /// Committer email
    pub committer_email: String,
    /// Committer timestamp, in seconds since the Unix epoch
    pub committer_time: i64,
    /// Full commit message (summary + body)
    pub message: String,
    /// GPG signature status (if signed)
    pub gpg_status: Option<String>,
    /// Files changed in this commit
    pub files: Vec<CommitFile>,
    /// Total lines added
    pub insertions: usize,
    /// Total lines deleted
    pub deletions: usize,
}

/// A file changed in a commit
#[derive(Debug, PartialEq, Eq)]
pub struct CommitFile {
    /// File path
    pub path: String,
    /// Change status
    pub status: FileState,
    /// Lines added in this file
    pub insertions: usize,
    /// Lines deleted in this file
    pub deletions: usize,
}

/// Information about a local branch
#[derive(Debug, PartialEq, Eq)]
pub struct BranchInfo {
    /// Branch name
    pub name: String,
    /// Whether this is the current (checked out) branch
    pub is_current: bool,
    /// Whether this is a remote tracking branch
    pub is_remote: bool,
}

impl Clone for BranchInfo {
    fn clone(&self) -> (res: Self)
        ensures
            res == *self,
    {
        BranchInfo { name: self.name.clone(), is_current: self.is_current, is_remote: self.is_remote }
    }
}

/// Types of git commands
#[derive(Debug, Clone, Copy, PartialEq, Eq, Structural)]
pub enum CommandType {
    Commit,
    Checkout,
    Merge,
    Rebase,
    Pull,
    Push,
    Reset,
    CherryPick,
    Revert,
    Branch,
    Clone,
    Init,
    Fetch,
    Stash,
    Other,
}

/// The kind of a reflog entry, read from the start of its lower-cased
/// message; "initial" anywhere marks the first commit.
pub open spec fn message_kind(msg: Seq<char>) -> CommandType {
    lowered_kind(lowercase(msg))
}

/// The kind of a reflog entry whose message, lower-cased, is `m`.
pub open spec fn lowered_kind(m: Seq<char>) -> CommandType {
    if starts_with(m, "commit"@) {
        CommandType::Commit
    } else if starts_with(m, "checkout"@) {
        CommandType::Checkout
    } else if starts_with(m, "merge"@) {
        CommandType::Merge
    } else if starts_with(m, "rebase"@) {
        CommandType::Rebase
    } else if starts_with(m, "pull"@) {
        CommandType::Pull
    } else if starts_with(m, "reset"@) {
        CommandType::Reset
    } else if starts_with(m, "cherry-pick"@) {
        CommandType::CherryPick
    } else if starts_with(m, "revert"@) {
        CommandType::Revert
    } else if starts_with(m, "branch"@) {
        CommandType::Branch
    } else if starts_with(m, "clone"@) {
        CommandType::Clone
    } else if contains(m, "initial"@) {
        CommandType::Init
    } else {
        CommandType::Other
    }
}

/// A message that begins with one prefix does not begin with another that
/// differs from it at position `d`.
proof fn lemma_prefixes_exclude(m: Seq<char>, p: Seq<char>, q: Seq<char>, d: int)
    requires
        starts_with(m, p),
        0 <= d < p.len(),
        d < q.len(),
        p[d] != q[d],
    ensures
        !starts_with(m, q),
{
    assert(m.take(p.len() as int)[d] == m[d]);
    if starts_with(m, q) {
        assert(m.take(q.len() as int)[d] == m[d]);
    }
}

/// The kind of a reflog entry is read from the start of its (lower-cased)
/// message: a message that begins with `commit` is a commit, with `checkout`
/// a checkout, with `merge` a merge, and so on, whatever follows; and a kind
/// is given only to a message that begins with its word (an initial entry
/// only to one that mentions `initial`).
pub proof fn lemma_kind_from_prefix(m: Seq<char>)
    ensures
        starts_with(m, "commit"@) ==> lowered_kind(m) == CommandType::Commit,
        starts_with(m, "checkout"@) ==> lowered_kind(m) == CommandType::Checkout,
        starts_with(m, "merge"@) ==> lowered_kind(m) == CommandType::Merge,
        starts_with(m, "rebase"@) ==> lowered_kind(m) == CommandType::Rebase,
        starts_with(m, "pull"@) ==> lowered_kind(m) == CommandType::Pull,
        starts_with(m, "reset"@) ==> lowered_kind(m) == CommandType::Reset,
        starts_with(m, "cherry-pick"@) ==> lowered_kind(m) == CommandType::CherryPick,
        starts_with(m, "revert"@) ==> lowered_kind(m) == CommandType::Revert,
        starts_with(m, "branch"@) ==> lowered_kind(m) == CommandType::Branch,
        starts_with(m, "clone"@) ==> lowered_kind(m) == CommandType::Clone,
        lowered_kind(m) == CommandType::Commit ==> starts_with(m, "commit"@),
        lowered_kind(m) == CommandType::Checkout ==> starts_with(m, "checkout"@),
        lowered_kind(m) == CommandType::Merge ==> starts_with(m, "merge"@),
        lowered_kind(m) == CommandType::Rebase ==> starts_with(m, "rebase"@),
        lowered_kind(m) == CommandType::Pull ==> starts_with(m, "pull"@),
        lowered_kind(m) == CommandType::Reset ==> starts_with(m, "reset"@),
        lowered_kind(m) == CommandType::CherryPick ==> starts_with(m, "cherry-pick"@),
        lowered_kind(m) == CommandType::Revert ==> starts_with(m, "revert"@),
        lowered_kind(m) == CommandType::Branch ==> starts_with(m, "branch"@),
        lowered_kind(m) == CommandType::Clone ==> starts_with(m, "clone"@),
        lowered_kind(m) == CommandType::Init ==> contains(m, "initial"@),
{
    reveal_strlit("commit");
    reveal_strlit("checkout");
    reveal_strlit("merge");
    reveal_strlit("rebase");
    reveal_strlit("pull");
    reveal_strlit("reset");
    reveal_strlit("cherry-pick");
    reveal_strlit("revert");
    reveal_strlit("branch");
    reveal_strlit("clone");
    if starts_with(m, "checkout"@) {
        assert("checkout"@[1] == 'h' && "commit"@[1] == 'o');
        lemma_prefixes_exclude(m, "checkout"@, "commit"@, 1);
    }
    if starts_with(m, "merge"@) {
        assert("merge"@[0] == 'm' && "commit"@[0] == 'c');
        lemma_prefixes_exclude(m, "merge"@, "commit"@, 0);
    }
    if starts_with(m, "merge"@) {
        assert("merge"@[0] == 'm' && "checkout"@[0] == 'c');
        lemma_prefixes_exclude(m, "merge"@, "checkout"@, 0);
    }
    if starts_with(m, "rebase"@) {
        assert("rebase"@[0] == 'r' && "commit"@[0] == 'c');
        lemma_prefixes_exclude(m, "rebase"@, "commit"@, 0);
    }
    if starts_with(m, "rebase"@) {
        assert("rebase"@[0] == 'r' && "checkout"@[0] == 'c');
        lemma_prefixes_exclude(m, "rebase"@, "checkout"@, 0);
    }
    if starts_with(m, "rebase"@) {
        assert("rebase"@[0] == 'r' && "merge"@[0] == 'm');
        lemma_prefixes_exclude(m, "rebase"@, "merge"@, 0);
    }
    if starts_with(m, "pull"@) {
        assert("pull"@[0] == 'p' && "commit"@[0] == 'c');
        lemma_prefixes_exclude(m, "pull"@, "commit"@, 0);
    }
    if starts_with(m, "pull"@) {
        assert("pull"@[0] == 'p' && "checkout"@[0] == 'c');
        lemma_prefixes_exclude(m, "pull"@, "checkout"@, 0);
    }
    if starts_with(m, "pull"@) {
        assert("pull"@[0] == 'p' && "merge"@[0] == 'm');
        lemma_prefixes_exclude(m, "pull"@, "merge"@, 0);
    }
    if starts_with(m, "pull"@) {
        assert("pull"@[0] == 'p' && "rebase"@[0] == 'r');
        lemma_prefixes_exclude(m, "pull"@, "rebase"@, 0);
    }
    if starts_with(m, "reset"@) {
        assert("reset"@[0] == 'r' && "commit"@[0] == 'c');
        lemma_prefixes_exclude(m, "reset"@, "commit"@, 0);
    }
    if starts_with(m, "reset"@) {
        assert("reset"@[0] == 'r' && "checkout"@[0] == 'c');
        lemma_prefixes_exclude(m, "reset"@, "checkout"@, 0);
    }
    if starts_with(m, "reset"@) {
        assert("reset"@[0] == 'r' && "merge"@[0] == 'm');
        lemma_prefixes_exclude(m, "reset"@, "merge"@, 0);
    }
    if starts_with(m, "reset"@) {
        assert("reset"@[2] == 's' && "rebase"@[2] == 'b');
        lemma_prefixes_exclude(m, "reset"@, "rebase"@, 2);
    }
    if starts_with(m, "reset"@) {
        assert("reset"@[0] == 'r' && "pull"@[0] == 'p');
        lemma_prefixes_exclude(m, "reset"@, "pull"@, 0);
    }
    if starts_with(m, "cherry-pick"@) {
        assert("cherry-pick"@[1] == 'h' && "commit"@[1] == 'o');
        lemma_prefixes_exclude(m, "cherry-pick"@, "commit"@, 1);
    }
    if starts_with(m, "cherry-pick"@) {
        assert("cherry-pick"@[3] == 'r' && "checkout"@[3] == 'c');
        lemma_prefixes_exclude(m, "cherry-pick"@, "checkout"@, 3);
    }
    if starts_with(m, "cherry-pick"@) {
        assert("cherry-pick"@[0] == 'c' && "merge"@[0] == 'm');
        lemma_prefixes_exclude(m, "cherry-pick"@, "merge"@, 0);
    }
    if starts_with(m, "cherry-pick"@) {
        assert("cherry-pick"@[0] == 'c' && "rebase"@[0] == 'r');
        lemma_prefixes_exclude(m, "cherry-pick"@, "rebase"@, 0);
    }
    if starts_with(m, "cherry-pick"@) {
        assert("cherry-pick"@[0] == 'c' && "pull"@[0] == 'p');
        lemma_prefixes_exclude(m, "cherry-pick"@, "pull"@, 0);
    }
    if starts_with(m, "cherry-pick"@) {
        assert("cherry-pick"@[0] == 'c' && "reset"@[0] == 'r');
        lemma_prefixes_exclude(m, "cherry-pick"@, "reset"@, 0);
    }
    if starts_with(m, "revert"@) {
        assert("revert"@[0] == 'r' && "commit"@[0] == 'c');
        lemma_prefixes_exclude(m, "revert"@, "commit"@, 0);
    }
    if starts_with(m, "revert"@) {
        assert("revert"@[0] == 'r' && "checkout"@[0] == 'c');
        lemma_prefixes_exclude(m, "revert"@, "checkout"@, 0);
    }
    if starts_with(m, "revert"@) {
        assert("revert"@[0] == 'r' && "merge"@[0] == 'm');
        lemma_prefixes_exclude(m, "revert"@, "merge"@, 0);
    }
    if starts_with(m, "revert"@) {
        assert("revert"@[2] == 'v' && "rebase"@[2] == 'b');
        lemma_prefixes_exclude(m, "revert"@, "rebase"@, 2);
    }
    if starts_with(m, "revert"@) {
        assert("revert"@[0] == 'r' && "pull"@[0] == 'p');
        lemma_prefixes_exclude(m, "revert"@, "pull"@, 0);
    }
    if starts_with(m, "revert"@) {
        assert("revert"@[2] == 'v' && "reset"@[2] == 's');
        lemma_prefixes_exclude(m, "revert"@, "reset"@, 2);
    }
    if starts_with(m, "revert"@) {
        assert("revert"@[0] == 'r' && "cherry-pick"@[0] == 'c');
        lemma_prefixes_exclude(m, "revert"@, "cherry-pick"@, 0);
    }
    if starts_with(m, "branch"@) {
        assert("branch"@[0] == 'b' && "commit"@[0] == 'c');
        lemma_prefixes_exclude(m, "branch"@, "commit"@, 0);
    }
    if starts_with(m, "branch"@) {
        assert("branch"@[0] == 'b' && "checkout"@[0] == 'c');
        lemma_prefixes_exclude(m, "branch"@, "checkout"@, 0);
    }
    if starts_with(m, "branch"@) {
        assert("branch"@[0] == 'b' && "merge"@[0] == 'm');
        lemma_prefixes_exclude(m, "branch"@, "merge"@, 0);
    }
    if starts_with(m, "branch"@) {
        assert("branch"@[0] == 'b' && "rebase"@[0] == 'r');
        lemma_prefixes_exclude(m, "branch"@, "rebase"@, 0);
    }
    if starts_with(m, "branch"@) {
        assert("branch"@[0] == 'b' && "pull"@[0] == 'p');
        lemma_prefixes_exclude(m, "branch"@, "pull"@, 0);
    }
    if starts_with(m, "branch"@) {
        assert("branch"@[0] == 'b' && "reset"@[0] == 'r');
        lemma_prefixes_exclude(m, "branch"@, "reset"@, 0);
    }
    if starts_with(m, "branch"@) {
        assert("branch"@[0] == 'b' && "cherry-pick"@[0] == 'c');
        lemma_prefixes_exclude(m, "branch"@, "cherry-pick"@, 0);
    }
    if starts_with(m, "branch"@) {
        assert("branch"@[0] == 'b' && "revert"@[0] == 'r');
        lemma_prefixes_exclude(m, "branch"@, "revert"@, 0);
    }
    if starts_with(m, "clone"@) {
        assert("clone"@[1] == 'l' && "commit"@[1] == 'o');
        lemma_prefixes_exclude(m, "clone"@, "commit"@, 1);
    }
    if starts_with(m, "clone"@) {
        assert("clone"@[1] == 'l' && "checkout"@[1] == 'h');
        lemma_prefixes_exclude(m, "clone"@, "checkout"@, 1);
    }
    if starts_with(m, "clone"@) {
        assert("clone"@[0] == 'c' && "merge"@[0] == 'm');
        lemma_prefixes_exclude(m, "clone"@, "merge"@, 0);
    }
    if starts_with(m, "clone"@) {
        assert("clone"@[0] == 'c' && "rebase"@[0] == 'r');
        lemma_prefixes_exclude(m, "clone"@, "rebase"@, 0);
    }
    if starts_with(m, "clone"@) {
        assert("clone"@[0] == 'c' && "pull"@[0] == 'p');
        lemma_prefixes_exclude(m, "clone"@, "pull"@, 0);
    }
    if starts_with(m, "clone"@) {
        assert("clone"@[0] == 'c' && "reset"@[0] == 'r');
        lemma_prefixes_exclude(m, "clone"@, "reset"@, 0);
    }
    if starts_with(m, "clone"@) {
        assert("clone"@[1] == 'l' && "cherry-pick"@[1] == 'h');
        lemma_prefixes_exclude(m, "clone"@, "cherry-pick"@, 1);
    }
    if starts_with(m, "clone"@) {
        assert("clone"@[0] == 'c' && "revert"@[0] == 'r');
        lemma_prefixes_exclude(m, "clone"@, "revert"@, 0);
    }
    if starts_with(m, "clone"@) {
        assert("clone"@[0] == 'c' && "branch"@[0] == 'b');
        lemma_prefixes_exclude(m, "clone"@, "branch"@, 0);
    }
}

/// The same, for a message before lower-casing.
pub proof fn lemma_message_kind_from_prefix(msg: Seq<char>)
    ensures
        starts_with(lowercase(msg), "commit"@) ==> message_kind(msg) == CommandType::Commit,
        starts_with(lowercase(msg), "checkout"@) ==> message_kind(msg) == CommandType::Checkout,
        message_kind(msg) == CommandType::Merge ==> starts_with(lowercase(msg), "merge"@),
{
    lemma_kind_from_prefix(lowercase(msg));
}

/// The icon of a command type.
pub open spec fn kind_icon(t: CommandType) -> Seq<char> {
    match t {
        CommandType::Commit => "●"@,
        CommandType::Checkout => "⎇"@,
        CommandType::Merge => "⑂"@,
        CommandType::Rebase => "↺"@,
        CommandType::Pull => "↓"@,
        CommandType::Push => "↑"@,
        CommandType::Fetch => "⟳"@,
        CommandType::Reset => "↩"@,
        CommandType::CherryPick => "❋"@,
        CommandType::Revert => "⊗"@,
        CommandType::Stash => "□"@,
        CommandType::Branch => "⌥"@,
        CommandType::Clone => "⊕"@,
        CommandType::Init => "★"@,
        CommandType::Other => "•"@,
    }
}

impl CommandType {
    /// Parse command type from reflog message
    pub fn from_message(msg: &str) -> (res: Self)
        ensures
            res == message_kind(msg@),
    {
        let lower = to_lowercase(msg);
        CommandType::from_lowercase_message(lower.as_str())
    }

    /// The command type of a reflog message already in lower case.
    pub fn from_lowercase_message(lower: &str) -> (res: Self)
        ensures
            res == lowered_kind(lower@),
    {
        let m = chars_of(lower);
        if starts_with_chars(&m, "commit") {
            CommandType::Commit
        } else if starts_with_chars(&m, "checkout") {
            CommandType::Checkout
        } else if starts_with_chars(&m, "merge") {
            CommandType::Merge
        } else if starts_with_chars(&m, "rebase") {
            CommandType::Rebase
        } else if starts_with_chars(&m, "pull") {
            CommandType::Pull
        } else if starts_with_chars(&m, "reset") {
            CommandType::Reset
        } else if starts_with_chars(&m, "cherry-pick") {
            CommandType::CherryPick
        } else if starts_with_chars(&m, "revert") {
            CommandType::Revert
        } else if starts_with_chars(&m, "branch") {
            CommandType::Branch
        } else if starts_with_chars(&m, "clone") {
            CommandType::Clone
        } else if contains_chars(&m, "initial") {
            CommandType::Init
        } else {
            CommandType::Other
        }
    }

    /// Icon for this command type
    pub fn icon(self) -> (res: &'static str)
        ensures
            res@ == kind_icon(self),
            res@.len() > 0,
    {
        match self {
            CommandType::Commit => {
                proof {
                    reveal_strlit("●");
                }
                "●"
            },
            CommandType::Checkout => {
                proof {
                    reveal_strlit("⎇");
                }
                "⎇"
            },
            CommandType::Merge => {
                proof {
                    reveal_strlit("⑂");
                }
                "⑂"
            },
            CommandType::Rebase => {
                proof {
                    reveal_strlit("↺");
                }
                "↺"
            },
            CommandType::Pull => {
                proof {
                    reveal_strlit("↓");
                }
                "↓"
            },
            CommandType::Push => {
                proof {
                    reveal_strlit("↑");
                }
                "↑"
            },
            CommandType::Fetch => {
                proof {
                    reveal_strlit("⟳");
                }
                "⟳"
            },
            CommandType::Reset => {
                proof {
                    reveal_strlit("↩");
                }
                "↩"
            },
            CommandType::CherryPick => {
                proof {
                    reveal_strlit("❋");
                }
                "❋"
            },
            CommandType::Revert => {
                proof {
                    reveal_strlit("⊗");
                }
                "⊗"
            },
            CommandType::Stash => {
                proof {
                    reveal_strlit("□");
                }
                "□"
            },
            CommandType::Branch => {
                proof {
                    reveal_strlit("⌥");
                }
                "⌥"
            },
            CommandType::Clone => {
                proof {
                    reveal_strlit("⊕");
                }
                "⊕"
            },
            CommandType::Init => {
                proof {
                    reveal_strlit("★");
                }
                "★"
            },
            CommandType::Other => {
                proof {
                    reveal_strlit("•");
                }
                "•"
            },
        }
    }
}

} // verus!
