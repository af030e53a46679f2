//! The main view's decisions: which handler a key press reaches, what a key
//! does in the normal view, and where the selection of the main list moves.
//!
//! The list shows, row by row, the command line (row 0), the staged and the
//! working files, the history header, the commits of the open history page and
//! the commits of the open branch.  The decisions are taken on plain numbers;
//! the terminal layer reads the repository, performs what was decided and
//! builds the next layout.
use vstd::prelude::*;

use crate::actions::{AppAction, Context};
use crate::display::ViewMode;
use crate::input::keymap::{event_binding, keymap_lookup, KeyCode, KeyEvent, Keymap};
use crate::text::{owned, str_eq};

verus! {

/// Commits shown on one page of the history.
pub const PAGE_SIZE: usize = 50;

/// The rows of the main list.
#[derive(Debug, Clone, Copy, PartialEq, Eq, Structural)]
pub struct Layout {
    /// Staged and working files
    pub files: usize,
    /// Commits on the current history page
    pub history_len: usize,
    /// Whether the history section is folded
    pub history_collapsed: bool,
    /// Row of the first commit of the open branch
    pub branches_start: usize,
    /// Rows in all
    pub total: usize,
    /// Branches other than the current one
    pub other_branches: usize,
    /// The open branch, by its position among the other branches
    pub expanded_branch: Option<usize>,
    /// Commits listed for the open branch
    pub branch_commits: usize,
}

/// Row of the history header: after the command line and the files.
pub open spec fn header_row(l: Layout) -> int {
    1 + l.files
}

/// Rows that the open history page takes.
pub open spec fn history_rows(l: Layout) -> int {
    if l.history_collapsed {
        0
    } else {
        l.history_len as int
    }
}

/// Rows that the open branch takes.
pub open spec fn branch_rows(l: Layout) -> int {
    if l.expanded_branch is Some {
        l.branch_commits as int
    } else {
        0
    }
}

/// A layout whose row numbers can be computed without overflow.
pub open spec fn sound(l: Layout) -> bool {
    &&& l.files + l.history_len + 2 <= usize::MAX
    &&& l.branches_start + l.branch_commits <= usize::MAX
    &&& 1 <= l.branches_start
}

/// The layout that the main list shows for these contents: the branches
/// start after the history header and the open history page, and the open
/// branch's commits end the list.
pub open spec fn laid_out(l: Layout) -> bool {
    &&& l.branches_start == header_row(l) + 1 + history_rows(l)
    &&& l.total == l.branches_start + branch_rows(l)
}

impl Layout {
    /// The layout of a list with these contents; `None` when its rows could
    /// not be numbered in a `usize`.
    pub fn of(
        files: usize,
        history_len: usize,
        history_collapsed: bool,
        other_branches: usize,
        expanded_branch: Option<usize>,
        branch_commits: usize,
    ) -> (res: Option<Layout>)
        ensures
            res matches Some(l) ==> {
                &&& sound(l)
                &&& laid_out(l)
                &&& l.files == files
                &&& l.history_len == history_len
                &&& l.history_collapsed == history_collapsed
                &&& l.other_branches == other_branches
                &&& l.expanded_branch == expanded_branch
                &&& l.branch_commits == branch_commits
            },
            res is None <==> files + history_len + branch_commits + 2 > usize::MAX,
    {
        if files > usize::MAX - 2 || history_len > usize::MAX - 2 - files || branch_commits
            > usize::MAX - 2 - files - history_len {
            return None;
        }
        let open_rows: usize = if history_collapsed {
            0
        } else {
            history_len
        };
        let branches_start = files + 2 + open_rows;
        let total = if expanded_branch.is_some() {
            branches_start + branch_commits
        } else {
            branches_start
        };
        Some(
            Layout {
                files,
                history_len,
                history_collapsed,
                branches_start,
                total,
                other_branches,
                expanded_branch,
                branch_commits,
            },
        )
    }

    /// Row of the history header.
    pub fn history_header(&self) -> (res: usize)
        requires
            sound(*self),
        ensures
            res == header_row(*self),
    {
        1 + self.files
    }

    /// Whether the selection is on the history header.
    pub fn is_on_history_header(&self, selected: Option<usize>) -> (res: bool)
        requires
            sound(*self),
        ensures
            res == (selected matches Some(s) && s == header_row(*self)),
    {
        match selected {
            Some(s) => s == 1 + self.files,
            None => false,
        }
    }

    /// Which commit of the open history page is selected.
    pub fn history_commit_at(&self, selected: Option<usize>) -> (res: Option<usize>)
        requires
            sound(*self),
        ensures
            res == history_commit(*self, selected),
    {
        match selected {
            Some(s) => {
                let start = 2 + self.files;
                if !self.history_collapsed && s >= start && s - start < self.history_len {
                    Some(s - start)
                } else {
                    None
                }
            },
            None => None,
        }
    }

    /// Whether the selection is on a commit of the open history page.
    pub fn is_in_history(&self, selected: Option<usize>) -> (res: bool)
        requires
            sound(*self),
        ensures
            res == (history_commit(*self, selected) is Some),
    {
        self.history_commit_at(selected).is_some()
    }

    /// Which commit of the open branch is selected.
    pub fn branch_commit_at(&self, selected: Option<usize>) -> (res: Option<usize>)
        requires
            sound(*self),
        ensures
            res == branch_commit(*self, selected),
    {
        match (selected, self.expanded_branch) {
            (Some(s), Some(_)) => {
                if s >= self.branches_start && s - self.branches_start < self.branch_commits {
                    Some(s - self.branches_start)
                } else {
                    None
                }
            },
            _ => None,
        }
    }

    /// Whether the selection is on a commit of the open branch.
    pub fn is_in_branches(&self, selected: Option<usize>) -> (res: bool)
        requires
            sound(*self),
        ensures
            res == (branch_commit(*self, selected) is Some),
    {
        self.branch_commit_at(selected).is_some()
    }
}

/// The commit of the open history page on the selected row, by its position
/// on the page.
pub open spec fn history_commit(l: Layout, selected: Option<usize>) -> Option<usize> {
    match selected {
        Some(s) => if !l.history_collapsed && header_row(l) + 1 <= s < header_row(l) + 1
            + l.history_len {
            Some((s - header_row(l) - 1) as usize)
        } else {
            None
        },
        None => None,
    }
}

/// The commit of the open branch on the selected row, by its position in the
/// branch's list.
pub open spec fn branch_commit(l: Layout, selected: Option<usize>) -> Option<usize> {
    match selected {
        Some(s) => if l.expanded_branch is Some && l.branches_start <= s < l.branches_start
            + l.branch_commits {
            Some((s - l.branches_start) as usize)
        } else {
            None
        },
        None => None,
    }
}

/// The context of the selected row: the command line, a staged or a working
/// file (the staged files come first), the history header, a commit of the
/// open history page or of the open branch; `Global` elsewhere and with no
/// selection.
pub open spec fn row_context(l: Layout, staged: usize, selected: Option<usize>) -> Context {
    match selected {
        None => Context::Global,
        Some(s) => if s == 0 {
            Context::Command
        } else if s <= staged {
            Context::StagedFiles
        } else if s <= l.files {
            Context::WorkingFiles
        } else if s == header_row(l) {
            Context::HistoryHeader
        } else if history_commit(l, selected) is Some {
            Context::HistoryCommits
        } else if branch_commit(l, selected) is Some {
            Context::BranchCommits
        } else {
            Context::Global
        },
    }
}

/// The context the actions and keys of the main view are chosen by: the
/// command line while a command is typed; `Global` without a selection; the
/// open commit's files while one of them is selected; else the selected
/// row's context.
pub open spec fn view_context(
    l: Layout,
    staged: usize,
    selected: Option<usize>,
    command_mode: bool,
    commit_file_selected: bool,
) -> Context {
    if command_mode {
        Context::Command
    } else if selected is None {
        Context::Global
    } else if commit_file_selected {
        Context::CommitFiles
    } else {
        row_context(l, staged, selected)
    }
}

impl Layout {
    /// The context of the main view; `staged` of the layout's files are
    /// staged ones.
    pub fn current_context(
        &self,
        staged: usize,
        selected: Option<usize>,
        command_mode: bool,
        commit_file_selected: bool,
    ) -> (res: Context)
        requires
            sound(*self),
            staged <= self.files,
        ensures
            res == view_context(*self, staged, selected, command_mode, commit_file_selected),
    {
        if command_mode {
            return Context::Command;
        }
        let s = match selected {
            None => return Context::Global,
            Some(s) => s,
        };
        if commit_file_selected {
            Context::CommitFiles
        } else if s == 0 {
            Context::Command
        } else if s <= staged {
            Context::StagedFiles
        } else if s <= self.files {
            Context::WorkingFiles
        } else if s == 1 + self.files {
            Context::HistoryHeader
        } else if self.history_commit_at(selected).is_some() {
            Context::HistoryCommits
        } else if self.branch_commit_at(selected).is_some() {
            Context::BranchCommits
        } else {
            Context::Global
        }
    }
}

/// Where a step of the selection leads.
#[derive(Debug, Clone, Copy, PartialEq, Eq, Structural)]
pub enum Step {
    /// The selection stays on its row
    Stay,
    /// Select this row
    Select(usize),
    /// Open the history section (folding the open branch), then select this row
    OpenHistoryAt(usize),
    /// Open this branch, by its position among the other branches, then
    /// select its first commit
    OpenBranch(usize),
    /// Open this branch, then select its last commit
    OpenBranchAtEnd(usize),
}

/// A step of the selection, and whether the open commit closes with it.
#[derive(Debug, Clone, Copy, PartialEq, Eq, Structural)]
pub struct Move {
    /// The open commit's details close
    pub close_commit: bool,
    /// Where the selection goes
    pub step: Step,
}

/// The step down from the selected row.  From the last commit of the open
/// history page the first other branch opens; the history header is passed
/// over, opening the history, when the history has commits; from the last
/// commit of the open branch the next branch opens.
pub open spec fn next_move(l: Layout, selected: Option<usize>) -> Move {
    if l.total == 0 {
        Move { close_commit: false, step: Step::Stay }
    } else {
        match selected {
            None => Move { close_commit: false, step: Step::Select(0) },
            Some(idx) => Move {
                close_commit: true,
                step: if !l.history_collapsed && l.history_len > 0 && idx == header_row(l)
                    + l.history_len && l.other_branches > 0 {
                    Step::OpenBranch(0)
                } else if idx >= l.total - 1 {
                    Step::Stay
                } else if l.expanded_branch is Some && idx == l.branches_start + l.branch_commits
                    - 1 {
                    if l.expanded_branch.unwrap() + 1 < l.other_branches {
                        Step::OpenBranch((l.expanded_branch.unwrap() + 1) as usize)
                    } else {
                        Step::Stay
                    }
                } else if idx + 1 == header_row(l) && l.history_len > 0 {
                    Step::OpenHistoryAt((idx + 2) as usize)
                } else {
                    Step::Select((idx + 1) as usize)
                },
            },
        }
    }
}

/// The branch before the open one: the one before it among the other
/// branches, or the last of them when the open branch is not among them.
pub open spec fn branch_before(l: Layout) -> Option<usize> {
    let b = l.expanded_branch.unwrap();
    if b < l.other_branches {
        if b > 0 {
            Some((b - 1) as usize)
        } else {
            None
        }
    } else if l.other_branches > 0 {
        Some((l.other_branches - 1) as usize)
    } else {
        None
    }
}

/// The step up from the selected row.  From the first commit of the open
/// branch the branch before it opens at its last commit, or, before the first
/// branch, the history opens at its last commit; the history header is passed
/// over.
pub open spec fn prev_move(l: Layout, selected: Option<usize>) -> Move {
    match selected {
        Some(idx) => if idx > 0 {
            Move {
                close_commit: true,
                step: if l.expanded_branch is Some && idx == l.branches_start {
                    match branch_before(l) {
                        Some(p) => Step::OpenBranchAtEnd(p),
                        None => Step::OpenHistoryAt((header_row(l) + l.history_len) as usize),
                    }
                } else if idx - 1 == header_row(l) {
                    Step::Select((idx - 2) as usize)
                } else {
                    Step::Select((idx - 1) as usize)
                },
            }
        } else {
            Move { close_commit: false, step: Step::Stay }
        },
        None => Move { close_commit: false, step: Step::Stay },
    }
}

impl Layout {
    /// The step down from the selected row (`j` or Down).
    pub fn select_next(&self, selected: Option<usize>) -> (res: Move)
        requires
            sound(*self),
        ensures
            res == next_move(*self, selected),
    {
        let len = self.total;
        if len == 0 {
            return Move { close_commit: false, step: Step::Stay };
        }
        let idx = match selected {
            None => return Move { close_commit: false, step: Step::Select(0) },
            Some(idx) => idx,
        };
        let header = 1 + self.files;
        let on_last_history_commit = !self.history_collapsed && self.history_len > 0 && idx
            == header + self.history_len;
        if on_last_history_commit && self.other_branches > 0 {
            return Move { close_commit: true, step: Step::OpenBranch(0) };
        }
        if idx >= len - 1 {
            return Move { close_commit: true, step: Step::Stay };
        }
        if let Some(b) = self.expanded_branch {
            if idx == self.branches_start + self.branch_commits - 1 {
                if self.other_branches > 0 && b < self.other_branches - 1 {
                    return Move { close_commit: true, step: Step::OpenBranch(b + 1) };
                }
                return Move { close_commit: true, step: Step::Stay };
            }
        }
        let new_idx = idx + 1;
        if new_idx == header && self.history_len > 0 {
            Move { close_commit: true, step: Step::OpenHistoryAt(new_idx + 1) }
        } else {
            Move { close_commit: true, step: Step::Select(new_idx) }
        }
    }

    /// The step up from the selected row (`k` or Up).
    pub fn select_prev(&self, selected: Option<usize>) -> (res: Move)
        requires
            sound(*self),
        ensures
            res == prev_move(*self, selected),
    {
        let idx = match selected {
            Some(idx) if idx > 0 => idx,
            _ => return Move { close_commit: false, step: Step::Stay },
        };
        let header = 1 + self.files;
        if let Some(b) = self.expanded_branch {
            if idx == self.branches_start {
                let before = if b < self.other_branches {
                    if b > 0 {
                        Some(b - 1)
                    } else {
                        None
                    }
                } else if self.other_branches > 0 {
                    Some(self.other_branches - 1)
                } else {
                    None
                };
                let step = match before {
                    Some(p) => Step::OpenBranchAtEnd(p),
                    None => Step::OpenHistoryAt(header + self.history_len),
                };
                return Move { close_commit: true, step };
            }
        }
        let new_idx = idx - 1;
        if new_idx == header {
            Move { close_commit: true, step: Step::Select(new_idx - 1) }
        } else {
            Move { close_commit: true, step: Step::Select(new_idx) }
        }
    }

    /// The first row (`g`).
    pub fn select_first(&self) -> (res: Move)
        ensures
            res == (Move { close_commit: true, step: Step::Select(0) }),
    {
        Move { close_commit: true, step: Step::Select(0) }
    }

    /// The last row (`G`); nothing in an empty list.
    pub fn select_last(&self) -> (res: Move)
        ensures
            res == (if self.total > 0 {
                Move { close_commit: true, step: Step::Select((self.total - 1) as usize) }
            } else {
                Move { close_commit: false, step: Step::Stay }
            }),
    {
        if self.total > 0 {
            Move { close_commit: true, step: Step::Select(self.total - 1) }
        } else {
            Move { close_commit: false, step: Step::Stay }
        }
    }

    /// The first file, when there are files.
    pub fn jump_to_working(&self) -> (res: Move)
        ensures
            res == (if self.files > 0 {
                Move { close_commit: true, step: Step::Select(1) }
            } else {
                Move { close_commit: false, step: Step::Stay }
            }),
    {
        if self.files > 0 {
            Move { close_commit: true, step: Step::Select(1) }
        } else {
            Move { close_commit: false, step: Step::Stay }
        }
    }

    /// The most recent commit of the history, opening it, when it has commits.
    pub fn jump_to_history(&self) -> (res: Move)
        requires
            sound(*self),
        ensures
            res == (if self.history_len > 0 {
                Move { close_commit: true, step: Step::OpenHistoryAt((header_row(*self) + 1) as usize) }
            } else {
                Move { close_commit: false, step: Step::Stay }
            }),
    {
        if self.history_len > 0 {
            Move { close_commit: true, step: Step::OpenHistoryAt(2 + self.files) }
        } else {
            Move { close_commit: false, step: Step::Stay }
        }
    }

    /// The first commit of the first other branch, opening it, when there is one.
    pub fn jump_to_branches(&self) -> (res: Move)
        ensures
            res == (if self.other_branches > 0 {
                Move { close_commit: true, step: Step::OpenBranch(0) }
            } else {
                Move { close_commit: false, step: Step::Stay }
            }),
    {
        if self.other_branches > 0 {
            Move { close_commit: true, step: Step::OpenBranch(0) }
        } else {
            Move { close_commit: false, step: Step::Stay }
        }
    }

    /// The row of the first commit of the history page, when it has commits.
    pub fn first_history_commit(&self) -> (res: Option<usize>)
        requires
            sound(*self),
        ensures
            res == (if self.history_len > 0 {
                Some((header_row(*self) + 1) as usize)
            } else {
                None
            }),
    {
        if self.history_len > 0 {
            Some(2 + self.files)
        } else {
            None
        }
    }

    /// The row of the last commit of the open branch (its first row when it
    /// lists none).
    pub fn last_branch_row(&self) -> (res: usize)
        requires
            sound(*self),
        ensures
            res == self.branches_start + self.branch_commits - 1,
    {
        self.branches_start + self.branch_commits - 1
    }

    /// The selection brought back into the list after its rows changed: none
    /// in an empty list, the last row when it fell past the end.
    pub fn clamp(&self, selected: Option<usize>) -> (res: Option<usize>)
        ensures
            res == clamped(*self, selected),
    {
        match selected {
            Some(idx) => {
                if self.total == 0 {
                    None
                } else if idx >= self.total {
                    Some(self.total - 1)
                } else {
                    Some(idx)
                }
            },
            None => None,
        }
    }
}

/// The selection brought back into the list: none in an empty list, the last
/// row when it fell past the end.
pub open spec fn clamped(l: Layout, selected: Option<usize>) -> Option<usize> {
    match selected {
        Some(idx) => if l.total == 0 {
            None
        } else if idx >= l.total {
            Some((l.total - 1) as usize)
        } else {
            Some(idx)
        },
        None => None,
    }
}

/// The row selected when the monitor starts: the first working file, else
/// the first staged file, else the command line.
pub fn default_selection(staged: usize, working: usize) -> (res: usize)
    requires
        staged < usize::MAX,
    ensures
        res == (if working > 0 {
            1 + staged
        } else if staged > 0 {
            1
        } else {
            0
        }),
{
    if working > 0 {
        1 + staged
    } else if staged > 0 {
        1
    } else {
        0
    }
}

/// The next history page, when the current one is full.
pub fn next_page(page: usize, history_len: usize) -> (res: Option<usize>)
    requires
        page < usize::MAX,
    ensures
        res == (if history_len >= PAGE_SIZE {
            Some((page + 1) as usize)
        } else {
            None
        }),
{
    if history_len >= PAGE_SIZE {
        Some(page + 1)
    } else {
        None
    }
}

/// The previous history page, when there is one.
pub fn prev_page(page: usize) -> (res: Option<usize>)
    ensures
        res == (if page > 0 {
            Some((page - 1) as usize)
        } else {
            None
        }),
{
    if page > 0 {
        Some(page - 1)
    } else {
        None
    }
}

/// A step within the files of the open commit.
#[derive(Debug, Clone, Copy, PartialEq, Eq, Structural)]
pub enum FileStep {
    /// Select this file, or the commit's own row for `None`
    To(Option<usize>),
    /// Leave the commit: no file is selected and the list takes the step
    Leave,
}

/// The step down within the open commit, whose details list `count` files.
pub open spec fn file_down(file: Option<usize>, count: usize) -> FileStep {
    match file {
        None => if count > 0 {
            FileStep::To(Some(0))
        } else {
            FileStep::Leave
        },
        Some(i) => if i + 1 < count {
            FileStep::To(Some((i + 1) as usize))
        } else {
            FileStep::Leave
        },
    }
}

/// The step up within the open commit.
pub open spec fn file_up(file: Option<usize>) -> FileStep {
    match file {
        Some(i) => if i == 0 {
            FileStep::To(None)
        } else {
            FileStep::To(Some((i - 1) as usize))
        },
        None => FileStep::Leave,
    }
}

/// The step down within the open commit (`j` or Down on it).
pub fn open_file_down(file: Option<usize>, count: usize) -> (res: FileStep)
    ensures
        res == file_down(file, count),
{
    match file {
        None => {
            if count > 0 {
                FileStep::To(Some(0))
            } else {
                FileStep::Leave
            }
        },
        Some(i) => {
            if i < count && count - i > 1 {
                FileStep::To(Some(i + 1))
            } else {
                FileStep::Leave
            }
        },
    }
}

/// The step up within the open commit (`k` or Up on it).
pub fn open_file_up(file: Option<usize>) -> (res: FileStep)
    ensures
        res == file_up(file),
{
    match file {
        Some(i) => {
            if i == 0 {
                FileStep::To(None)
            } else {
                FileStep::To(Some(i - 1))
            }
        },
        None => FileStep::Leave,
    }
}

/// Who handles a key press.
#[derive(Debug, Clone, Copy, PartialEq, Eq, Structural)]
pub enum KeyRoute {
    /// The open menu
    Menu,
    /// The command line, while a command is typed
    CommandLine,
    /// The open popup
    Popup,
    /// The help overlay, which the key closes
    DismissHelp,
    /// The main list
    Normal,
}

/// An open menu takes every key; then the command line while a command is
/// typed, then an open popup, then the help overlay; the main list gets the
/// rest.
pub open spec fn key_route(menu_active: bool, command_mode: bool, popup_open: bool, show_help: bool) -> KeyRoute {
    if menu_active {
        KeyRoute::Menu
    } else if command_mode {
        KeyRoute::CommandLine
    } else if popup_open {
        KeyRoute::Popup
    } else if show_help {
        KeyRoute::DismissHelp
    } else {
        KeyRoute::Normal
    }
}

/// Who handles a key press, from what is open.
pub fn route_key(menu_active: bool, view_mode: ViewMode, popup_open: bool, show_help: bool) -> (res: KeyRoute)
    ensures
        res == key_route(menu_active, view_mode == ViewMode::Command, popup_open, show_help),
{
    if menu_active {
        KeyRoute::Menu
    } else if view_mode == ViewMode::Command {
        KeyRoute::CommandLine
    } else if popup_open {
        KeyRoute::Popup
    } else if show_help {
        KeyRoute::DismissHelp
    } else {
        KeyRoute::Normal
    }
}

/// What the main view knows of the selection when a key comes.
#[derive(Debug, Clone, Copy, PartialEq, Eq, Structural)]
pub struct Focus {
    /// The command line (row 0) is selected
    pub on_command: bool,
    /// A staged or working file is selected
    pub on_file: bool,
    /// The history header is selected
    pub on_history_header: bool,
    /// A commit of the open history page is selected
    pub in_history: bool,
    /// A commit of the open branch is selected
    pub in_branches: bool,
    /// The history section is folded
    pub history_collapsed: bool,
    /// Commits on the current history page
    pub history_len: usize,
    /// A commit (of the history or of the open branch) is selected
    pub on_commit: bool,
    /// The selected commit is the one whose details are open
    pub on_open_commit: bool,
    /// The open commit's details were read
    pub open_detail: bool,
    /// A commit's details are open
    pub commit_open: bool,
    /// The file selected within the open commit
    pub open_file: Option<usize>,
    /// Files in the open commit's details
    pub open_file_count: usize,
    /// The command history holds commands
    pub has_history: bool,
    /// The last command left output
    pub has_output: bool,
}

/// What a key does in the main list.
#[derive(Debug, Clone, Copy, PartialEq, Eq, Structural)]
pub enum KeyCommand {
    /// Perform this action
    Run(AppAction),
    /// Open the command line and type this character into it
    TypeChar(char),
    /// Open the command line with the previous command of the history
    RecallHistory,
    /// Open the menu of the actions of the current context
    OpenActionMenu,
    /// Select the first row
    SelectFirst,
    /// Select the last row
    SelectLast,
    /// Step the selection down
    SelectNext,
    /// Step the selection up
    SelectPrev,
    /// Select this file of the open commit, or its own row for `None`
    OpenFile(Option<usize>),
    /// Clear the file selection of the open commit and step down
    LeaveCommitDown,
    /// Unfold the history section
    ExpandHistory,
    /// Fold the history section
    CollapseHistory,
    /// Close the open commit's details
    CollapseCommit,
    /// Copy the selected commit's short SHA
    CopyShortSha,
    /// Copy the open commit's full SHA
    CopyFullSha,
    /// Show the last command's output in a popup
    OpenOutput,
    /// Nothing
    Nothing,
}

/// The SHA that "copy full SHA" copies for the selected commit: the open
/// commit's full SHA when the selected commit is the open one and its details
/// were read, else the selected commit's short SHA.
pub open spec fn full_sha_choice(
    selected: Seq<char>,
    open_commit: Option<Seq<char>>,
    open_full_sha: Option<Seq<char>>,
) -> Seq<char> {
    if open_commit == Some(selected) && open_full_sha is Some {
        open_full_sha.unwrap()
    } else {
        selected
    }
}

/// The SHA that "copy full SHA" copies for the selected commit `selected`
/// (a short SHA), given the open commit and its full SHA when its details
/// were read.
pub fn sha_to_copy(selected: &str, open_commit: Option<&str>, open_full_sha: Option<&str>) -> (res:
    String)
    ensures
        res@ == full_sha_choice(
            selected@,
            match open_commit {
                Some(c) => Some(c@),
                None => None,
            },
            match open_full_sha {
                Some(f) => Some(f@),
                None => None,
            },
        ),
{
    match (open_commit, open_full_sha) {
        (Some(c), Some(full)) => {
            if str_eq(c, selected) {
                owned(full)
            } else {
                owned(selected)
            }
        },
        _ => owned(selected),
    }
}

/// A key on the command line row that types itself into the command line:
/// a character other than `q`, `?`, `:` and `o`, without Ctrl.
pub open spec fn types_into_command(key: KeyEvent) -> bool {
    key.code matches KeyCode::Char(c) && c != 'q' && c != '?' && c != ':' && c != 'o'
        && !key.modifiers.control
}

/// What a key does in the main list when the keymap binds nothing to it.
pub open spec fn unbound_command(key: KeyEvent, f: Focus) -> KeyCommand {
    match key.code {
        KeyCode::Esc => KeyCommand::Run(AppAction::Quit),
        KeyCode::Enter => if f.on_command {
            KeyCommand::Run(AppAction::EnterCommandMode)
        } else if f.in_branches {
            KeyCommand::Run(AppAction::Checkout)
        } else {
            KeyCommand::Run(AppAction::ShowDiff)
        },
        KeyCode::Down => down_command(f),
        KeyCode::Up => up_command(f),
        KeyCode::Char(c) => char_command(c, key.modifiers.control, f),
        _ => KeyCommand::Nothing,
    }
}

/// Down (or `j`): within the open commit's files while it is selected, else
/// a step down the list.
pub open spec fn down_command(f: Focus) -> KeyCommand {
    if f.on_open_commit {
        match file_down(f.open_file, f.open_file_count) {
            FileStep::To(i) => KeyCommand::OpenFile(i),
            FileStep::Leave => KeyCommand::LeaveCommitDown,
        }
    } else {
        KeyCommand::SelectNext
    }
}

/// Up (or `k`): on the command line with a history, the previous command;
/// within the open commit's files while it is selected; else a step up.
pub open spec fn up_command(f: Focus) -> KeyCommand {
    if f.on_command && f.has_history {
        KeyCommand::RecallHistory
    } else if f.on_open_commit {
        match file_up(f.open_file) {
            FileStep::To(i) => KeyCommand::OpenFile(i),
            FileStep::Leave => KeyCommand::SelectPrev,
        }
    } else {
        KeyCommand::SelectPrev
    }
}

/// What a character key does in the main list when nothing binds it.
pub open spec fn char_command(c: char, control: bool, f: Focus) -> KeyCommand {
    if c == 'q' {
        KeyCommand::Run(AppAction::Quit)
    } else if c == 'c' && control {
        KeyCommand::Run(AppAction::Quit)
    } else if c == ':' {
        KeyCommand::Run(AppAction::EnterCommandMode)
    } else if c == 'a' {
        KeyCommand::Run(AppAction::BrowseAliases)
    } else if c == 'm' {
        KeyCommand::OpenActionMenu
    } else if c == '?' {
        KeyCommand::Run(AppAction::ShowHelp)
    } else if c == 'r' {
        KeyCommand::Run(AppAction::Refresh)
    } else if c == 'h' {
        if f.in_history {
            KeyCommand::Run(AppAction::ToggleHistoryMode)
        } else {
            KeyCommand::Run(AppAction::JumpToHistory)
        }
    } else if c == ']' {
        if (f.in_history || f.on_history_header) && f.history_len >= PAGE_SIZE {
            KeyCommand::Run(AppAction::NextPage)
        } else {
            KeyCommand::Nothing
        }
    } else if c == '[' {
        if f.in_history || f.on_history_header {
            KeyCommand::Run(AppAction::PrevPage)
        } else {
            KeyCommand::Nothing
        }
    } else if c == 'g' {
        KeyCommand::SelectFirst
    } else if c == 'b' {
        KeyCommand::Run(AppAction::JumpToBranches)
    } else if c == 'w' {
        KeyCommand::Run(AppAction::JumpToWorking)
    } else if c == 's' {
        KeyCommand::Run(AppAction::ToggleStage)
    } else if c == 'P' {
        KeyCommand::Run(AppAction::Push)
    } else if c == 'p' {
        KeyCommand::Run(AppAction::Pull)
    } else if c == 'f' {
        KeyCommand::Run(AppAction::Fetch)
    } else if c == 'd' {
        if f.commit_open && f.open_file is Some {
            KeyCommand::Run(AppAction::InlineDiff)
        } else {
            KeyCommand::Run(AppAction::ShowDiff)
        }
    } else if c == 'M' {
        if f.on_file {
            KeyCommand::Run(AppAction::FileDiffTool)
        } else if f.commit_open && f.open_file is Some {
            KeyCommand::Run(AppAction::DiffTool)
        } else {
            KeyCommand::Nothing
        }
    } else if c == 'j' {
        down_command(f)
    } else if c == 'k' {
        up_command(f)
    } else if c == 'G' {
        KeyCommand::SelectLast
    } else if c == 'y' {
        if f.on_commit {
            KeyCommand::CopyShortSha
        } else {
            KeyCommand::Nothing
        }
    } else if c == 'c' {
        if !f.on_commit {
            KeyCommand::Nothing
        } else if f.open_detail && f.on_open_commit {
            KeyCommand::CopyFullSha
        } else {
            KeyCommand::CopyShortSha
        }
    } else if c == 'R' {
        if f.in_history {
            KeyCommand::Run(AppAction::InteractiveRebase)
        } else {
            KeyCommand::Nothing
        }
    } else if c == ' ' {
        space_command(f)
    } else if c == 'o' {
        if f.on_command && f.has_output {
            KeyCommand::OpenOutput
        } else {
            KeyCommand::Nothing
        }
    } else {
        KeyCommand::Nothing
    }
}

/// Space: a file's diff in the pager; on the history header, fold or unfold
/// the history; on a commit, its details open, or close, or, with a file of
/// the open commit selected, that file's diff goes to the pager.
pub open spec fn space_command(f: Focus) -> KeyCommand {
    if f.on_file {
        KeyCommand::Run(AppAction::FilePagerDiff)
    } else if f.on_history_header {
        if f.history_collapsed {
            KeyCommand::ExpandHistory
        } else {
            KeyCommand::CollapseHistory
        }
    } else if f.on_commit {
        if f.on_open_commit {
            if f.open_file is Some {
                KeyCommand::Run(AppAction::PagerDiff)
            } else {
                KeyCommand::CollapseCommit
            }
        } else {
            KeyCommand::Run(AppAction::ExpandCommit)
        }
    } else {
        KeyCommand::Nothing
    }
}

/// What a key does in the main list: what the keymap binds to it in the
/// context, first; on the command line row a character types itself into
/// the command line; else the main list's own keys.
pub open spec fn normal_command(key: KeyEvent, bound: Option<AppAction>, f: Focus) -> KeyCommand {
    match bound {
        Some(action) => KeyCommand::Run(action),
        None => if f.on_command && types_into_command(key) {
            KeyCommand::TypeChar(key.code->Char_0)
        } else {
            unbound_command(key, f)
        },
    }
}

/// What a key does in the main list, in the given context.
pub fn normal_key(key: KeyEvent, keymap: &Keymap, context: Context, focus: &Focus) -> (res: KeyCommand)
    ensures
        res == normal_command(key, keymap_lookup(keymap@, event_binding(key), context), *focus),
{
    if let Some(action) = keymap.lookup(key, context) {
        return KeyCommand::Run(action);
    }
    if focus.on_command {
        if let KeyCode::Char(c) = key.code {
            if c != 'q' && c != '?' && c != ':' && c != 'o' && !key.modifiers.control {
                return KeyCommand::TypeChar(c);
            }
        }
    }
    match key.code {
        KeyCode::Esc => KeyCommand::Run(AppAction::Quit),
        KeyCode::Enter => {
            if focus.on_command {
                KeyCommand::Run(AppAction::EnterCommandMode)
            } else if focus.in_branches {
                KeyCommand::Run(AppAction::Checkout)
            } else {
                KeyCommand::Run(AppAction::ShowDiff)
            }
        },
        KeyCode::Down => down_key(focus),
        KeyCode::Up => up_key(focus),
        KeyCode::Char(c) => char_key(c, key.modifiers.control, focus),
        _ => KeyCommand::Nothing,
    }
}

fn down_key(f: &Focus) -> (res: KeyCommand)
    ensures
        res == down_command(*f),
{
    if f.on_open_commit {
        match open_file_down(f.open_file, f.open_file_count) {
            FileStep::To(i) => KeyCommand::OpenFile(i),
            FileStep::Leave => KeyCommand::LeaveCommitDown,
        }
    } else {
        KeyCommand::SelectNext
    }
}

fn up_key(f: &Focus) -> (res: KeyCommand)
    ensures
        res == up_command(*f),
{
    if f.on_command && f.has_history {
        KeyCommand::RecallHistory
    } else if f.on_open_commit {
        match open_file_up(f.open_file) {
            FileStep::To(i) => KeyCommand::OpenFile(i),
            FileStep::Leave => KeyCommand::SelectPrev,
        }
    } else {
        KeyCommand::SelectPrev
    }
}

fn space_key(f: &Focus) -> (res: KeyCommand)
    ensures
        res == space_command(*f),
{
    if f.on_file {
        KeyCommand::Run(AppAction::FilePagerDiff)
    } else if f.on_history_header {
        if f.history_collapsed {
            KeyCommand::ExpandHistory
        } else {
            KeyCommand::CollapseHistory
        }
    } else if f.on_commit {
        if f.on_open_commit {
            if f.open_file.is_some() {
                KeyCommand::Run(AppAction::PagerDiff)
            } else {
                KeyCommand::CollapseCommit
            }
        } else {
            KeyCommand::Run(AppAction::ExpandCommit)
        }
    } else {
        KeyCommand::Nothing
    }
}

fn char_key(c: char, control: bool, f: &Focus) -> (res: KeyCommand)
    ensures
        res == char_command(c, control, *f),
{
    if c == 'q' {
        KeyCommand::Run(AppAction::Quit)
    } else if c == 'c' && control {
        KeyCommand::Run(AppAction::Quit)
    } else if c == ':' {
        KeyCommand::Run(AppAction::EnterCommandMode)
    } else if c == 'a' {
        KeyCommand::Run(AppAction::BrowseAliases)
    } else if c == 'm' {
        KeyCommand::OpenActionMenu
    } else if c == '?' {
        KeyCommand::Run(AppAction::ShowHelp)
    } else if c == 'r' {
        KeyCommand::Run(AppAction::Refresh)
    } else if c == 'h' {
        if f.in_history {
            KeyCommand::Run(AppAction::ToggleHistoryMode)
        } else {
            KeyCommand::Run(AppAction::JumpToHistory)
        }
    } else if c == ']' {
        if (f.in_history || f.on_history_header) && f.history_len >= PAGE_SIZE {
            KeyCommand::Run(AppAction::NextPage)
        } else {
            KeyCommand::Nothing
        }
    } else if c == '[' {
        if f.in_history || f.on_history_header {
            KeyCommand::Run(AppAction::PrevPage)
        } else {
            KeyCommand::Nothing
        }
    } else if c == 'g' {
        KeyCommand::SelectFirst
    } else if c == 'b' {
        KeyCommand::Run(AppAction::JumpToBranches)
    } else if c == 'w' {
        KeyCommand::Run(AppAction::JumpToWorking)
    } else if c == 's' {
        KeyCommand::Run(AppAction::ToggleStage)
    } else if c == 'P' {
        KeyCommand::Run(AppAction::Push)
    } else if c == 'p' {
        KeyCommand::Run(AppAction::Pull)
    } else if c == 'f' {
        KeyCommand::Run(AppAction::Fetch)
    } else if c == 'd' {
        if f.commit_open && f.open_file.is_some() {
            KeyCommand::Run(AppAction::InlineDiff)
        } else {
            KeyCommand::Run(AppAction::ShowDiff)
        }
    } else if c == 'M' {
        if f.on_file {
            KeyCommand::Run(AppAction::FileDiffTool)
        } else if f.commit_open && f.open_file.is_some() {
            KeyCommand::Run(AppAction::DiffTool)
        } else {
            KeyCommand::Nothing
        }
    } else if c == 'j' {
        down_key(f)
    } else if c == 'k' {
        up_key(f)
    } else if c == 'G' {
        KeyCommand::SelectLast
    } else if c == 'y' {
        if f.on_commit {
            KeyCommand::CopyShortSha
        } else {
            KeyCommand::Nothing
        }
    } else if c == 'c' {
        if !f.on_commit {
            KeyCommand::Nothing
        } else if f.open_detail && f.on_open_commit {
            KeyCommand::CopyFullSha
        } else {
            KeyCommand::CopyShortSha
        }
    } else if c == 'R' {
        if f.in_history {
            KeyCommand::Run(AppAction::InteractiveRebase)
        } else {
            KeyCommand::Nothing
        }
    } else if c == ' ' {
        space_key(f)
    } else if c == 'o' {
        if f.on_command && f.has_output {
            KeyCommand::OpenOutput
        } else {
            KeyCommand::Nothing
        }
    } else {
        KeyCommand::Nothing
    }
}

/// An open menu takes every key, whatever else is open; the main list gets
/// a key only when nothing is open.
pub proof fn lemma_route_priority(command_mode: bool, popup_open: bool, show_help: bool)
    ensures
        key_route(true, command_mode, popup_open, show_help) == KeyRoute::Menu,
        key_route(false, command_mode, popup_open, show_help) == KeyRoute::Normal <==> (
        !command_mode && !popup_open && !show_help),
{
}

/// A key that the keymap binds in the context runs the bound action,
/// wherever the selection stands.
pub proof fn lemma_keymap_first(key: KeyEvent, action: AppAction, f: Focus)
    ensures
        normal_command(key, Some(action), f) == KeyCommand::Run(action),
{
}

/// On the command line row, a character other than `q`, `?`, `:` and `o`,
/// typed without Ctrl and bound to nothing, opens the command line with that
/// character.
pub proof fn lemma_typing_opens_command_line(c: char, key: KeyEvent, f: Focus)
    requires
        f.on_command,
        key.code == KeyCode::Char(c),
        !key.modifiers.control,
        c != 'q' && c != '?' && c != ':' && c != 'o',
    ensures
        normal_command(key, None, f) == KeyCommand::TypeChar(c),
{
}

/// Stepping down or up never lands on the history header while the history
/// has commits.
pub proof fn lemma_steps_skip_header(l: Layout, selected: Option<usize>, r: usize)
    requires
        sound(l),
    ensures
        next_move(l, selected).step == Step::Select(r) && r == header_row(l) ==> l.history_len
            == 0,
        prev_move(l, selected).step == Step::Select(r) ==> r != header_row(l),
{
}

/// A step down or up from a row of the list selects a row of the list.
pub proof fn lemma_steps_stay_in_list(l: Layout, idx: usize, r: usize)
    requires
        sound(l),
        laid_out(l),
        idx < l.total,
    ensures
        next_move(l, Some(idx)).step == Step::Select(r) ==> r < l.total,
        prev_move(l, Some(idx)).step == Step::Select(r) ==> r < l.total,
{
}

/// Among the command line and the files, a step down followed by a step up
/// comes back to the same row.
pub proof fn lemma_down_then_up(l: Layout, idx: usize)
    requires
        sound(l),
        laid_out(l),
        idx + 1 < header_row(l),
    ensures
        next_move(l, Some(idx)).step == Step::Select((idx + 1) as usize),
        prev_move(l, Some((idx + 1) as usize)).step == Step::Select(idx),
{
}

/// Within the files of the open commit, a step down followed by a step up
/// comes back to the same place.
pub proof fn lemma_file_down_then_up(file: Option<usize>, count: usize)
    requires
        file_down(file, count) is To,
    ensures
        file_up(file_down(file, count)->To_0) == FileStep::To(file),
{
}

/// A clamped selection is a row of the list, and clamping it again leaves it.
pub proof fn lemma_clamp_in_list(l: Layout, selected: Option<usize>)
    ensures
        ({
            let c = clamped(l, selected);
            &&& c matches Some(r) ==> r < l.total
            &&& clamped(l, c) == c
        }),
{
}

} // verus!
