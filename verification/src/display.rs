//! What the screen shows: the modes of the main view and the text of a file
//! entry.  Colours and layout are the terminal layer's business.
use vstd::prelude::*;

use crate::actions::{Action, ActionType, AppAction};
use crate::git::types::state_char;
use crate::git::FileState;
use crate::text::{chars_of, decimal, owned, push_char, push_decimal, starts_with, starts_with_chars, str_eq};

verus! {

/// History display mode
#[derive(Debug, Clone, Copy, PartialEq, Eq, Structural)]
pub enum HistoryMode {
    /// Show reflog (git actions)
    Reflog,
    /// Show commit log
    CommitLog,
}

impl Default for HistoryMode {
    fn default() -> (res: Self)
        ensures
            res == HistoryMode::CommitLog,
    {
        HistoryMode::CommitLog
    }
}

/// The other history mode.
pub open spec fn other_mode(m: HistoryMode) -> HistoryMode {
    match m {
        HistoryMode::Reflog => HistoryMode::CommitLog,
        HistoryMode::CommitLog => HistoryMode::Reflog,
    }
}

/// Toggling the history mode twice comes back to the same mode, and a toggle
/// always changes it.
pub proof fn lemma_toggle_history_twice(m: HistoryMode)
    ensures
        other_mode(other_mode(m)) == m,
        other_mode(m) != m,
{
}

impl HistoryMode {
    /// The other mode: the log after the reflog and the reflog after the log.
    pub fn toggled(self) -> (res: Self)
        ensures
            res == other_mode(self),
    {
        match self {
            HistoryMode::Reflog => HistoryMode::CommitLog,
            HistoryMode::CommitLog => HistoryMode::Reflog,
        }
    }
}

/// View mode for the application body
#[derive(Debug, Clone, Copy, PartialEq, Eq, Structural)]
pub enum ViewMode {
    /// Normal navigation mode (default)
    Normal,
    /// Command input mode (typing git commands)
    Command,
}

impl Default for ViewMode {
    fn default() -> (res: Self)
        ensures
            res == ViewMode::Normal,
    {
        ViewMode::Normal
    }
}

/// View struct for rendering a file entry
#[derive(Debug)]
pub struct FileEntryView<'a> {
    /// File path to display
    pub path: &'a str,
    /// File status (M, A, D, etc.)
    pub status: FileState,
    /// Lines inserted
    pub insertions: usize,
    /// Lines deleted
    pub deletions: usize,
}

/// The line counts of a change: `+N` for insertions, `-M` for deletions,
/// joined by `/` when there are both; empty when there are none.
pub open spec fn stats_text(insertions: nat, deletions: nat) -> Seq<char> {
    (if insertions > 0 {
        "+"@ + decimal(insertions)
    } else {
        Seq::empty()
    }) + (if insertions > 0 && deletions > 0 {
        "/"@
    } else {
        Seq::empty()
    }) + (if deletions > 0 {
        "-"@ + decimal(deletions)
    } else {
        Seq::empty()
    })
}

/// The text of a file entry line: the selection prefix, the indicator, the
/// status letter and the path, then two spaces and the line counts when
/// there are changes.
pub open spec fn entry_text(
    selected: bool,
    indicator: Seq<char>,
    status: FileState,
    path: Seq<char>,
    insertions: nat,
    deletions: nat,
) -> Seq<char> {
    (if selected {
        "▸ "@
    } else {
        "  "@
    }) + indicator + seq![state_char(status), ' '] + path + (if insertions > 0 || deletions
        > 0 {
        "  "@ + stats_text(insertions, deletions)
    } else {
        Seq::empty()
    })
}

impl<'a> FileEntryView<'a> {
    /// The line counts of the entry (`+5/-2`), empty without changes.
    pub fn stats_label(&self) -> (res: String)
        ensures
            res@ == stats_text(self.insertions as nat, self.deletions as nat),
    {
        let mut out = String::new();
        proof {
            reveal_strlit("+");
            reveal_strlit("/");
            reveal_strlit("-");
        }
        if self.insertions > 0 {
            push_char(&mut out, '+');
            push_decimal(&mut out, self.insertions as u64);
        }
        if self.insertions > 0 && self.deletions > 0 {
            push_char(&mut out, '/');
        }
        if self.deletions > 0 {
            push_char(&mut out, '-');
            push_decimal(&mut out, self.deletions as u64);
        }
        assert(out@ =~= stats_text(self.insertions as nat, self.deletions as nat));
        out
    }

    /// The whole text of the entry's line, as the file lists show it.
    pub fn line_text(&self, selected: bool, indicator: &str) -> (res: String)
        ensures
            res@ == entry_text(
                selected,
                indicator@,
                self.status,
                self.path@,
                self.insertions as nat,
                self.deletions as nat,
            ),
    {
        let mut out = if selected {
            owned("▸ ")
        } else {
            owned("  ")
        };
        out.append(indicator);
        push_char(&mut out, self.status.as_char());
        push_char(&mut out, ' ');
        out.append(self.path);
        if self.insertions > 0 || self.deletions > 0 {
            out.append("  ");
            let stats = self.stats_label();
            out.append(stats.as_str());
        }
        proof {
            reveal_strlit("  ");
        }
        assert(out@ =~= entry_text(
            selected,
            indicator@,
            self.status,
            self.path@,
            self.insertions as nat,
            self.deletions as nat,
        ));
        out
    }
}

// ---------------------------------------------------------------------------
// Popup lines
// ---------------------------------------------------------------------------

/// How a line of a diff is shown.
#[derive(Debug, Clone, Copy, PartialEq, Eq, Structural)]
pub enum DiffLineKind {
    /// An added line (`+`, but not the `+++` file header)
    Added,
    /// A removed line (`-`, but not the `---` file header)
    Removed,
    /// A hunk header (`@@`)
    Hunk,
    /// A file header (`diff ...` or `index ...`)
    Header,
    /// Anything else
    Context,
}

/// The kind of a diff line.
pub open spec fn diff_kind(line: Seq<char>) -> DiffLineKind {
    if starts_with(line, "+"@) && !starts_with(line, "+++"@) {
        DiffLineKind::Added
    } else if starts_with(line, "-"@) && !starts_with(line, "---"@) {
        DiffLineKind::Removed
    } else if starts_with(line, "@@"@) {
        DiffLineKind::Hunk
    } else if starts_with(line, "diff"@) || starts_with(line, "index"@) {
        DiffLineKind::Header
    } else {
        DiffLineKind::Context
    }
}

/// The kind of a diff line, which decides its colour.
pub fn diff_line_kind(line: &str) -> (res: DiffLineKind)
    ensures
        res == diff_kind(line@),
{
    let v = chars_of(line);
    if starts_with_chars(&v, "+") && !starts_with_chars(&v, "+++") {
        DiffLineKind::Added
    } else if starts_with_chars(&v, "-") && !starts_with_chars(&v, "---") {
        DiffLineKind::Removed
    } else if starts_with_chars(&v, "@@") {
        DiffLineKind::Hunk
    } else if starts_with_chars(&v, "diff") || starts_with_chars(&v, "index") {
        DiffLineKind::Header
    } else {
        DiffLineKind::Context
    }
}

/// A line with each tab replaced by four spaces.
pub open spec fn tabs_expanded(line: Seq<char>) -> Seq<char>
    decreases line.len(),
{
    if line.len() == 0 {
        seq![]
    } else {
        tabs_expanded(line.drop_last()) + if line.last() == '\t' {
            seq![' ', ' ', ' ', ' ']
        } else {
            seq![line.last()]
        }
    }
}

/// A popup line as shown: a space of margin, then the line with its tabs
/// replaced by four spaces.
pub fn popup_line(line: &str) -> (res: String)
    ensures
        res@ == seq![' '] + tabs_expanded(line@),
{
    let v = chars_of(line);
    let mut out = String::new();
    push_char(&mut out, ' ');
    let n = v.len();
    for i in 0..n
        invariant
            n == v@.len(),
            out@ == seq![' '] + tabs_expanded(v@.take(i as int)),
    {
        assert(v@.take(i + 1).drop_last() =~= v@.take(i as int));
        if v[i] == '\t' {
            push_char(&mut out, ' ');
            push_char(&mut out, ' ');
            push_char(&mut out, ' ');
            push_char(&mut out, ' ');
        } else {
            push_char(&mut out, v[i]);
        }
        assert(out@ =~= seq![' '] + tabs_expanded(v@.take(i + 1)));
    }
    assert(v@.take(n as int) =~= v@);
    out
}

// ---------------------------------------------------------------------------
// Help overlay lines
// ---------------------------------------------------------------------------

/// `n` spaces.
pub open spec fn spaces(n: nat) -> Seq<char> {
    Seq::new(n, |i: int| ' ')
}

/// A line of the help overlay: two spaces, the key left-aligned in six
/// columns, a space and the label.
pub open spec fn help_text(key: Seq<char>, label: Seq<char>) -> Seq<char> {
    "  "@ + key + spaces(if key.len() < 6 {
        (6 - key.len()) as nat
    } else {
        0
    }) + " "@ + label
}

/// A line of the help overlay for a key and what it does.
pub fn help_line(key: &str, label: &str) -> (res: String)
    ensures
        res@ == help_text(key@, label@),
{
    let k = chars_of(key);
    let mut out = owned("  ");
    out.append(key);
    let mut pad = k.len();
    while pad < 6
        invariant
            k@ == key@,
            k@.len() <= pad <= 6 || (k@.len() > 6 && pad == k@.len()),
            out@ == "  "@ + key@ + spaces((pad - k@.len()) as nat),
        decreases 6 - pad,
    {
        push_char(&mut out, ' ');
        assert(spaces((pad + 1 - k@.len()) as nat) =~= spaces((pad - k@.len()) as nat).push(' '));
        pad = pad + 1;
    }
    out.append(" ");
    out.append(label);
    proof {
        reveal_strlit("  ");
        reveal_strlit(" ");
    }
    assert(out@ =~= help_text(key@, label@));
    out
}

/// Whether an action is one of the wanted built-in actions.
pub open spec fn wanted_action(a: Action, wanted: Seq<AppAction>) -> bool {
    a.action_type matches ActionType::App(x) && wanted.contains(x)
}

/// The actions that are among the wanted built-in actions, in their order.
pub open spec fn filtered(actions: Seq<&Action>, wanted: Seq<AppAction>) -> Seq<&Action>
    decreases actions.len(),
{
    if actions.len() == 0 {
        seq![]
    } else {
        let rest = filtered(actions.drop_last(), wanted);
        if wanted_action(*actions.last(), wanted) {
            rest.push(actions.last())
        } else {
            rest
        }
    }
}

/// The actions that are among the wanted built-in actions, in their order.
pub fn filter_actions<'a>(actions: &[&'a Action], wanted: &[AppAction]) -> (res: Vec<&'a Action>)
    ensures
        res@ == filtered(actions@, wanted@),
{
    let mut res: Vec<&'a Action> = Vec::new();
    let n = actions.len();
    for i in 0..n
        invariant
            n == actions@.len(),
            res@ == filtered(actions@.take(i as int), wanted@),
    {
        assert(actions@.take(i + 1).drop_last() =~= actions@.take(i as int));
        let a = actions[i];
        let keep = match a.action_type {
            ActionType::App(x) => {
                let mut found = false;
                let m = wanted.len();
                for j in 0..m
                    invariant
                        m == wanted@.len(),
                        found == exists|k: int| 0 <= k < j && wanted@[k] == x,
                {
                    if wanted[j] == x {
                        found = true;
                    }
                }
                proof {
                    if found {
                        let k = choose|k: int| 0 <= k < m && wanted@[k] == x;
                        assert(wanted@.contains(x)) by {
                            assert(wanted@[k] == x);
                        }
                    } else {
                        assert(!wanted@.contains(x));
                    }
                }
                found
            },
            _ => false,
        };
        if keep {
            res.push(a);
        }
    }
    assert(actions@.take(n as int) =~= actions@);
    res
}

/// What tells two actions apart in the help: key and label.
pub open spec fn action_id(a: &Action) -> (Seq<char>, Seq<char>) {
    (a.key@, a.label@)
}

/// The actions of all groups in order, each key and label only the first
/// time it comes.
pub open spec fn merged(all: Seq<&Action>) -> Seq<&Action>
    decreases all.len(),
{
    if all.len() == 0 {
        seq![]
    } else {
        let rest = merged(all.drop_last());
        if rest.map_values(|a: &Action| action_id(a)).contains(action_id(all.last())) {
            rest
        } else {
            rest.push(all.last())
        }
    }
}

/// The actions of the groups one after the other.
pub open spec fn flattened<'a>(groups: Seq<Vec<&'a Action>>) -> Seq<&'a Action>
    decreases groups.len(),
{
    if groups.len() == 0 {
        seq![]
    } else {
        flattened(groups.drop_last()) + groups.last()@
    }
}

/// Whether an action with the same key and label is among `v`.
fn contains_action(v: &Vec<&Action>, a: &Action) -> (res: bool)
    ensures
        res == v@.map_values(|b: &Action| action_id(b)).contains(action_id(a)),
{
    let ghost ids = v@.map_values(|b: &Action| action_id(b));
    let n = v.len();
    for i in 0..n
        invariant
            n == v@.len(),
            ids == v@.map_values(|b: &Action| action_id(b)),
            forall|k: int| 0 <= k < i ==> ids[k] != action_id(a),
    {
        if str_eq(v[i].key.as_str(), a.key.as_str()) && str_eq(v[i].label.as_str(), a.label.as_str()) {
            assert(ids[i as int] == action_id(a));
            return true;
        }
    }
    false
}

/// The actions of several groups, in order, without repeating an action of
/// the same key and label.
pub fn merge_actions<'a>(groups: &[Vec<&'a Action>]) -> (res: Vec<&'a Action>)
    ensures
        res@ == merged(flattened(groups@)),
{
    let mut res: Vec<&'a Action> = Vec::new();
    let ghost mut done: Seq<&'a Action> = seq![];
    let g = groups.len();
    for i in 0..g
        invariant
            g == groups@.len(),
            done == flattened(groups@.take(i as int)),
            res@ == merged(done),
    {
        assert(groups@.take(i + 1).drop_last() =~= groups@.take(i as int));
        let group = &groups[i];
        let m = group.len();
        for j in 0..m
            invariant
                m == group@.len(),
                group == groups@[i as int],
                res@ == merged(done + group@.take(j as int)),
        {
            assert((done + group@.take(j + 1)).drop_last() =~= done + group@.take(j as int));
            let a = group[j];
            if !contains_action(&res, a) {
                res.push(a);
            }
        }
        assert(group@.take(m as int) =~= group@);
        proof {
            done = done + group@;
        }
    }
    assert(groups@.take(g as int) =~= groups@);
    res
}

} // verus!
