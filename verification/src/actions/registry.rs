//! Central registry of all actions.
use vstd::prelude::*;

use crate::config::Alias;
use crate::input::keymap::{char_key, no_modifiers, KeyBinding, KeyCode};
use crate::text::{contains, contains_chars, lowercase, to_lowercase};

use super::context::Context;
use super::state::{condition_holds, ActionCondition, AppState};
use super::types::{alias_action, app_action, Action, ActionType, AppAction};

verus! {

/// A list of one context.
fn ctx1(a: Context) -> (res: Vec<Context>)
    ensures
        res@ == seq![a],
{
    let mut v: Vec<Context> = Vec::new();
    v.push(a);
    assert(v@ =~= seq![a]);
    v
}

/// A list of two contexts.
fn ctx2(a: Context, b: Context) -> (res: Vec<Context>)
    ensures
        res@ == seq![a, b],
{
    let mut v: Vec<Context> = Vec::new();
    v.push(a);
    v.push(b);
    assert(v@ =~= seq![a, b]);
    v
}

/// The Enter key without modifiers.
pub open spec fn enter_key() -> KeyBinding {
    KeyBinding { code: KeyCode::Enter, modifiers: no_modifiers() }
}

/// The description of a built-in action: binding, label, action, contexts,
/// priority and condition.
pub type ActionSpec = (KeyBinding, Seq<char>, AppAction, Seq<Context>, u8, ActionCondition);

/// The built-in actions, in registry order.
pub open spec fn builtin_specs() -> Seq<ActionSpec> {
    seq![
        (char_key('s'), "stage/unstage"@, AppAction::ToggleStage, seq![Context::StagedFiles, Context::WorkingFiles], 10u8, ActionCondition::Always),
        (char_key('d'), "diff"@, AppAction::ShowDiff, seq![Context::StagedFiles, Context::WorkingFiles], 20u8, ActionCondition::Always),
        (enter_key(), "diff"@, AppAction::ShowDiff, seq![Context::StagedFiles, Context::WorkingFiles], 21u8, ActionCondition::Always),
        (char_key(' '), "pager"@, AppAction::FilePagerDiff, seq![Context::StagedFiles, Context::WorkingFiles], 30u8, ActionCondition::Always),
        (char_key('M'), "difftool"@, AppAction::FileDiffTool, seq![Context::StagedFiles, Context::WorkingFiles], 40u8, ActionCondition::Always),
        (char_key('h'), "log/reflog"@, AppAction::ToggleHistoryMode, seq![Context::HistoryHeader, Context::HistoryCommits], 10u8, ActionCondition::Always),
        (char_key(' '), "expand"@, AppAction::ExpandCommit, seq![Context::HistoryCommits, Context::BranchCommits], 20u8, ActionCondition::Always),
        (char_key('['), "prev page"@, AppAction::PrevPage, seq![Context::HistoryHeader, Context::HistoryCommits], 30u8, ActionCondition::Always),
        (char_key(']'), "next page"@, AppAction::NextPage, seq![Context::HistoryHeader, Context::HistoryCommits], 31u8, ActionCondition::Always),
        (char_key('y'), "copy short"@, AppAction::CopyShortSha, seq![Context::HistoryCommits, Context::BranchCommits], 40u8, ActionCondition::Always),
        (char_key('c'), "copy sha"@, AppAction::CopyFullSha, seq![Context::HistoryCommits, Context::BranchCommits], 41u8, ActionCondition::Always),
        (char_key('R'), "rebase -i"@, AppAction::InteractiveRebase, seq![Context::HistoryCommits], 50u8, ActionCondition::Always),
        (char_key(' '), "pager"@, AppAction::PagerDiff, seq![Context::CommitFiles], 10u8, ActionCondition::Always),
        (char_key('d'), "inline diff"@, AppAction::InlineDiff, seq![Context::CommitFiles], 20u8, ActionCondition::Always),
        (char_key('M'), "difftool"@, AppAction::DiffTool, seq![Context::CommitFiles], 30u8, ActionCondition::Always),
        (enter_key(), "checkout"@, AppAction::Checkout, seq![Context::BranchHeader], 10u8, ActionCondition::Always),
        (char_key(' '), "expand"@, AppAction::ExpandBranch, seq![Context::BranchHeader], 20u8, ActionCondition::Always),
        (char_key('P'), "push"@, AppAction::Push, seq![Context::Global], 50u8, ActionCondition::BranchAhead),
        (char_key('p'), "pull"@, AppAction::Pull, seq![Context::Global], 50u8, ActionCondition::BranchBehind),
        (char_key('f'), "fetch"@, AppAction::Fetch, seq![Context::Global], 51u8, ActionCondition::Always),
        (char_key('r'), "refresh"@, AppAction::Refresh, seq![Context::Global], 51u8, ActionCondition::Always),
        (char_key(':'), "command"@, AppAction::EnterCommandMode, seq![Context::Global], 52u8, ActionCondition::Always),
        (char_key('a'), "aliases"@, AppAction::BrowseAliases, seq![Context::Global], 53u8, ActionCondition::Always),
        (char_key('e'), "edit"@, AppAction::OpenEditor, seq![Context::Global], 54u8, ActionCondition::Always),
        (char_key('?'), "help"@, AppAction::ShowHelp, seq![Context::Global], 55u8, ActionCondition::Always),
        (char_key('q'), "quit"@, AppAction::Quit, seq![Context::Global], 56u8, ActionCondition::Always),
        (char_key('w'), "working"@, AppAction::JumpToWorking, seq![Context::Global], 60u8, ActionCondition::Always),
        (char_key('h'), "history"@, AppAction::JumpToHistory, seq![Context::Global], 61u8, ActionCondition::Always),
        (char_key('b'), "branches"@, AppAction::JumpToBranches, seq![Context::Global], 62u8, ActionCondition::Always),
    ]
}

/// `a` is the `i`-th built-in action.
pub open spec fn builtin_action(i: int, a: Action) -> bool {
    let s = builtin_specs()[i];
    app_action(s.0, s.1, s.2, s.3, s.4, s.5, a)
}

/// `s` holds exactly the built-in actions, in order.
pub open spec fn builtin_registry(s: Seq<Action>) -> bool {
    &&& s.len() == builtin_specs().len()
    &&& forall|i: int| 0 <= i < s.len() ==> #[trigger] builtin_action(i, s[i])
}

/// Appends the built-in actions numbered 0 to 4.
fn push_builtins_0(v: &mut Vec<Action>)
    requires
        old(v)@.len() == 0,
    ensures
        final(v)@.len() == 5,
        forall|i: int| 0 <= i < 0 ==> final(v)@[i] == old(v)@[i],
        forall|i: int| 0 <= i < 5 ==> #[trigger] builtin_action(i, final(v)@[i]),
{
        v.push(Action::app(KeyBinding::char('s'), "stage/unstage", AppAction::ToggleStage, ctx2(Context::StagedFiles, Context::WorkingFiles), 10));
        assert(builtin_action(0, v@[0]));
        v.push(Action::app(KeyBinding::char('d'), "diff", AppAction::ShowDiff, ctx2(Context::StagedFiles, Context::WorkingFiles), 20));
        assert(builtin_action(1, v@[1]));
        v.push(Action::app(KeyBinding::key(KeyCode::Enter), "diff", AppAction::ShowDiff, ctx2(Context::StagedFiles, Context::WorkingFiles), 21));
        assert(builtin_action(2, v@[2]));
        v.push(Action::app(KeyBinding::char(' '), "pager", AppAction::FilePagerDiff, ctx2(Context::StagedFiles, Context::WorkingFiles), 30));
        assert(builtin_action(3, v@[3]));
        v.push(Action::app(KeyBinding::char('M'), "difftool", AppAction::FileDiffTool, ctx2(Context::StagedFiles, Context::WorkingFiles), 40));
        assert(builtin_action(4, v@[4]));
}

/// Appends the built-in actions numbered 5 to 11.
fn push_builtins_1(v: &mut Vec<Action>)
    requires
        old(v)@.len() == 5,
    ensures
        final(v)@.len() == 12,
        forall|i: int| 0 <= i < 5 ==> final(v)@[i] == old(v)@[i],
        forall|i: int| 5 <= i < 12 ==> #[trigger] builtin_action(i, final(v)@[i]),
{
        v.push(Action::app(KeyBinding::char('h'), "log/reflog", AppAction::ToggleHistoryMode, ctx2(Context::HistoryHeader, Context::HistoryCommits), 10));
        assert(builtin_action(5, v@[5]));
        v.push(Action::app(KeyBinding::char(' '), "expand", AppAction::ExpandCommit, ctx2(Context::HistoryCommits, Context::BranchCommits), 20));
        assert(builtin_action(6, v@[6]));
        v.push(Action::app(KeyBinding::char('['), "prev page", AppAction::PrevPage, ctx2(Context::HistoryHeader, Context::HistoryCommits), 30));
        assert(builtin_action(7, v@[7]));
        v.push(Action::app(KeyBinding::char(']'), "next page", AppAction::NextPage, ctx2(Context::HistoryHeader, Context::HistoryCommits), 31));
        assert(builtin_action(8, v@[8]));
        v.push(Action::app(KeyBinding::char('y'), "copy short", AppAction::CopyShortSha, ctx2(Context::HistoryCommits, Context::BranchCommits), 40));
        assert(builtin_action(9, v@[9]));
        v.push(Action::app(KeyBinding::char('c'), "copy sha", AppAction::CopyFullSha, ctx2(Context::HistoryCommits, Context::BranchCommits), 41));
        assert(builtin_action(10, v@[10]));
        v.push(Action::app(KeyBinding::char('R'), "rebase -i", AppAction::InteractiveRebase, ctx1(Context::HistoryCommits), 50));
        assert(builtin_action(11, v@[11]));
}

/// Appends the built-in actions numbered 12 to 16.
fn push_builtins_2(v: &mut Vec<Action>)
    requires
        old(v)@.len() == 12,
    ensures
        final(v)@.len() == 17,
        forall|i: int| 0 <= i < 12 ==> final(v)@[i] == old(v)@[i],
        forall|i: int| 12 <= i < 17 ==> #[trigger] builtin_action(i, final(v)@[i]),
{
        v.push(Action::app(KeyBinding::char(' '), "pager", AppAction::PagerDiff, ctx1(Context::CommitFiles), 10));
        assert(builtin_action(12, v@[12]));
        v.push(Action::app(KeyBinding::char('d'), "inline diff", AppAction::InlineDiff, ctx1(Context::CommitFiles), 20));
        assert(builtin_action(13, v@[13]));
        v.push(Action::app(KeyBinding::char('M'), "difftool", AppAction::DiffTool, ctx1(Context::CommitFiles), 30));
        assert(builtin_action(14, v@[14]));
        v.push(Action::app(KeyBinding::key(KeyCode::Enter), "checkout", AppAction::Checkout, ctx1(Context::BranchHeader), 10));
        assert(builtin_action(15, v@[15]));
        v.push(Action::app(KeyBinding::char(' '), "expand", AppAction::ExpandBranch, ctx1(Context::BranchHeader), 20));
        assert(builtin_action(16, v@[16]));
}

/// Appends the built-in actions numbered 17 to 22.
fn push_builtins_3(v: &mut Vec<Action>)
    requires
        old(v)@.len() == 17,
    ensures
        final(v)@.len() == 23,
        forall|i: int| 0 <= i < 17 ==> final(v)@[i] == old(v)@[i],
        forall|i: int| 17 <= i < 23 ==> #[trigger] builtin_action(i, final(v)@[i]),
{
        v.push(Action::app_when(KeyBinding::char('P'), "push", AppAction::Push, ctx1(Context::Global), 50, ActionCondition::BranchAhead));
        assert(builtin_action(17, v@[17]));
        v.push(Action::app_when(KeyBinding::char('p'), "pull", AppAction::Pull, ctx1(Context::Global), 50, ActionCondition::BranchBehind));
        assert(builtin_action(18, v@[18]));
        v.push(Action::app(KeyBinding::char('f'), "fetch", AppAction::Fetch, ctx1(Context::Global), 51));
        assert(builtin_action(19, v@[19]));
        v.push(Action::app(KeyBinding::char('r'), "refresh", AppAction::Refresh, ctx1(Context::Global), 51));
        assert(builtin_action(20, v@[20]));
        v.push(Action::app(KeyBinding::char(':'), "command", AppAction::EnterCommandMode, ctx1(Context::Global), 52));
        assert(builtin_action(21, v@[21]));
        v.push(Action::app(KeyBinding::char('a'), "aliases", AppAction::BrowseAliases, ctx1(Context::Global), 53));
        assert(builtin_action(22, v@[22]));
}

/// Appends the built-in actions numbered 23 to 28.
fn push_builtins_4(v: &mut Vec<Action>)
    requires
        old(v)@.len() == 23,
    ensures
        final(v)@.len() == 29,
        forall|i: int| 0 <= i < 23 ==> final(v)@[i] == old(v)@[i],
        forall|i: int| 23 <= i < 29 ==> #[trigger] builtin_action(i, final(v)@[i]),
{
        v.push(Action::app(KeyBinding::char('e'), "edit", AppAction::OpenEditor, ctx1(Context::Global), 54));
        assert(builtin_action(23, v@[23]));
        v.push(Action::app(KeyBinding::char('?'), "help", AppAction::ShowHelp, ctx1(Context::Global), 55));
        assert(builtin_action(24, v@[24]));
        v.push(Action::app(KeyBinding::char('q'), "quit", AppAction::Quit, ctx1(Context::Global), 56));
        assert(builtin_action(25, v@[25]));
        v.push(Action::app(KeyBinding::char('w'), "working", AppAction::JumpToWorking, ctx1(Context::Global), 60));
        assert(builtin_action(26, v@[26]));
        v.push(Action::app(KeyBinding::char('h'), "history", AppAction::JumpToHistory, ctx1(Context::Global), 61));
        assert(builtin_action(27, v@[27]));
        v.push(Action::app(KeyBinding::char('b'), "branches", AppAction::JumpToBranches, ctx1(Context::Global), 62));
        assert(builtin_action(28, v@[28]));
}


/// Central registry of all actions
#[derive(Debug)]
pub struct ActionRegistry {
    actions: Vec<Action>,
}

impl View for ActionRegistry {
    type V = Seq<Action>;

    closed spec fn view(&self) -> Seq<Action> {
        self.actions@
    }
}

impl Default for ActionRegistry {
    fn default() -> (res: Self)
        ensures
            builtin_registry(res@),
    {
        ActionRegistry::new()
    }
}

/// An action shown in the action menu of `ctx`: one of that context or a
/// global one, whose condition holds.
pub open spec fn offered(a: Action, ctx: Context, st: AppState) -> bool {
    (a.contexts@.contains(ctx) || a.contexts@.contains(Context::Global)) && condition_holds(
        st,
        a.condition,
    )
}

/// An action shown as an inline hint in `ctx`: one of that context and not a
/// global one, whose condition holds and whose priority is under 80.
pub open spec fn hinted(a: Action, ctx: Context, st: AppState) -> bool {
    a.contexts@.contains(ctx) && !a.contexts@.contains(Context::Global) && condition_holds(
        st,
        a.condition,
    ) && a.priority < 80
}

/// The actions of `s` selected (by `offered`, or by `hinted` when `hint`)
/// that have priority `p`, in registry order.
pub open spec fn selected_at(s: Seq<Action>, ctx: Context, st: AppState, hint: bool, p: int) -> Seq<
    Action,
>
    decreases s.len(),
{
    if s.len() == 0 {
        seq![]
    } else {
        let rest = selected_at(s.drop_last(), ctx, st, hint, p);
        let a = s.last();
        if (if hint {
            hinted(a, ctx, st)
        } else {
            offered(a, ctx, st)
        }) && a.priority == p {
            rest.push(a)
        } else {
            rest
        }
    }
}

/// The selected actions of priority below `p`, ordered by priority and, within
/// one priority, in registry order (a stable sort by priority).
pub open spec fn selected_upto(s: Seq<Action>, ctx: Context, st: AppState, hint: bool, p: int) -> Seq<
    Action,
>
    decreases p,
{
    if p <= 0 {
        seq![]
    } else {
        selected_upto(s, ctx, st, hint, p - 1) + selected_at(s, ctx, st, hint, p - 1)
    }
}

/// The selected actions of every priority, stably sorted by priority.
pub open spec fn selected_sorted(s: Seq<Action>, ctx: Context, st: AppState, hint: bool) -> Seq<
    Action,
> {
    selected_upto(s, ctx, st, hint, 256)
}

proof fn lemma_selected_at_priority(s: Seq<Action>, ctx: Context, st: AppState, hint: bool, p: int)
    ensures
        forall|i: int|
            0 <= i < selected_at(s, ctx, st, hint, p).len() ==> (#[trigger] selected_at(
                s,
                ctx,
                st,
                hint,
                p,
            )[i]).priority == p,
    decreases s.len(),
{
    if s.len() > 0 {
        lemma_selected_at_priority(s.drop_last(), ctx, st, hint, p);
    }
}

proof fn lemma_selected_upto_sorted(s: Seq<Action>, ctx: Context, st: AppState, hint: bool, p: int)
    ensures
        forall|i: int|
            0 <= i < selected_upto(s, ctx, st, hint, p).len() ==> (#[trigger] selected_upto(
                s,
                ctx,
                st,
                hint,
                p,
            )[i]).priority < p,
        forall|i: int, j: int|
            0 <= i < j < selected_upto(s, ctx, st, hint, p).len() ==> (#[trigger] selected_upto(
                s,
                ctx,
                st,
                hint,
                p,
            )[i]).priority <= (#[trigger] selected_upto(s, ctx, st, hint, p)[j]).priority,
    decreases p,
{
    if p > 0 {
        lemma_selected_upto_sorted(s, ctx, st, hint, p - 1);
        lemma_selected_at_priority(s, ctx, st, hint, p - 1);
        let a = selected_upto(s, ctx, st, hint, p - 1);
        let b = selected_at(s, ctx, st, hint, p - 1);
        let r = a + b;
        assert(selected_upto(s, ctx, st, hint, p) == r);
        assert forall|i: int| 0 <= i < r.len() implies (#[trigger] r[i]).priority < p by {
            if i >= a.len() {
                assert(r[i] == b[i - a.len()]);
            }
        }
        assert forall|i: int, j: int| 0 <= i < j < r.len() implies (#[trigger] r[i]).priority <= (
        #[trigger] r[j]).priority by {
            if j >= a.len() {
                assert(r[j] == b[j - a.len()]);
                if i >= a.len() {
                    assert(r[i] == b[i - a.len()]);
                }
            }
        }
    }
}

/// The actions offered (or hinted) for a context come in priority order:
/// no action comes after one of a higher priority number.
pub proof fn lemma_selection_sorted_by_priority(s: Seq<Action>, ctx: Context, st: AppState, hint: bool)
    ensures
        forall|i: int, j: int|
            0 <= i < j < selected_sorted(s, ctx, st, hint).len() ==> (#[trigger] selected_sorted(
                s,
                ctx,
                st,
                hint,
            )[i]).priority <= (#[trigger] selected_sorted(s, ctx, st, hint)[j]).priority,
{
    lemma_selected_upto_sorted(s, ctx, st, hint, 256);
}

/// Among the built-in actions, push is the one at position 17 and pull the
/// one at position 18: no other built-in action pushes or pulls.
proof fn lemma_push_pull_positions(i: int)
    requires
        0 <= i < builtin_specs().len(),
    ensures
        builtin_specs()[i].2 == AppAction::Push ==> i == 17,
        builtin_specs()[i].2 == AppAction::Pull ==> i == 18,
{
    if i == 0 {
        assert(builtin_specs()[0].2 == AppAction::ToggleStage);
    } else if i == 1 {
        assert(builtin_specs()[1].2 == AppAction::ShowDiff);
    } else if i == 2 {
        assert(builtin_specs()[2].2 == AppAction::ShowDiff);
    } else if i == 3 {
        assert(builtin_specs()[3].2 == AppAction::FilePagerDiff);
    } else if i == 4 {
        assert(builtin_specs()[4].2 == AppAction::FileDiffTool);
    } else if i == 5 {
        assert(builtin_specs()[5].2 == AppAction::ToggleHistoryMode);
    } else if i == 6 {
        assert(builtin_specs()[6].2 == AppAction::ExpandCommit);
    } else if i == 7 {
        assert(builtin_specs()[7].2 == AppAction::PrevPage);
    } else if i == 8 {
        assert(builtin_specs()[8].2 == AppAction::NextPage);
    } else if i == 9 {
        assert(builtin_specs()[9].2 == AppAction::CopyShortSha);
    } else if i == 10 {
        assert(builtin_specs()[10].2 == AppAction::CopyFullSha);
    } else if i == 11 {
        assert(builtin_specs()[11].2 == AppAction::InteractiveRebase);
    } else if i == 12 {
        assert(builtin_specs()[12].2 == AppAction::PagerDiff);
    } else if i == 13 {
        assert(builtin_specs()[13].2 == AppAction::InlineDiff);
    } else if i == 14 {
        assert(builtin_specs()[14].2 == AppAction::DiffTool);
    } else if i == 15 {
        assert(builtin_specs()[15].2 == AppAction::Checkout);
    } else if i == 16 {
        assert(builtin_specs()[16].2 == AppAction::ExpandBranch);
    } else if i == 17 {
        assert(builtin_specs()[17].2 == AppAction::Push);
    } else if i == 18 {
        assert(builtin_specs()[18].2 == AppAction::Pull);
    } else if i == 19 {
        assert(builtin_specs()[19].2 == AppAction::Fetch);
    } else if i == 20 {
        assert(builtin_specs()[20].2 == AppAction::Refresh);
    } else if i == 21 {
        assert(builtin_specs()[21].2 == AppAction::EnterCommandMode);
    } else if i == 22 {
        assert(builtin_specs()[22].2 == AppAction::BrowseAliases);
    } else if i == 23 {
        assert(builtin_specs()[23].2 == AppAction::OpenEditor);
    } else if i == 24 {
        assert(builtin_specs()[24].2 == AppAction::ShowHelp);
    } else if i == 25 {
        assert(builtin_specs()[25].2 == AppAction::Quit);
    } else if i == 26 {
        assert(builtin_specs()[26].2 == AppAction::JumpToWorking);
    } else if i == 27 {
        assert(builtin_specs()[27].2 == AppAction::JumpToHistory);
    } else if i == 28 {
        assert(builtin_specs()[28].2 == AppAction::JumpToBranches);
    }
}

/// Whether the actions offered in `ctx` include one that performs `act`.
pub open spec fn offers_action(s: Seq<Action>, ctx: Context, st: AppState, act: AppAction) -> bool {
    exists|a: Action|
        #[trigger] selected_sorted(s, ctx, st, false).contains(a) && a.action_type == ActionType::App(
            act,
        )
}

/// The global actions offer a pull exactly when the branch is behind its
/// upstream, and a push exactly when it is ahead, whatever else the state
/// holds.
pub proof fn lemma_pull_when_behind_push_when_ahead(s: Seq<Action>, st: AppState)
    requires
        builtin_registry(s),
    ensures
        offers_action(s, Context::Global, st, AppAction::Pull) <==> st.behind > 0,
        offers_action(s, Context::Global, st, AppAction::Push) <==> st.ahead > 0,
{
    assert(builtin_action(17, s[17]));
    assert(builtin_action(18, s[18]));
    assert(s[17].contexts@[0] == Context::Global);
    assert(s[18].contexts@[0] == Context::Global);
    assert(s.contains(s[17]));
    assert(s.contains(s[18]));
    lemma_selection_complete(s, Context::Global, st, false, s[17]);
    lemma_selection_complete(s, Context::Global, st, false, s[18]);
    if offers_action(s, Context::Global, st, AppAction::Pull) {
        let a = choose|a: Action|
            #[trigger] selected_sorted(s, Context::Global, st, false).contains(a) && a.action_type
                == ActionType::App(AppAction::Pull);
        lemma_selection_complete(s, Context::Global, st, false, a);
        let k = choose|k: int| 0 <= k < s.len() && s[k] == a;
        assert(builtin_action(k, s[k]));
        lemma_push_pull_positions(k);
    }
    if offers_action(s, Context::Global, st, AppAction::Push) {
        let a = choose|a: Action|
            #[trigger] selected_sorted(s, Context::Global, st, false).contains(a) && a.action_type
                == ActionType::App(AppAction::Push);
        lemma_selection_complete(s, Context::Global, st, false, a);
        let k = choose|k: int| 0 <= k < s.len() && s[k] == a;
        assert(builtin_action(k, s[k]));
        lemma_push_pull_positions(k);
    }
}

/// Exactly the selected actions are listed: an action of the registry is in
/// the list of a context if and only if it is offered (or hinted) there.
pub proof fn lemma_selection_complete(s: Seq<Action>, ctx: Context, st: AppState, hint: bool, a: Action)
    ensures
        selected_sorted(s, ctx, st, hint).contains(a) <==> (s.contains(a) && (if hint {
            hinted(a, ctx, st)
        } else {
            offered(a, ctx, st)
        })),
{
    lemma_selected_upto_contains(s, ctx, st, hint, 256, a);
    assert(0 <= a.priority < 256);
}

proof fn lemma_selected_at_contains(s: Seq<Action>, ctx: Context, st: AppState, hint: bool, p: int, a: Action)
    ensures
        selected_at(s, ctx, st, hint, p).contains(a) <==> (s.contains(a) && (if hint {
            hinted(a, ctx, st)
        } else {
            offered(a, ctx, st)
        }) && a.priority == p),
    decreases s.len(),
{
    if s.len() > 0 {
        lemma_selected_at_contains(s.drop_last(), ctx, st, hint, p, a);
        let rest = selected_at(s.drop_last(), ctx, st, hint, p);
        assert(s =~= s.drop_last().push(s.last()));
        assert(s.contains(a) <==> (s.drop_last().contains(a) || s.last() == a)) by {
            if s.contains(a) {
                let k = choose|k: int| 0 <= k < s.len() && s[k] == a;
                if k < s.len() - 1 {
                    assert(s.drop_last()[k] == a);
                }
            }
            if s.drop_last().contains(a) {
                let k = choose|k: int| 0 <= k < s.drop_last().len() && s.drop_last()[k] == a;
                assert(s[k] == a);
            }
        }
        assert(rest.push(s.last()).contains(a) <==> (rest.contains(a) || s.last() == a)) by {
            if rest.push(s.last()).contains(a) {
                let k = choose|k: int| 0 <= k < rest.len() + 1 && rest.push(s.last())[k] == a;
                if k < rest.len() {
                    assert(rest[k] == a);
                }
            }
            if rest.contains(a) {
                let k = choose|k: int| 0 <= k < rest.len() && rest[k] == a;
                assert(rest.push(s.last())[k] == a);
            }
            assert(rest.push(s.last())[rest.len() as int] == s.last());
        }
    }
}

proof fn lemma_selected_upto_contains(s: Seq<Action>, ctx: Context, st: AppState, hint: bool, p: int, a: Action)
    ensures
        selected_upto(s, ctx, st, hint, p).contains(a) <==> (s.contains(a) && (if hint {
            hinted(a, ctx, st)
        } else {
            offered(a, ctx, st)
        }) && a.priority < p),
    decreases p,
{
    if p > 0 {
        lemma_selected_upto_contains(s, ctx, st, hint, p - 1, a);
        lemma_selected_at_contains(s, ctx, st, hint, p - 1, a);
        let x = selected_upto(s, ctx, st, hint, p - 1);
        let y = selected_at(s, ctx, st, hint, p - 1);
        assert((x + y).contains(a) <==> (x.contains(a) || y.contains(a))) by {
            if (x + y).contains(a) {
                let k = choose|k: int| 0 <= k < (x + y).len() && (x + y)[k] == a;
                if k < x.len() {
                    assert(x[k] == a);
                } else {
                    assert(y[k - x.len()] == a);
                }
            }
            if x.contains(a) {
                let k = choose|k: int| 0 <= k < x.len() && x[k] == a;
                assert((x + y)[k] == a);
            }
            if y.contains(a) {
                let k = choose|k: int| 0 <= k < y.len() && y[k] == a;
                assert((x + y)[k + x.len()] == a);
            }
        }
    } else {
        assert(selected_upto(s, ctx, st, hint, p) =~= Seq::<Action>::empty());
    }
}

/// The contexts an alias applies to, inferred from its command (lower-cased).
pub open spec fn alias_contexts(command: Seq<char>) -> Seq<Context> {
    lowered_contexts(lowercase(command))
}

/// The contexts of an alias whose command, lower-cased, is `cmd`.
pub open spec fn lowered_contexts(cmd: Seq<char>) -> Seq<Context> {
    if contains(cmd, "stash"@) || contains(cmd, "restore"@) {
        seq![Context::WorkingFiles, Context::StagedFiles]
    } else if contains(cmd, "commit"@) || contains(cmd, "amend"@) {
        seq![Context::StagedFiles]
    } else if contains(cmd, "diff"@) && !contains(cmd, "difftool"@) {
        seq![Context::StagedFiles, Context::WorkingFiles, Context::HistoryCommits]
    } else if contains(cmd, "log"@) || contains(cmd, "show"@) {
        seq![Context::HistoryCommits, Context::BranchCommits]
    } else if contains(cmd, "branch"@) || contains(cmd, "switch"@) {
        seq![Context::BranchHeader]
    } else if contains(cmd, "checkout"@) && !contains(cmd, "branch"@) {
        seq![Context::WorkingFiles, Context::BranchHeader]
    } else if contains(cmd, "push"@) || contains(cmd, "pull"@) || contains(cmd, "fetch"@) {
        seq![Context::Global]
    } else if contains(cmd, "rebase"@) || contains(cmd, "reset"@) {
        seq![Context::HistoryCommits]
    } else {
        seq![Context::Command]
    }
}

/// Whether `a` is selected for `ctx`.
fn is_selected(a: &Action, ctx: Context, st: &AppState, hint: bool) -> (res: bool)
    ensures
        res == (if hint {
            hinted(*a, ctx, *st)
        } else {
            offered(*a, ctx, *st)
        }),
{
    let in_ctx = crate::input::keymap::contains_context(&a.contexts, ctx);
    let global = crate::input::keymap::contains_context(&a.contexts, Context::Global);
    let cond = st.satisfies(a.condition);
    if hint {
        in_ctx && !global && cond && a.priority < 80
    } else {
        (in_ctx || global) && cond
    }
}

impl ActionRegistry {
    /// Build the action registry with all built-in actions
    pub fn new() -> (res: Self)
        ensures
            builtin_registry(res@),
    {
        let mut actions: Vec<Action> = Vec::new();
        push_builtins_0(&mut actions);
        push_builtins_1(&mut actions);
        push_builtins_2(&mut actions);
        push_builtins_3(&mut actions);
        push_builtins_4(&mut actions);
        ActionRegistry { actions }
    }

    /// All actions, in registry order.
    pub fn actions(&self) -> (res: &[Action])
        ensures
            res@ == self@,
    {
        self.actions.as_slice()
    }

    /// The selected actions, stably sorted by priority.
    fn select_sorted(&self, context: Context, state: &AppState, hint: bool) -> (res: Vec<&Action>)
        ensures
            res@.map_values(|a: &Action| *a) == selected_sorted(self@, context, *state, hint),
    {
        let mut res: Vec<&Action> = Vec::new();
        let ghost s = self@;
        let n = self.actions.len();
        let mut p: u16 = 0;
        while p < 256
            invariant
                p <= 256,
                s == self@,
                n == s.len(),
                res@.map_values(|a: &Action| *a) == selected_upto(s, context, *state, hint, p as int),
            decreases 256 - p,
        {
            let ghost before = res@.map_values(|a: &Action| *a);
            for i in 0..n
                invariant
                    s == self@,
                    n == s.len(),
                    p < 256,
                    res@.map_values(|a: &Action| *a) == before + selected_at(
                        s.take(i as int),
                        context,
                        *state,
                        hint,
                        p as int,
                    ),
            {
                let a = &self.actions[i];
                assert(s.take(i + 1).drop_last() == s.take(i as int));
                assert(s.take(i + 1).last() == *a);
                let ghost mid = res@.map_values(|a: &Action| *a);
                if is_selected(a, context, state, hint) && a.priority as u16 == p {
                    res.push(a);
                    assert(res@.map_values(|a: &Action| *a) =~= mid.push(*a));
                }
            }
            assert(s.take(n as int) == s);
            p = p + 1;
        }
        res
    }

    /// Get actions for a specific context (includes Global actions)
    /// Filters by both context and condition
    pub fn actions_for_context(&self, context: Context, state: &AppState) -> (res: Vec<&Action>)
        ensures
            res@.map_values(|a: &Action| *a) == selected_sorted(self@, context, *state, false),
    {
        self.select_sorted(context, state, false)
    }

    /// Get inline hint actions for a context (limited set for display)
    /// Returns only context-specific actions, not global ones
    pub fn hint_actions_for_context(&self, context: Context, state: &AppState) -> (res: Vec<
        &Action,
    >)
        ensures
            res@.map_values(|a: &Action| *a) == selected_sorted(self@, context, *state, true),
    {
        self.select_sorted(context, state, true)
    }

    /// Add alias-based actions based on command context inference
    pub fn add_alias_actions(&mut self, aliases: &[Alias])
        ensures
            final(self)@.len() == old(self)@.len() + aliases@.len(),
            forall|i: int| 0 <= i < old(self)@.len() ==> final(self)@[i] == old(self)@[i],
            forall|i: int|
                0 <= i < aliases@.len() ==> alias_action(
                    aliases@[i],
                    alias_contexts(aliases@[i].command@),
                    #[trigger] final(self)@[old(self)@.len() + i],
                ),
    {
        let ghost old_actions = self@;
        let n = aliases.len();
        for i in 0..n
            invariant
                n == aliases@.len(),
                self@.len() == old_actions.len() + i,
                forall|j: int| 0 <= j < old_actions.len() ==> self@[j] == old_actions[j],
                forall|j: int|
                    0 <= j < i ==> alias_action(
                        aliases@[j],
                        alias_contexts(aliases@[j].command@),
                        #[trigger] self@[old_actions.len() + j],
                    ),
        {
            let alias = &aliases[i];
            let contexts = ActionRegistry::infer_alias_context(alias);
            if contexts.len() > 0 {
                self.actions.push(Action::from_alias(alias, contexts));
            }
        }
    }

    /// Infer which contexts an alias applies to based on its command
    pub fn infer_alias_context(alias: &Alias) -> (res: Vec<Context>)
        ensures
            res@ == alias_contexts(alias.command@),
            res@.len() > 0,
    {
        let lower = to_lowercase(alias.command.as_str());
        ActionRegistry::contexts_for_lowercase(lower.as_str())
    }

    /// The contexts of an alias whose command is already in lower case.
    pub fn contexts_for_lowercase(lower: &str) -> (res: Vec<Context>)
        ensures
            res@ == lowered_contexts(lower@),
            res@.len() > 0,
    {
        let cmd = crate::text::chars_of(lower);
        let mut v: Vec<Context> = Vec::new();
        if contains_chars(&cmd, "stash") || contains_chars(&cmd, "restore") {
            v.push(Context::WorkingFiles);
            v.push(Context::StagedFiles);
        } else if contains_chars(&cmd, "commit") || contains_chars(&cmd, "amend") {
            v.push(Context::StagedFiles);
        } else if contains_chars(&cmd, "diff") && !contains_chars(&cmd, "difftool") {
            v.push(Context::StagedFiles);
            v.push(Context::WorkingFiles);
            v.push(Context::HistoryCommits);
        } else if contains_chars(&cmd, "log") || contains_chars(&cmd, "show") {
            v.push(Context::HistoryCommits);
            v.push(Context::BranchCommits);
        } else if contains_chars(&cmd, "branch") || contains_chars(&cmd, "switch") {
            v.push(Context::BranchHeader);
        } else if contains_chars(&cmd, "checkout") && !contains_chars(&cmd, "branch") {
            v.push(Context::WorkingFiles);
            v.push(Context::BranchHeader);
        } else if contains_chars(&cmd, "push") || contains_chars(&cmd, "pull") || contains_chars(
            &cmd,
            "fetch",
        ) {
            v.push(Context::Global);
        } else if contains_chars(&cmd, "rebase") || contains_chars(&cmd, "reset") {
            v.push(Context::HistoryCommits);
        } else {
            v.push(Context::Command);
        }
        assert(v@ =~= lowered_contexts(lower@));
        v
    }
}

} // verus!
