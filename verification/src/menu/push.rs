//! Push confirmation menu.
use vstd::prelude::*;

use crate::command::{strings_view, CommandRequest, CommandSource, FeedbackPolicy};
use crate::config::{find_char, first_index};
use crate::git::GitStatus;
use crate::input::keymap::{KeyCode, KeyEvent};
use crate::text::{chars_of, concat2, owned, slice_chars, string_of};

use super::{is_down, is_up, key_is_down, key_is_up, MenuAction, MenuItem, MenuResult};

verus! {

/// Menu for confirming git push operation
#[derive(Debug)]
pub struct PushConfirmMenu {
    /// Branch to push
    pub branch: String,
    /// Remote to push to
    pub remote: String,
    /// Whether the branch already tracks an upstream
    pub has_upstream: bool,
    /// Commits ahead of the upstream
    pub ahead: usize,
    /// Whether to force the push
    pub force: bool,
    /// Focus: 0 = confirm button, 1 = force checkbox
    pub focus: usize,
}

/// The arguments of the push: `push`, then `--force-with-lease` when forced,
/// then `-u <remote> <branch>` when there is no upstream yet.
pub open spec fn push_args(
    force: bool,
    has_upstream: bool,
    remote: Seq<char>,
    branch: Seq<char>,
) -> Seq<Seq<char>> {
    seq!["push"@] + (if force {
        seq!["--force-with-lease"@]
    } else {
        Seq::empty()
    }) + (if !has_upstream {
        seq!["-u"@, remote, branch]
    } else {
        Seq::empty()
    })
}

/// How the push is shown.
pub open spec fn push_display(
    force: bool,
    has_upstream: bool,
    remote: Seq<char>,
    branch: Seq<char>,
) -> Seq<char> {
    if force {
        "git push --force-with-lease "@ + remote
    } else if !has_upstream {
        "git push -u "@ + remote + " "@ + branch
    } else {
        "git push"@
    }
}

/// A forced push is always guarded by the lease and nothing else: the
/// arguments begin with `push` and then, exactly when the push is forced,
/// `--force-with-lease` (never `--force`), whether or not an upstream exists;
/// `-u <remote> <branch>` ends them exactly when there is no upstream yet.
/// The command shown names the same lease option exactly when the arguments
/// carry it, and otherwise shows `-u` exactly when the arguments do.
pub proof fn lemma_force_push_uses_lease(
    force: bool,
    has_upstream: bool,
    remote: Seq<char>,
    branch: Seq<char>,
)
    ensures
        ({
            let args = push_args(force, has_upstream, remote, branch);
            let shown = push_display(force, has_upstream, remote, branch);
            let lease = "--force-with-lease"@;
            &&& args.len() >= 1 && args[0] == "push"@
            &&& force <==> (args.len() >= 2 && args[1] == lease)
            &&& args.len() >= 2 ==> args[1] != "--force"@
            &&& !has_upstream <==> (args.len() >= 3 && args.subrange(
                args.len() - 3,
                args.len() as int,
            ) == seq!["-u"@, remote, branch])
            &&& has_upstream ==> args.len() == if force {
                2int
            } else {
                1int
            }
            &&& force <==> (shown.len() >= 27 && shown.take(27) == "git push --force-with-lease"@)
            &&& !force ==> (!has_upstream <==> (shown.len() >= 11 && shown.take(11)
                == "git push -u"@))
        }),
{
    reveal_strlit("push");
    reveal_strlit("--force-with-lease");
    reveal_strlit("--force");
    reveal_strlit("-u");
    reveal_strlit("git push --force-with-lease ");
    reveal_strlit("git push --force-with-lease");
    reveal_strlit("git push -u ");
    reveal_strlit("git push -u");
    reveal_strlit("git push");
    reveal_strlit(" ");
    let args = push_args(force, has_upstream, remote, branch);
    let shown = push_display(force, has_upstream, remote, branch);
    if force {
        assert(shown.take(27) =~= "git push --force-with-lease"@);
    } else if !has_upstream {
        assert(shown.take(11) =~= "git push -u"@);
        assert(shown[10] == 'u');
        assert("git push --force-with-lease"@[10] == '-');
        if shown.len() >= 27 && shown.take(27) == "git push --force-with-lease"@ {
            assert(shown.take(27)[10] == shown[10]);
        }
        assert(args[1] == "-u"@);
        assert(args[1][1] != "--force-with-lease"@[1]);
    } else {
        assert(shown.len() == 8);
    }
    if args.len() >= 2 {
        if args[1] == "--force"@ {
            assert(args[1].len() == 7);
        }
    }
    if !has_upstream {
        assert(args.subrange(args.len() - 3, args.len() as int) =~= seq!["-u"@, remote, branch]);
    } else {
        if args.len() >= 3 {
            assert(args.len() <= 2);
        }
    }
}

/// `r` is the push that menu `m` confirms.
pub open spec fn push_request(m: PushConfirmMenu, r: CommandRequest) -> bool {
    &&& r.program@ == "git"@
    &&& strings_view(r.args@) == push_args(m.force, m.has_upstream, m.remote@, m.branch@)
    &&& r.display_name@ == push_display(m.force, m.has_upstream, m.remote@, m.branch@)
    &&& r.cwd is None
    &&& r.source == CommandSource::Keyboard
    &&& r.feedback == FeedbackPolicy::Default
    &&& r.refresh_after
}

/// The remote of an upstream such as `origin/main`: what comes before the
/// first `/`.
pub open spec fn upstream_remote(upstream: Seq<char>) -> Seq<char> {
    upstream.take(first_index(upstream, '/') as int)
}

/// Keys that cancel the push.
pub open spec fn cancels_push(code: KeyCode) -> bool {
    code == KeyCode::Esc || code == KeyCode::Char('n') || code == KeyCode::Char('q')
}

/// Keys that flip the force option wherever the focus is.
pub open spec fn is_force_key(code: KeyCode) -> bool {
    code == KeyCode::Char('f') || code == KeyCode::Char('F')
}

impl PushConfirmMenu {
    /// Create a new push confirmation menu
    pub fn new(branch: String, remote: String, has_upstream: bool, ahead: usize, force: bool) -> (res:
        Self)
        ensures
            res == (PushConfirmMenu { branch, remote, has_upstream, ahead, force, focus: 0 }),
    {
        PushConfirmMenu { branch, remote, has_upstream, ahead, force, focus: 0 }
    }

    /// The push dialog for the checked-out branch of `status`: to the remote
    /// of its upstream, or to `origin` (setting the upstream) when it has
    /// none.  With no branch checked out there is nothing to push.
    pub fn for_status(status: &GitStatus, force: bool) -> (res: Option<Self>)
        ensures
            res is None <==> status.branch is None,
            res matches Some(m) ==> {
                &&& m.branch == status.branch->0
                &&& m.remote@ == match status.upstream {
                    Some(u) => upstream_remote(u@),
                    None => "origin"@,
                }
                &&& m.has_upstream == status.upstream is Some
                &&& m.ahead == status.ahead
                &&& m.force == force
                &&& m.focus == 0
            },
    {
        let branch = match &status.branch {
            Some(b) => b.clone(),
            None => {
                return None;
            },
        };
        let (remote, has_upstream) = match &status.upstream {
            Some(upstream) => {
                let chars = chars_of(upstream.as_str());
                let end = find_char(&chars, '/');
                let remote = string_of(slice_chars(&chars, 0, end).as_slice());
                assert(chars@.subrange(0, end as int) =~= upstream_remote(upstream@));
                (remote, true)
            },
            None => (owned("origin"), false),
        };
        Some(PushConfirmMenu::new(branch, remote, has_upstream, status.ahead, force))
    }

    /// Build the git push command
    pub fn build_command(&self) -> (res: CommandRequest)
        ensures
            push_request(*self, res),
    {
        let mut args: Vec<String> = vec![owned("push")];
        if self.force {
            args.push(owned("--force-with-lease"));
        }
        if !self.has_upstream {
            args.push(owned("-u"));
            args.push(self.remote.clone());
            args.push(self.branch.clone());
        }
        proof {
            assert(strings_view(args@) =~= push_args(
                self.force,
                self.has_upstream,
                self.remote@,
                self.branch@,
            ));
        }
        let display = if self.force {
            concat2("git push --force-with-lease ", self.remote.as_str())
        } else if !self.has_upstream {
            let mut d = concat2("git push -u ", self.remote.as_str());
            d.append(" ");
            d.append(self.branch.as_str());
            d
        } else {
            owned("git push")
        };
        CommandRequest::git(args).with_source(CommandSource::Keyboard).with_display_name(display)
    }

    /// Title for the dialog
    pub fn title(&self) -> (res: &'static str)
        ensures
            res@ == "Push Confirmation"@,
    {
        "Push Confirmation"
    }

    /// The dialog draws its own lines: it lists no items.
    pub fn items(&self) -> (res: Vec<MenuItem>)
        ensures
            res@.len() == 0,
    {
        Vec::new()
    }

    /// Currently focused element
    pub fn selected(&self) -> (res: usize)
        ensures
            res == self.focus,
    {
        self.focus
    }

    /// Set the focus (0 = confirm button, 1 = force checkbox)
    pub fn set_selected(&mut self, idx: usize)
        ensures
            *final(self) == (PushConfirmMenu {
                focus: if idx <= 1 {
                    idx
                } else {
                    old(self).focus
                },
                ..*old(self)
            }),
    {
        if idx <= 1 {
            self.focus = idx;
        }
    }

    /// Handle a key event: j/k and the arrows move the focus, f flips the
    /// force option (Space and Enter too, on the checkbox), Enter on the button
    /// and y push, Esc, n and q cancel.
    pub fn handle_key(&mut self, key: KeyEvent) -> (res: MenuResult)
        ensures
            push_step(*old(self), key.code, *final(self), res),
    {
        if key_is_up(key.code) {
            if self.focus > 0 {
                self.focus = self.focus - 1;
            }
            return MenuResult::Continue;
        }
        if key_is_down(key.code) {
            if self.focus < 1 {
                self.focus = self.focus + 1;
            }
            return MenuResult::Continue;
        }
        match key.code {
            KeyCode::Enter => {
                if self.focus == 0 {
                    let request = self.build_command();
                    MenuResult::Execute(MenuAction::Command(request))
                } else {
                    self.force = !self.force;
                    MenuResult::Continue
                }
            },
            KeyCode::Esc => MenuResult::CloseAll,
            KeyCode::Char(c) => {
                if c == ' ' {
                    if self.focus == 1 {
                        self.force = !self.force;
                    }
                    MenuResult::Continue
                } else if c == 'f' || c == 'F' {
                    self.force = !self.force;
                    MenuResult::Continue
                } else if c == 'y' {
                    let request = self.build_command();
                    MenuResult::Execute(MenuAction::Command(request))
                } else if c == 'n' || c == 'q' {
                    MenuResult::CloseAll
                } else {
                    MenuResult::Continue
                }
            },
            _ => MenuResult::Continue,
        }
    }
}

/// The effect of a key on the push dialog.
pub open spec fn push_step(o: PushConfirmMenu, code: KeyCode, n: PushConfirmMenu, res: MenuResult) -> bool {
    &&& n.branch == o.branch
    &&& n.remote == o.remote
    &&& n.has_upstream == o.has_upstream
    &&& n.ahead == o.ahead
    &&& is_up(code) ==> res is Continue && n.force == o.force
        && n.focus == if o.focus > 0 {
        o.focus - 1
    } else {
        o.focus as int
    }
    &&& is_down(code) ==> res is Continue && n.force == o.force
        && n.focus == if o.focus < 1 {
        o.focus + 1
    } else {
        o.focus as int
    }
    &&& !is_up(code) && !is_down(code) ==> n.focus == o.focus
    &&& code == KeyCode::Char(' ') ==> res is Continue && n.force == (if o.focus == 1 {
        !o.force
    } else {
        o.force
    })
    &&& is_force_key(code) ==> res is Continue && n.force == !o.force
    &&& code == KeyCode::Enter ==> if o.focus == 0 {
        res matches MenuResult::Execute(MenuAction::Command(r)) && push_request(
            o,
            r,
        ) && n.force == o.force
    } else {
        res is Continue && n.force == !o.force
    }
    &&& code == KeyCode::Char('y') ==> (res matches MenuResult::Execute(
        MenuAction::Command(r)
    ) && push_request(o, r) && n.force == o.force)
    &&& cancels_push(code) ==> res is CloseAll && n.force == o.force
    &&& !is_up(code) && !is_down(code) && code != KeyCode::Char(' ')
        && !is_force_key(code) && code != KeyCode::Enter && code
        != KeyCode::Char('y') && !cancels_push(code) ==> res is Continue && n.force == o.force
}

} // verus!
