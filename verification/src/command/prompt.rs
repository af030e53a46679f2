//! The command line of command mode: what is being typed, the draft kept
//! while older commands are browsed, and the command history.
use vstd::prelude::*;

use super::history::CommandHistory;
use super::{typed_request, CommandRequest, CommandSource};
use crate::input::keymap::{KeyCode, KeyEvent};
use crate::text::{chars_of, owned, split_ws, str_eq, string_of, trim, trim_chars};

verus! {

/// The command line and its history.
#[derive(Debug)]
pub struct CommandPrompt {
    /// What is typed
    pub input: String,
    /// What was typed before browsing the history began
    pub draft: Option<String>,
    /// Commands run before
    pub history: CommandHistory,
}

/// What a key pressed on the command line leads to.
#[derive(Debug, Clone, Copy, PartialEq, Eq, Structural)]
pub enum PromptOutcome {
    /// Stay in command mode
    Continue,
    /// Leave command mode
    Exit,
    /// Leave command mode and move the selection down
    ExitDown,
    /// Run what is typed
    Submit,
}

/// What submitting the command line leads to.
#[derive(Debug)]
pub enum Submission {
    /// Nothing was typed: nothing happens
    Empty,
    /// A program other than git was asked for
    Rejected,
    /// The git command to run
    Run(CommandRequest),
}

/// The view of an optional string.
pub open spec fn draft_view(d: Option<String>) -> Option<Seq<char>> {
    match d {
        Some(s) => Some(s@),
        None => None,
    }
}

/// The state of a command line: typed text, draft and history.
pub type PromptView = (Seq<char>, Option<Seq<char>>, (Seq<Seq<char>>, Option<usize>));

impl View for CommandPrompt {
    type V = PromptView;

    open spec fn view(&self) -> PromptView {
        (self.input@, draft_view(self.draft), self.history@)
    }
}

/// The command line after browsing to an older command: the draft is taken
/// from the typed text unless one is kept already, and the older command (if
/// any) is shown.
pub open spec fn after_older(p: PromptView) -> PromptView {
    let draft = match p.1 {
        Some(d) => Some(d),
        None => Some(p.0),
    };
    let h = p.2;
    if h.0.len() == 0 {
        (p.0, draft, h)
    } else {
        let k = super::history::older_index(h.0.len(), h.1);
        (h.0[k], draft, (h.0, Some(k as usize)))
    }
}

/// The command line after browsing to a newer command: the newer command if
/// there is one, else the draft is restored (or the line cleared) and the
/// browsing ends.
pub open spec fn after_newer(p: PromptView) -> PromptView {
    let h = p.2;
    if h.1 matches Some(i) && i + 1 < h.0.len() {
        (h.0[h.1->0 + 1], p.1, (h.0, Some((h.1->0 + 1) as usize)))
    } else {
        match p.1 {
            Some(d) => (d, None, (h.0, None)),
            None => (Seq::empty(), None, (h.0, None)),
        }
    }
}

/// A fresh command line: empty, no draft, not browsing.
pub open spec fn cleared(p: PromptView) -> PromptView {
    (Seq::empty(), None, (p.2.0, None))
}

/// The command line after an edit that leaves `text` typed.
pub open spec fn edited(p: PromptView, text: Seq<char>) -> PromptView {
    (text, None, (p.2.0, None))
}

/// Whether the history is being browsed or a draft is kept.
pub open spec fn browsing(p: PromptView) -> bool {
    p.2.1 is Some || p.1 is Some
}

/// The effect of a key on the command line and what it leads to.
pub open spec fn prompt_after_key(p: PromptView, key: KeyEvent) -> (PromptView, PromptOutcome) {
    match key.code {
        KeyCode::Esc => (cleared(p), PromptOutcome::Exit),
        KeyCode::Enter => (p, PromptOutcome::Submit),
        KeyCode::Char(c) => if c == 'c' && key.modifiers.control {
            (cleared(p), PromptOutcome::Exit)
        } else {
            (edited(p, p.0.push(c)), PromptOutcome::Continue)
        },
        KeyCode::Backspace => (edited(
            p,
            if p.0.len() > 0 {
                p.0.drop_last()
            } else {
                p.0
            },
        ), PromptOutcome::Continue),
        KeyCode::Up => (after_older(p), PromptOutcome::Continue),
        KeyCode::Down => if browsing(p) {
            (after_newer(p), PromptOutcome::Continue)
        } else {
            (cleared(p), PromptOutcome::ExitDown)
        },
        _ => (p, PromptOutcome::Continue),
    }
}

/// What submitting `text` asks for: nothing when it is blank, a refusal when
/// its first word is not `git`, else the typed git command.
pub open spec fn submitted(text: Seq<char>, s: Submission) -> bool {
    if trim(text).len() == 0 {
        s is Empty
    } else if split_ws(trim(text))[0] != "git"@ {
        s is Rejected
    } else {
        s matches Submission::Run(r) && typed_request(trim(text), r) && r.source
            == CommandSource::Palette
    }
}

impl CommandPrompt {
    /// A command line over the given history.
    pub fn new(history: CommandHistory) -> (res: Self)
        ensures
            res@ == (Seq::<char>::empty(), None::<Seq<char>>, history@),
    {
        CommandPrompt { input: String::new(), draft: None, history }
    }

    /// Clear the line, forget the draft and stop browsing (entering or
    /// leaving command mode).
    pub fn clear(&mut self)
        ensures
            final(self)@ == cleared(old(self)@),
    {
        self.input = String::new();
        self.draft = None;
        self.history.reset_navigation();
    }

    /// Type a character.
    pub fn type_char(&mut self, c: char)
        ensures
            final(self)@ == edited(old(self)@, old(self)@.0.push(c)),
    {
        crate::text::push_char(&mut self.input, c);
        self.draft = None;
        self.history.reset_navigation();
    }

    /// Delete the last character.
    pub fn backspace(&mut self)
        ensures
            final(self)@ == edited(
                old(self)@,
                if old(self)@.0.len() > 0 {
                    old(self)@.0.drop_last()
                } else {
                    old(self)@.0
                },
            ),
    {
        let mut chars = chars_of(self.input.as_str());
        if chars.len() > 0 {
            chars.pop();
        }
        self.input = string_of(chars.as_slice());
        self.draft = None;
        self.history.reset_navigation();
    }

    /// Show the previous (older) command, keeping what was typed as draft.
    pub fn history_prev(&mut self)
        ensures
            final(self)@ == after_older(old(self)@),
    {
        if self.draft.is_none() {
            self.draft = Some(self.input.clone());
        }
        match self.history.navigate_older() {
            Some(cmd) => {
                self.input = owned(cmd);
            },
            None => {},
        }
    }

    /// Show the next (newer) command; past the newest, restore the draft.
    pub fn history_next(&mut self)
        ensures
            final(self)@ == after_newer(old(self)@),
    {
        match self.history.navigate_newer() {
            Some(cmd) => {
                self.input = owned(cmd);
            },
            None => {
                match self.draft.take() {
                    Some(draft) => {
                        self.input = draft;
                    },
                    None => {
                        self.input = String::new();
                    },
                }
            },
        }
    }

    /// Whether older commands are being browsed or a draft is kept.
    pub fn is_browsing(&self) -> (res: bool)
        ensures
            res == browsing(self@),
    {
        self.history.is_navigating() || self.draft.is_some()
    }

    /// Handle a key in command mode: Esc and Ctrl+C leave, Enter submits,
    /// characters and Backspace edit, Up browses older commands, Down newer
    /// ones (or leaves downwards when not browsing).
    pub fn handle_key(&mut self, key: KeyEvent) -> (res: PromptOutcome)
        ensures
            (final(self)@, res) == prompt_after_key(old(self)@, key),
    {
        match key.code {
            KeyCode::Esc => {
                self.clear();
                PromptOutcome::Exit
            },
            KeyCode::Enter => PromptOutcome::Submit,
            KeyCode::Char(c) => {
                if c == 'c' && key.modifiers.control {
                    self.clear();
                    PromptOutcome::Exit
                } else {
                    self.type_char(c);
                    PromptOutcome::Continue
                }
            },
            KeyCode::Backspace => {
                self.backspace();
                PromptOutcome::Continue
            },
            KeyCode::Up => {
                self.history_prev();
                PromptOutcome::Continue
            },
            KeyCode::Down => {
                if self.is_browsing() {
                    self.history_next();
                    PromptOutcome::Continue
                } else {
                    self.clear();
                    PromptOutcome::ExitDown
                }
            },
            _ => PromptOutcome::Continue,
        }
    }

    /// Submit what is typed: a git command is handed back to be run; the
    /// line is cleared unless it was blank.
    pub fn submit(&mut self) -> (res: Submission)
        ensures
            submitted(old(self)@.0, res),
            trim(old(self)@.0).len() == 0 ==> final(self)@ == old(self)@,
            trim(old(self)@.0).len() > 0 ==> final(self)@ == cleared(old(self)@),
    {
        let words = trim_chars(&chars_of(self.input.as_str()));
        if words.len() == 0 {
            return Submission::Empty;
        }
        let trimmed = string_of(words.as_slice());
        proof {
            reveal_strlit("git");
            crate::text::lemma_trimmed_has_word(self.input@);
        }
        let res = match CommandRequest::from_input(trimmed.as_str()) {
            Some(request) => {
                if str_eq(request.program.as_str(), "git") {
                    Submission::Run(request.with_source(CommandSource::Palette))
                } else {
                    Submission::Rejected
                }
            },
            None => Submission::Empty,
        };
        self.clear();
        res
    }
}

/// Browsing to an older command and back again restores what was being
/// typed, and ends the browsing.
pub proof fn lemma_browse_restores(p: PromptView)
    requires
        p.1 is None,
        p.2.1 is None,
        p.2.0.len() <= super::history::MAX_HISTORY,
    ensures
        after_newer(after_older(p)) == p,
{
}

} // verus!
