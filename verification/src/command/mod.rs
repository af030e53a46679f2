//! Command requests, results, external commands and command history.
//!
//! Running a command is the caller's business; this module decides what is
//! run, where, and how its result is presented.
use vstd::prelude::*;

pub mod executor;
pub mod external;
pub mod history;
pub mod prompt;

pub use executor::{CommandExecutor, CommandResult};
pub use external::{CommandLine, ExternalCommand};
pub use history::CommandHistory;
pub use prompt::{CommandPrompt, PromptOutcome, Submission};

use crate::text::{concat2, owned, split_whitespace_strings, split_ws};

verus! {

/// Source of command execution - affects feedback behavior
#[derive(Debug, Clone, Copy, PartialEq, Eq, Structural)]
pub enum CommandSource {
    /// Direct keyboard shortcut
    Keyboard,
    /// Command palette (: mode)
    Palette,
    /// Context action menu (m key)
    ActionMenu,
    /// Alias browser (a key)
    AliasBrowser,
    /// Internal/automatic command
    Internal,
}

impl Default for CommandSource {
    fn default() -> (res: Self)
        ensures
            res == CommandSource::Keyboard,
    {
        CommandSource::Keyboard
    }
}

/// Policy for displaying command feedback
#[derive(Debug, Clone, Copy, PartialEq, Eq, Structural)]
pub enum FeedbackPolicy {
    /// Use source-based defaults
    Default,
    /// Always show popup regardless of output length
    AlwaysPopup,
    /// Only show inline, never auto-popup
    InlineOnly,
    /// No visible feedback (background operations)
    Silent,
    /// External command requiring TUI suspension
    External,
}

impl Default for FeedbackPolicy {
    fn default() -> (res: Self)
        ensures
            res == FeedbackPolicy::Default,
    {
        FeedbackPolicy::Default
    }
}

/// A request to execute a command
#[derive(Debug)]
pub struct CommandRequest {
    /// Program to execute (e.g., "git", "cargo", "make")
    pub program: String,
    /// Arguments to pass to the program
    pub args: Vec<String>,
    /// Human-readable description for history/popup title
    pub display_name: String,
    /// Working directory (None = use default repo path)
    pub cwd: Option<String>,
    /// How this command was triggered
    pub source: CommandSource,
    /// Feedback display policy
    pub feedback: FeedbackPolicy,
    /// Whether to refresh git status after execution
    pub refresh_after: bool,
}

/// Views of a list of strings.
pub open spec fn strings_view(v: Seq<String>) -> Seq<Seq<char>> {
    v.map_values(|s: String| s@)
}

/// Words joined with single spaces (`[&str]::join(" ")`).
pub open spec fn join_spaced(ws: Seq<Seq<char>>) -> Seq<char>
    decreases ws.len(),
{
    if ws.len() == 0 {
        seq![]
    } else if ws.len() == 1 {
        ws[0]
    } else {
        join_spaced(ws.drop_last()) + " "@ + ws.last()
    }
}

/// The view of an optional string.
pub open spec fn opt_string(o: Option<String>) -> Option<Seq<char>> {
    match o {
        Some(s) => Some(s@),
        None => None,
    }
}

/// Joins strings with single spaces.
pub fn join_with_spaces(v: &Vec<String>) -> (res: String)
    ensures
        res@ == join_spaced(strings_view(v@)),
{
    let ghost sv = strings_view(v@);
    let mut res = String::new();
    let n = v.len();
    for i in 0..n
        invariant
            n == v@.len(),
            sv == strings_view(v@),
            res@ == join_spaced(sv.take(i as int)),
    {
        assert(sv.take(i + 1).drop_last() == sv.take(i as int));
        if i > 0 {
            res.append(" ");
        }
        res.append(v[i].as_str());
        assert(sv.take(i + 1).last() == v@[i as int]@);
        assert(i == 0 ==> sv.take(i + 1) =~= seq![v@[i as int]@]);
        assert(i == 0 ==> res@ =~= join_spaced(sv.take(i + 1)));
    }
    assert(sv.take(n as int) == sv);
    res
}

/// Copies of a list of strings.
pub fn clone_strings(v: &Vec<String>) -> (res: Vec<String>)
    ensures
        res@ == v@,
{
    let mut res: Vec<String> = Vec::new();
    let n = v.len();
    for i in 0..n
        invariant
            n == v@.len(),
            res@ == v@.take(i as int),
    {
        res.push(v[i].clone());
        assert(v@.take(i + 1) == v@.take(i as int).push(v@[i as int]));
    }
    assert(v@.take(n as int) == v@);
    res
}

impl Clone for CommandRequest {
    fn clone(&self) -> (res: Self)
        ensures
            res.program == self.program,
            res.args@ == self.args@,
            res.display_name == self.display_name,
            res.cwd == self.cwd,
            res.source == self.source,
            res.feedback == self.feedback,
            res.refresh_after == self.refresh_after,
    {
        CommandRequest {
            program: self.program.clone(),
            args: clone_strings(&self.args),
            display_name: self.display_name.clone(),
            cwd: match &self.cwd {
                Some(c) => Some(c.clone()),
                None => None,
            },
            source: self.source,
            feedback: self.feedback,
            refresh_after: self.refresh_after,
        }
    }
}

/// `r` is the request typed as `input`: its first word is the program, the
/// others its arguments, and the whole text its display name; it runs in the
/// default directory, with the default feedback, and refreshes afterwards.
pub open spec fn typed_request(input: Seq<char>, r: CommandRequest) -> bool {
    &&& split_ws(input).len() > 0
    &&& r.program@ == split_ws(input)[0]
    &&& strings_view(r.args@) == split_ws(input).drop_first()
    &&& r.display_name@ == input
    &&& r.cwd is None
    &&& r.feedback == FeedbackPolicy::Default
    &&& r.refresh_after
}

/// `r` runs the git alias `name` (whose command is `command`) in the
/// repository at `repo_path`: git gets the command's words, and the request
/// is shown as "git <name>", with the default feedback, refreshing afterwards.
pub open spec fn alias_request(
    name: Seq<char>,
    command: Seq<char>,
    repo_path: Seq<char>,
    r: CommandRequest,
) -> bool {
    &&& r.program@ == "git"@
    &&& strings_view(r.args@) == split_ws(command)
    &&& r.display_name@ == "git "@ + name
    &&& r.cwd matches Some(c) && c@ == repo_path
    &&& r.feedback == FeedbackPolicy::Default
    &&& r.refresh_after
}

impl CommandRequest {
    /// Create a new git command request
    pub fn git(args: Vec<String>) -> (res: Self)
        ensures
            res.program@ == "git"@,
            res.args@ == args@,
            res.display_name@ == "git "@ + join_spaced(strings_view(args@)),
            res.cwd is None,
            res.source == CommandSource::Keyboard,
            res.feedback == FeedbackPolicy::Default,
            res.refresh_after,
    {
        let joined = join_with_spaces(&args);
        let display_name = concat2("git ", joined.as_str());
        CommandRequest {
            program: owned("git"),
            args,
            display_name,
            cwd: None,
            source: CommandSource::Keyboard,
            feedback: FeedbackPolicy::Default,
            refresh_after: true,
        }
    }

    /// Create a command request from a full command string: the first word is
    /// the program, the others its arguments; `None` when there is no word.
    pub fn from_input(input: &str) -> (res: Option<Self>)
        ensures
            res is None <==> split_ws(input@).len() == 0,
            res matches Some(r) ==> typed_request(input@, r) && r.source == CommandSource::Palette,
    {
        let mut parts = split_whitespace_strings(input);
        if parts.len() == 0 {
            return None;
        }
        let ghost pv = strings_view(parts@);
        let program = parts.remove(0);
        assert(strings_view(parts@) =~= pv.drop_first());
        Some(
            CommandRequest {
                program,
                args: parts,
                display_name: owned(input),
                cwd: None,
                source: CommandSource::Palette,
                feedback: FeedbackPolicy::Default,
                refresh_after: true,
            },
        )
    }

    /// Set the command source
    pub fn with_source(self, source: CommandSource) -> (res: Self)
        ensures
            res == (CommandRequest { source, ..self }),
    {
        let mut r = self;
        r.source = source;
        r
    }

    /// Set the feedback policy
    pub fn with_feedback(self, policy: FeedbackPolicy) -> (res: Self)
        ensures
            res == (CommandRequest { feedback: policy, ..self }),
    {
        let mut r = self;
        r.feedback = policy;
        r
    }

    /// Set whether to refresh after execution
    pub fn with_refresh(self, refresh: bool) -> (res: Self)
        ensures
            res == (CommandRequest { refresh_after: refresh, ..self }),
    {
        let mut r = self;
        r.refresh_after = refresh;
        r
    }

    /// Set custom working directory
    pub fn with_cwd(self, cwd: String) -> (res: Self)
        ensures
            res == (CommandRequest { cwd: Some(cwd), ..self }),
    {
        let mut r = self;
        r.cwd = Some(cwd);
        r
    }

    /// Set custom display name
    pub fn with_display_name(self, name: String) -> (res: Self)
        ensures
            res == (CommandRequest { display_name: name, ..self }),
    {
        let mut r = self;
        r.display_name = name;
        r
    }

    /// Create a git alias command request: git runs the alias's command
    /// words, in the repository.
    pub fn git_alias(name: &str, command: &str, repo_path: &str) -> (res: Self)
        ensures
            alias_request(name@, command@, repo_path@, res),
            res.source == CommandSource::Keyboard,
    {
        CommandRequest {
            program: owned("git"),
            args: split_whitespace_strings(command),
            display_name: concat2("git ", name),
            cwd: Some(owned(repo_path)),
            source: CommandSource::Keyboard,
            feedback: FeedbackPolicy::Default,
            refresh_after: true,
        }
    }
}

} // verus!
