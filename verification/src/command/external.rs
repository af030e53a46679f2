//! External commands: those that take over the terminal (pager, difftool,
//! editor, interactive rebase).  This module decides the program and the
//! arguments; running them is the caller's business.
use vstd::prelude::*;

use super::strings_view;
use crate::text::{
    chars_of, concat2, concat3, owned, split_whitespace_strings, split_ws, string_of, trim, trim_chars,
};

verus! {

/// Commands that require TUI suspension to run interactively
#[derive(Debug)]
pub enum ExternalCommand {
    /// Show commit file diff with pager (uses core.pager from gitconfig)
    PagerDiff { commit_sha: String, file_path: String },
    /// Show commit file diff with difftool (uses diff.tool from gitconfig)
    DiffTool { commit_sha: String, file_path: String },
    /// Show working/staged file diff with pager
    FilePagerDiff { file_path: String, staged: bool },
    /// Show working/staged file diff with difftool
    FileDiffTool { file_path: String, staged: bool },
    /// Interactive rebase (suspends TUI for editor)
    InteractiveRebase {
        /// Base commit for rebase (e.g., "HEAD~3", commit SHA)
        onto: String,
    },
    /// Open a file or directory in $EDITOR
    OpenEditor { editor: String, path: String },
}

impl Clone for ExternalCommand {
    fn clone(&self) -> (res: Self)
        ensures
            res == *self,
    {
        match self {
            ExternalCommand::PagerDiff { commit_sha, file_path } => ExternalCommand::PagerDiff {
                commit_sha: commit_sha.clone(),
                file_path: file_path.clone(),
            },
            ExternalCommand::DiffTool { commit_sha, file_path } => ExternalCommand::DiffTool {
                commit_sha: commit_sha.clone(),
                file_path: file_path.clone(),
            },
            ExternalCommand::FilePagerDiff { file_path, staged } => ExternalCommand::FilePagerDiff {
                file_path: file_path.clone(),
                staged: *staged,
            },
            ExternalCommand::FileDiffTool { file_path, staged } => ExternalCommand::FileDiffTool {
                file_path: file_path.clone(),
                staged: *staged,
            },
            ExternalCommand::InteractiveRebase { onto } => ExternalCommand::InteractiveRebase {
                onto: onto.clone(),
            },
            ExternalCommand::OpenEditor { editor, path } => ExternalCommand::OpenEditor {
                editor: editor.clone(),
                path: path.clone(),
            },
        }
    }
}

/// A program and its arguments.
#[derive(Debug)]
pub struct CommandLine {
    pub program: String,
    pub args: Vec<String>,
}

/// The description shown for an external command.
pub open spec fn external_description(e: ExternalCommand) -> Seq<char> {
    match e {
        ExternalCommand::PagerDiff { commit_sha, file_path } => "git show "@ + commit_sha@
            + " -- "@ + file_path@,
        ExternalCommand::DiffTool { commit_sha, file_path } => "git difftool "@ + commit_sha@
            + " -- "@ + file_path@,
        ExternalCommand::FilePagerDiff { file_path, staged } => if staged {
            "git diff --staged -- "@ + file_path@
        } else {
            "git diff -- "@ + file_path@
        },
        ExternalCommand::FileDiffTool { file_path, staged } => if staged {
            "git difftool --staged -- "@ + file_path@
        } else {
            "git difftool -- "@ + file_path@
        },
        ExternalCommand::InteractiveRebase { onto } => "git rebase -i "@ + onto@,
        ExternalCommand::OpenEditor { editor, path } => editor@ + " "@ + path@,
    }
}

/// An editor command: the first word of the editor setting is the program
/// (the whole setting when it has no word), its other words come first among
/// the arguments, then the path.
pub open spec fn editor_line(editor: Seq<char>, path: Seq<char>) -> (Seq<char>, Seq<Seq<char>>) {
    let words = split_ws(editor);
    if words.len() > 0 {
        (words[0], words.drop_first().push(path))
    } else {
        (editor, seq![path])
    }
}

/// The program and arguments of an external command.
pub open spec fn external_line(e: ExternalCommand) -> (Seq<char>, Seq<Seq<char>>) {
    match e {
        ExternalCommand::PagerDiff { commit_sha, file_path } => (
            "git"@,
            seq!["--paginate"@, "show"@, commit_sha@, "--"@, file_path@],
        ),
        ExternalCommand::DiffTool { commit_sha, file_path } => (
            "git"@,
            seq![
                "difftool"@,
                "--no-prompt"@,
                commit_sha@ + "~1.."@ + commit_sha@,
                "--"@,
                file_path@,
            ],
        ),
        ExternalCommand::FilePagerDiff { file_path, staged } => (
            "git"@,
            if staged {
                seq!["--paginate"@, "diff"@, "--staged"@, "--"@, file_path@]
            } else {
                seq!["--paginate"@, "diff"@, "--"@, file_path@]
            },
        ),
        ExternalCommand::FileDiffTool { file_path, staged } => (
            "git"@,
            if staged {
                seq!["difftool"@, "--no-prompt"@, "--staged"@, "--"@, file_path@]
            } else {
                seq!["difftool"@, "--no-prompt"@, "--"@, file_path@]
            },
        ),
        ExternalCommand::InteractiveRebase { onto } => ("git"@, seq!["rebase"@, "-i"@, onto@]),
        ExternalCommand::OpenEditor { editor, path } => editor_line(editor@, path@),
    }
}

/// The view of a command line.
pub open spec fn line_view(c: CommandLine) -> (Seq<char>, Seq<Seq<char>>) {
    (c.program@, strings_view(c.args@))
}

/// Builds the editor command for a path.
pub fn build_editor_command(editor: &str, path: &str) -> (res: CommandLine)
    ensures
        line_view(res) == editor_line(editor@, path@),
{
    let mut words = split_whitespace_strings(editor);
    let ghost wv = strings_view(words@);
    if words.len() > 0 {
        let program = words.remove(0);
        words.push(owned(path));
        assert(strings_view(words@) =~= wv.drop_first().push(path@));
        CommandLine { program, args: words }
    } else {
        let mut args: Vec<String> = Vec::new();
        args.push(owned(path));
        assert(strings_view(args@) =~= seq![path@]);
        CommandLine { program: owned(editor), args }
    }
}

/// The editor that `$EDITOR` names: its value trimmed; none when it is unset
/// or blank.
pub open spec fn editor_name(var: Option<Seq<char>>) -> Option<Seq<char>> {
    match var {
        Some(v) => if trim(v).len() > 0 {
            Some(trim(v))
        } else {
            None
        },
        None => None,
    }
}

/// What the editor opens: the selected file of the open commit, else the
/// selected file of the list, else the repository itself (`.`).
pub open spec fn editor_target(commit_file: Option<Seq<char>>, selected_file: Option<Seq<char>>) -> Seq<
    char,
> {
    match commit_file {
        Some(p) => p,
        None => match selected_file {
            Some(p) => p,
            None => "."@,
        },
    }
}

/// The text of an optional string.
pub open spec fn opt_view(t: Option<&str>) -> Option<Seq<char>> {
    match t {
        Some(c) => Some(c@),
        None => None,
    }
}

/// A `git` command line from its arguments.
fn git_line(args: Vec<String>) -> (res: CommandLine)
    ensures
        res.program@ == "git"@,
        res.args@ == args@,
{
    CommandLine { program: owned("git"), args }
}

impl ExternalCommand {
    /// Open the editor named by `$EDITOR` (given as `editor_var`) on the
    /// selected file of the open commit, else on the selected file, else on
    /// the repository; none when `$EDITOR` is unset or blank.
    pub fn open_editor(editor_var: Option<&str>, commit_file: Option<&str>, selected_file: Option<&str>) -> (res:
        Option<ExternalCommand>)
        ensures
            match editor_name(opt_view(editor_var)) {
                None => res is None,
                Some(e) => res matches Some(ExternalCommand::OpenEditor { editor, path }) && editor@
                    == e && path@ == editor_target(opt_view(commit_file), opt_view(selected_file)),
            },
    {
        let editor = match editor_var {
            Some(v) => trim_chars(&chars_of(v)),
            None => {
                return None;
            },
        };
        if editor.len() == 0 {
            return None;
        }
        let path = match commit_file {
            Some(p) => owned(p),
            None => match selected_file {
                Some(p) => owned(p),
                None => owned("."),
            },
        };
        Some(ExternalCommand::OpenEditor { editor: string_of(editor.as_slice()), path })
    }

    /// The program and arguments to run, in the repository directory.
    pub fn build_command(&self) -> (res: CommandLine)
        ensures
            line_view(res) == external_line(*self),
    {
        let mut a: Vec<String> = Vec::new();
        match self {
            ExternalCommand::PagerDiff { commit_sha, file_path } => {
                a.push(owned("--paginate"));
                a.push(owned("show"));
                a.push(commit_sha.clone());
                a.push(owned("--"));
                a.push(file_path.clone());
                let r = git_line(a);
                assert(strings_view(r.args@) =~= external_line(*self).1);
                r
            },
            ExternalCommand::DiffTool { commit_sha, file_path } => {
                a.push(owned("difftool"));
                a.push(owned("--no-prompt"));
                a.push(concat3(commit_sha.as_str(), "~1..", commit_sha.as_str()));
                a.push(owned("--"));
                a.push(file_path.clone());
                let r = git_line(a);
                assert(strings_view(r.args@) =~= external_line(*self).1);
                r
            },
            ExternalCommand::FilePagerDiff { file_path, staged } => {
                a.push(owned("--paginate"));
                a.push(owned("diff"));
                if *staged {
                    a.push(owned("--staged"));
                }
                a.push(owned("--"));
                a.push(file_path.clone());
                let r = git_line(a);
                assert(strings_view(r.args@) =~= external_line(*self).1);
                r
            },
            ExternalCommand::FileDiffTool { file_path, staged } => {
                a.push(owned("difftool"));
                a.push(owned("--no-prompt"));
                if *staged {
                    a.push(owned("--staged"));
                }
                a.push(owned("--"));
                a.push(file_path.clone());
                let r = git_line(a);
                assert(strings_view(r.args@) =~= external_line(*self).1);
                r
            },
            ExternalCommand::InteractiveRebase { onto } => {
                a.push(owned("rebase"));
                a.push(owned("-i"));
                a.push(onto.clone());
                let r = git_line(a);
                assert(strings_view(r.args@) =~= external_line(*self).1);
                r
            },
            ExternalCommand::OpenEditor { editor, path } => build_editor_command(
                editor.as_str(),
                path.as_str(),
            ),
        }
    }

    /// Human-readable description for display/logging
    pub fn description(&self) -> (res: String)
        ensures
            res@ == external_description(*self),
    {
        match self {
            ExternalCommand::PagerDiff { commit_sha, file_path } => {
                let mut s = concat2("git show ", commit_sha.as_str());
                s.append(" -- ");
                s.append(file_path.as_str());
                s
            },
            ExternalCommand::DiffTool { commit_sha, file_path } => {
                let mut s = concat2("git difftool ", commit_sha.as_str());
                s.append(" -- ");
                s.append(file_path.as_str());
                s
            },
            ExternalCommand::FilePagerDiff { file_path, staged } => {
                if *staged {
                    concat2("git diff --staged -- ", file_path.as_str())
                } else {
                    concat2("git diff -- ", file_path.as_str())
                }
            },
            ExternalCommand::FileDiffTool { file_path, staged } => {
                if *staged {
                    concat2("git difftool --staged -- ", file_path.as_str())
                } else {
                    concat2("git difftool -- ", file_path.as_str())
                }
            },
            ExternalCommand::InteractiveRebase { onto } => concat2("git rebase -i ", onto.as_str()),
            ExternalCommand::OpenEditor { editor, path } => concat3(
                editor.as_str(),
                " ",
                path.as_str(),
            ),
        }
    }
}

} // verus!
