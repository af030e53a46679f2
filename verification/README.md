# git-monitor

A terminal monitor of a git repository: it shows the staged and working
files, the history (commit log or reflog) and the recent command output, and
runs git commands, aliases and contextual actions from the keyboard.

The library (`src/`) holds the monitor's logic, verified with Verus:

- `actions`: the actions offered in each context and the rules that filter
  and order them;
- `command`: command requests and their results, the command line with its
  history, and the external commands (pager, difftool, editor, rebase);
- `config`: the alias table and the alias sections read from a gitconfig;
- `display`: the text of the lines the screen shows;
- `feedback`: command output, errors, popups and toasts;
- `git`: status, log, branch, ref and diff data, built from what the
  repository reports;
- `input`: keys, key bindings and the keymap;
- `menu`: the menus (actions, aliases, confirmations, push) and their stack;
- `navigation`: which handler a key reaches, what a key does in the main
  list, and where the selection moves;
- `text`: the string functions the others share.

`app/` is the program around it: it reads the repository with git2, draws
with ratatui, reads keys with crossterm and runs the commands the library
decides on.  `tests/` runs the library on concrete values.
