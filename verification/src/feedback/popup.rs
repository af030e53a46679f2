//! Popup state and content management.
use vstd::prelude::*;

use crate::input::keymap::{KeyCode, KeyEvent};
use crate::text::{concat3, line_count, line_count_of};

verus! {

/// Content displayed in the popup
#[derive(Debug, Clone)]
pub enum PopupContent {
    /// No popup active
    Empty,
    /// Command output
    CommandOutput {
        /// The command that was run
        command: String,
        /// The output content
        output: String,
        /// Whether the command succeeded
        success: bool,
    },
    /// File diff
    Diff {
        /// Path to the file
        path: String,
        /// Diff content
        content: String,
        /// Whether this is a staged diff
        is_staged: bool,
    },
    /// Error details with context
    ErrorDetails {
        /// Short error title
        title: String,
        /// Primary error message
        message: String,
        /// Additional context lines (stack trace, suggestions, etc.)
        context: Vec<String>,
    },
}

impl Default for PopupContent {
    fn default() -> (res: Self)
        ensures
            res is Empty,
    {
        PopupContent::Empty
    }
}

/// Number of lines a popup shows: the lines of its text; for error details a
/// title line, a blank line, the message lines, a blank line and one line per
/// context entry.
pub open spec fn popup_lines(c: PopupContent) -> nat {
    match c {
        PopupContent::Empty => 0,
        PopupContent::CommandOutput { output, .. } => line_count(output@),
        PopupContent::Diff { content, .. } => line_count(content@),
        PopupContent::ErrorDetails { message, context, .. } => 3 + line_count(message@)
            + context@.len(),
    }
}

/// The title of a popup.
pub open spec fn popup_title(c: PopupContent) -> Seq<char> {
    match c {
        PopupContent::Empty => seq![],
        PopupContent::CommandOutput { command, .. } => " Output: "@ + command@ + " "@,
        PopupContent::Diff { path, .. } => " Diff: "@ + path@ + " "@,
        PopupContent::ErrorDetails { title, .. } => " Error: "@ + title@ + " "@,
    }
}

/// The main text of a popup.
pub open spec fn popup_text(c: PopupContent) -> Seq<char> {
    match c {
        PopupContent::Empty => seq![],
        PopupContent::CommandOutput { output, .. } => output@,
        PopupContent::Diff { content, .. } => content@,
        PopupContent::ErrorDetails { message, .. } => message@,
    }
}

impl PopupContent {
    /// Check if popup is active
    pub fn is_active(&self) -> (res: bool)
        ensures
            res == !(*self is Empty),
    {
        match self {
            PopupContent::Empty => false,
            _ => true,
        }
    }

    /// Get the number of lines
    pub fn line_count(&self) -> (res: usize)
        requires
            countable(*self),
        ensures
            res == popup_lines(*self),
    {
        match self {
            PopupContent::Empty => 0,
            PopupContent::CommandOutput { output, .. } => line_count_of(output.as_str()),
            PopupContent::Diff { content, .. } => line_count_of(content.as_str()),
            PopupContent::ErrorDetails { message, context, .. } => 3 + line_count_of(
                message.as_str(),
            ) + context.len(),
        }
    }

    /// Get the title for the popup
    pub fn title(&self) -> (res: String)
        ensures
            res@ == popup_title(*self),
    {
        match self {
            PopupContent::Empty => String::new(),
            PopupContent::CommandOutput { command, .. } => concat3(
                " Output: ",
                command.as_str(),
                " ",
            ),
            PopupContent::Diff { path, .. } => concat3(" Diff: ", path.as_str(), " "),
            PopupContent::ErrorDetails { title, .. } => concat3(" Error: ", title.as_str(), " "),
        }
    }

    /// Get the content for iteration
    pub fn content(&self) -> (res: &str)
        ensures
            res@ == popup_text(*self),
    {
        match self {
            PopupContent::Empty => {
                proof {
                    reveal_strlit("");
                }
                ""
            },
            PopupContent::CommandOutput { output, .. } => output.as_str(),
            PopupContent::Diff { content, .. } => content.as_str(),
            PopupContent::ErrorDetails { message, .. } => message.as_str(),
        }
    }

    /// Check if this is a command output popup
    pub fn is_command_output(&self) -> (res: bool)
        ensures
            res == (*self is CommandOutput),
    {
        match self {
            PopupContent::CommandOutput { .. } => true,
            _ => false,
        }
    }

    /// Get success status for command output
    pub fn is_success(&self) -> (res: bool)
        ensures
            res == (match *self {
                PopupContent::CommandOutput { success, .. } => success,
                _ => true,
            }),
    {
        match self {
            PopupContent::CommandOutput { success, .. } => *success,
            _ => true,
        }
    }
}

/// Popup state with scroll position
#[derive(Debug, Clone)]
pub struct PopupState {
    /// Content being displayed
    pub content: PopupContent,
    /// Scroll offset (line number at top of view)
    pub scroll_offset: usize,
    /// Visible height from last render (for scroll calculations)
    pub visible_height: usize,
}

/// The largest scroll offset: lines beyond the visible height, or zero.
pub open spec fn max_offset(c: PopupContent, visible: usize) -> nat {
    if popup_lines(c) > visible {
        (popup_lines(c) - visible) as nat
    } else {
        0
    }
}

/// Error details whose line count fits a `usize`.
pub open spec fn countable(c: PopupContent) -> bool {
    c matches PopupContent::ErrorDetails { message, context, .. } ==> 3 + line_count(message@)
        + context@.len() <= usize::MAX
}

impl Default for PopupState {
    fn default() -> (res: Self)
        ensures
            res.content is Empty,
            res.scroll_offset == 0,
            res.visible_height == 0,
    {
        PopupState { content: PopupContent::Empty, scroll_offset: 0, visible_height: 0 }
    }
}

impl PopupState {
    /// Open popup with content
    pub fn open(&mut self, content: PopupContent)
        ensures
            final(self).content == content,
            final(self).scroll_offset == 0,
            final(self).visible_height == old(self).visible_height,
    {
        self.content = content;
        self.scroll_offset = 0;
    }

    /// Close popup
    pub fn close(&mut self)
        ensures
            final(self).content is Empty,
            final(self).scroll_offset == 0,
            final(self).visible_height == old(self).visible_height,
    {
        self.content = PopupContent::Empty;
        self.scroll_offset = 0;
    }

    /// Check if popup is open
    pub fn is_open(&self) -> (res: bool)
        ensures
            res == !(self.content is Empty),
    {
        self.content.is_active()
    }

    /// Get the content
    pub fn content(&self) -> (res: &PopupContent)
        ensures
            *res == self.content,
    {
        &self.content
    }

    /// Scroll down by n lines, no further than the last page
    pub fn scroll_down(&mut self, n: usize)
        requires
            countable(old(self).content),
        ensures
            final(self).scroll_offset == if old(self).scroll_offset + n <= max_offset(
                old(self).content,
                old(self).visible_height,
            ) {
                (old(self).scroll_offset + n) as nat
            } else {
                max_offset(old(self).content, old(self).visible_height)
            },
            final(self).content == old(self).content,
            final(self).visible_height == old(self).visible_height,
    {
        let lines = self.content.line_count();
        let max = if lines > self.visible_height {
            lines - self.visible_height
        } else {
            0
        };
        let target = if n <= max && self.scroll_offset <= max - n {
            self.scroll_offset + n
        } else {
            max
        };
        self.scroll_offset = target;
    }

    /// Scroll up by n lines, stopping at the top
    pub fn scroll_up(&mut self, n: usize)
        ensures
            final(self).scroll_offset == if old(self).scroll_offset >= n {
                (old(self).scroll_offset - n) as nat
            } else {
                0
            },
            final(self).content == old(self).content,
            final(self).visible_height == old(self).visible_height,
    {
        self.scroll_offset = if self.scroll_offset >= n {
            self.scroll_offset - n
        } else {
            0
        };
    }

    /// Jump to top
    pub fn scroll_to_top(&mut self)
        ensures
            final(self).scroll_offset == 0,
            final(self).content == old(self).content,
            final(self).visible_height == old(self).visible_height,
    {
        self.scroll_offset = 0;
    }

    /// Jump to bottom
    pub fn scroll_to_bottom(&mut self)
        requires
            countable(old(self).content),
        ensures
            final(self).scroll_offset == max_offset(old(self).content, old(self).visible_height),
            final(self).content == old(self).content,
            final(self).visible_height == old(self).visible_height,
    {
        let lines = self.content.line_count();
        self.scroll_offset = if lines > self.visible_height {
            lines - self.visible_height
        } else {
            0
        };
    }

    /// Page down (scroll by visible height less two lines)
    pub fn page_down(&mut self)
        requires
            countable(old(self).content),
        ensures
            final(self).scroll_offset == if old(self).scroll_offset + page_step(
                old(self).visible_height,
            ) <= max_offset(old(self).content, old(self).visible_height) {
                (old(self).scroll_offset + page_step(old(self).visible_height)) as nat
            } else {
                max_offset(old(self).content, old(self).visible_height)
            },
            final(self).content == old(self).content,
            final(self).visible_height == old(self).visible_height,
    {
        let step = if self.visible_height >= 2 {
            self.visible_height - 2
        } else {
            0
        };
        self.scroll_down(step);
    }

    /// Page up (scroll by visible height less two lines)
    pub fn page_up(&mut self)
        ensures
            final(self).scroll_offset == if old(self).scroll_offset >= page_step(
                old(self).visible_height,
            ) {
                (old(self).scroll_offset - page_step(old(self).visible_height)) as nat
            } else {
                0
            },
            final(self).content == old(self).content,
            final(self).visible_height == old(self).visible_height,
    {
        let step = if self.visible_height >= 2 {
            self.visible_height - 2
        } else {
            0
        };
        self.scroll_up(step);
    }

    /// Set visible height (called by renderer)
    pub fn set_visible_height(&mut self, height: usize)
        ensures
            final(self).visible_height == height,
            final(self).content == old(self).content,
            final(self).scroll_offset == old(self).scroll_offset,
    {
        self.visible_height = height;
    }
}

/// The scroll step of a page: the visible height less two lines.
pub open spec fn page_step(visible: usize) -> nat {
    if visible >= 2 {
        (visible - 2) as nat
    } else {
        0
    }
}

/// The effect of a key on an open popup: Esc and q close it, j and Down
/// scroll a line down, k and Up a line up, Ctrl+d and Ctrl+u a page down and
/// up, g and G jump to the top and the bottom; other keys change nothing.
pub open spec fn popup_after_key(p: PopupState, key: KeyEvent) -> PopupState {
    let max = max_offset(p.content, p.visible_height);
    let down = |n: nat|
        if p.scroll_offset + n <= max {
            (p.scroll_offset + n) as usize
        } else {
            max as usize
        };
    let up = |n: nat|
        if p.scroll_offset >= n {
            (p.scroll_offset - n) as usize
        } else {
            0usize
        };
    match key.code {
        KeyCode::Esc => PopupState { content: PopupContent::Empty, scroll_offset: 0, ..p },
        KeyCode::Down => PopupState { scroll_offset: down(1), ..p },
        KeyCode::Up => PopupState { scroll_offset: up(1), ..p },
        KeyCode::Char(c) => if c == 'q' {
            PopupState { content: PopupContent::Empty, scroll_offset: 0, ..p }
        } else if c == 'j' {
            PopupState { scroll_offset: down(1), ..p }
        } else if c == 'k' {
            PopupState { scroll_offset: up(1), ..p }
        } else if c == 'd' && key.modifiers.control {
            PopupState { scroll_offset: down(page_step(p.visible_height)), ..p }
        } else if c == 'u' && key.modifiers.control {
            PopupState { scroll_offset: up(page_step(p.visible_height)), ..p }
        } else if c == 'g' {
            PopupState { scroll_offset: 0, ..p }
        } else if c == 'G' {
            PopupState { scroll_offset: max as usize, ..p }
        } else {
            p
        },
        _ => p,
    }
}

impl PopupState {
    /// Handle a key while the popup is shown.
    pub fn handle_key(&mut self, key: KeyEvent)
        requires
            countable(old(self).content),
        ensures
            *final(self) == popup_after_key(*old(self), key),
    {
        match key.code {
            KeyCode::Esc => self.close(),
            KeyCode::Down => self.scroll_down(1),
            KeyCode::Up => self.scroll_up(1),
            KeyCode::Char(c) => {
                if c == 'q' {
                    self.close();
                } else if c == 'j' {
                    self.scroll_down(1);
                } else if c == 'k' {
                    self.scroll_up(1);
                } else if c == 'd' && key.modifiers.control {
                    self.page_down();
                } else if c == 'u' && key.modifiers.control {
                    self.page_up();
                } else if c == 'g' {
                    self.scroll_to_top();
                } else if c == 'G' {
                    self.scroll_to_bottom();
                }
            },
            _ => {},
        }
    }
}

/// No key scrolls an open popup past its last page.
pub proof fn lemma_key_keeps_offset(p: PopupState, key: KeyEvent)
    requires
        p.scroll_offset <= max_offset(p.content, p.visible_height),
        max_offset(p.content, p.visible_height) <= usize::MAX,
    ensures
        popup_after_key(p, key).scroll_offset <= max_offset(
            popup_after_key(p, key).content,
            popup_after_key(p, key).visible_height,
        ),
{
}

} // verus!
