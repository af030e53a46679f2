//! Unified feedback system for command output, toasts, and popups.
use vstd::prelude::*;

pub mod popup;
pub mod toast;

pub use popup::{PopupContent, PopupState};
pub use toast::{Toast, ToastLevel};

use crate::command::executor::shown_output;
use crate::command::{CommandResult, CommandSource, FeedbackPolicy};
use crate::text::{line_count, owned};
use toast::{expired_after, is_expired_after};

verus! {

/// Threshold for auto-opening popup (line count)
pub const AUTO_POPUP_LINE_THRESHOLD: usize = 5;

/// Types of feedback that can be shown to the user
#[derive(Debug, Clone)]
pub enum Feedback {
    /// Command completed - show output
    CommandOutput {
        /// The command that was run
        command: String,
        /// Result of execution
        result: CommandResult,
        /// How the command was triggered
        source: CommandSource,
    },
    /// Transient notification (auto-dismisses)
    Toast {
        /// Message to display
        message: String,
        /// Severity/type of toast
        level: ToastLevel,
    },
    /// Error requiring acknowledgment
    Error {
        /// Error message
        message: String,
    },
    /// File diff to display
    Diff {
        /// Path to the file
        path: String,
        /// Diff content
        content: String,
        /// Whether this is a staged diff
        is_staged: bool,
    },
}

/// Manages all feedback display state
#[derive(Debug, Clone)]
pub struct FeedbackManager {
    /// Current command output (for inline display)
    pub command_output: Option<CommandOutput>,
    /// Whether the last command succeeded
    pub command_success: bool,
    /// Current popup state
    pub popup: PopupState,
    /// Current toast (auto-dismisses)
    pub toast: Option<Toast>,
    /// Persistent error message
    pub error: Option<String>,
}

/// Stored command output for inline display
#[derive(Debug)]
pub struct CommandOutput {
    /// The command that was run
    pub command: String,
    /// The output to display
    pub output: String,
    /// Whether the command succeeded
    pub success: bool,
}

impl Clone for CommandOutput {
    fn clone(&self) -> (res: Self)
        ensures
            res == *self,
    {
        CommandOutput {
            command: self.command.clone(),
            output: self.output.clone(),
            success: self.success,
        }
    }
}

/// Whether command output opens the popup by itself: always under
/// `AlwaysPopup`, never under `InlineOnly`, `Silent` or `External`; under the
/// default policy always for commands chosen in a menu, and otherwise on
/// failure or on output longer than the threshold.
pub open spec fn auto_popup(
    policy: FeedbackPolicy,
    source: CommandSource,
    success: bool,
    lines: nat,
) -> bool {
    match policy {
        FeedbackPolicy::AlwaysPopup => true,
        FeedbackPolicy::InlineOnly | FeedbackPolicy::Silent | FeedbackPolicy::External => false,
        FeedbackPolicy::Default => match source {
            CommandSource::ActionMenu | CommandSource::AliasBrowser => true,
            _ => !success || lines > AUTO_POPUP_LINE_THRESHOLD,
        },
    }
}

impl Default for FeedbackManager {
    fn default() -> (res: Self)
        ensures
            res.command_output is None,
            !res.command_success,
            res.popup.content is Empty,
            res.popup.scroll_offset == 0,
            res.popup.visible_height == 0,
            res.toast is None,
            res.error is None,
    {
        FeedbackManager {
            command_output: None,
            command_success: false,
            popup: PopupState::default(),
            toast: None,
            error: None,
        }
    }
}

/// The toast after a tick, for a toast shown `elapsed_ms` milliseconds: none
/// once it has expired, else as it was.
pub open spec fn toast_after(toast: Option<Toast>, elapsed_ms: u128) -> Option<Toast> {
    if toast is Some && expired_after(elapsed_ms) {
        None
    } else {
        toast
    }
}

impl FeedbackManager {
    /// Create a new feedback manager
    pub fn new() -> (res: Self)
        ensures
            res.command_output is None,
            !res.command_success,
            res.popup.content is Empty,
            res.popup.scroll_offset == 0,
            res.popup.visible_height == 0,
            res.toast is None,
            res.error is None,
    {
        FeedbackManager::default()
    }

    /// Show feedback based on type and policy
    pub fn show(&mut self, feedback: Feedback, policy: FeedbackPolicy)
        ensures
            match feedback {
                Feedback::CommandOutput { command, result, source } => {
                    let out = shown_output(result);
                    let popup = auto_popup(policy, source, result.success, line_count(out));
                    &&& final(self).command_output matches Some(o) && o.command@ == command@
                        && o.output@ == out && o.success == result.success
                    &&& final(self).command_success == result.success
                    &&& final(self).toast == old(self).toast
                    &&& final(self).error == old(self).error
                    &&& popup ==> (final(self).popup.content matches PopupContent::CommandOutput {
                        command: c,
                        output: o,
                        success: s,
                    } && c@ == command@ && o@ == out && s == result.success)
                        && final(self).popup.scroll_offset == 0
                    &&& !popup ==> final(self).popup == old(self).popup
                },
                Feedback::Toast { message, level } => {
                    &&& final(self).toast matches Some(t) && t.message == message && t.level
                        == level
                    &&& final(self).popup == old(self).popup
                    &&& final(self).error == old(self).error
                    &&& final(self).command_output == old(self).command_output
                    &&& final(self).command_success == old(self).command_success
                },
                Feedback::Error { message } => {
                    &&& final(self).error == Some(message)
                    &&& final(self).popup == old(self).popup
                    &&& final(self).toast == old(self).toast
                    &&& final(self).command_output == old(self).command_output
                    &&& final(self).command_success == old(self).command_success
                },
                Feedback::Diff { path, content, is_staged } => {
                    &&& final(self).popup.content == (PopupContent::Diff {
                        path,
                        content,
                        is_staged,
                    })
                    &&& final(self).popup.scroll_offset == 0
                    &&& final(self).popup.visible_height == old(self).popup.visible_height
                    &&& final(self).error == old(self).error
                    &&& final(self).toast == old(self).toast
                    &&& final(self).command_output == old(self).command_output
                    &&& final(self).command_success == old(self).command_success
                },
            },
    {
        match feedback {
            Feedback::CommandOutput { command, result, source } => {
                self.show_command_output(command, result, source, policy);
            },
            Feedback::Toast { message, level } => {
                self.toast = Some(Toast::from_string(message, level));
            },
            Feedback::Error { message } => {
                self.error = Some(message);
            },
            Feedback::Diff { path, content, is_staged } => {
                self.popup.open(PopupContent::Diff { path, content, is_staged });
            },
        }
    }

    /// Handle command output feedback
    pub fn show_command_output(
        &mut self,
        command: String,
        result: CommandResult,
        source: CommandSource,
        policy: FeedbackPolicy,
    )
        ensures
            ({
                let out = shown_output(result);
                let popup = auto_popup(policy, source, result.success, line_count(out));
                &&& final(self).command_output matches Some(o) && o.command == command && o.output@
                    == out && o.success == result.success
                &&& final(self).command_success == result.success
                &&& final(self).toast == old(self).toast
                &&& final(self).error == old(self).error
                &&& popup ==> (final(self).popup.content matches PopupContent::CommandOutput {
                    command: c,
                    output: o,
                    success: s,
                } && c == command && o@ == out && s == result.success)
                    && final(self).popup.scroll_offset == 0
                &&& !popup ==> final(self).popup == old(self).popup
            }),
    {
        let output = owned(result.display_output());
        let success = result.success;
        let line_count = result.line_count();
        self.command_output = Some(
            CommandOutput { command: command.clone(), output: output.clone(), success },
        );
        self.command_success = success;
        let should_popup = match policy {
            FeedbackPolicy::AlwaysPopup => true,
            FeedbackPolicy::InlineOnly | FeedbackPolicy::Silent | FeedbackPolicy::External => false,
            FeedbackPolicy::Default => match source {
                CommandSource::ActionMenu | CommandSource::AliasBrowser => true,
                CommandSource::Keyboard | CommandSource::Palette | CommandSource::Internal => {
                    !success || line_count > AUTO_POPUP_LINE_THRESHOLD
                },
            },
        };
        if should_popup {
            self.popup.open(PopupContent::CommandOutput { command, output, success });
        }
    }

    /// Open popup for current command output (manual expansion)
    pub fn expand_output(&mut self)
        ensures
            final(self).command_output == old(self).command_output,
            final(self).error == old(self).error,
            old(self).command_output matches Some(o) ==> (final(self).popup.content == (
            PopupContent::CommandOutput {
                command: o.command,
                output: o.output,
                success: o.success,
            }) && final(self).popup.scroll_offset == 0 && final(self).popup.visible_height == old(
                self,
            ).popup.visible_height),
            old(self).command_output is None ==> final(self).popup == old(self).popup,
            final(self).command_success == old(self).command_success,
            final(self).toast == old(self).toast,
    {
        match &self.command_output {
            Some(output) => {
                let content = PopupContent::CommandOutput {
                    command: output.command.clone(),
                    output: output.output.clone(),
                    success: output.success,
                };
                self.popup.open(content);
            },
            None => {},
        }
    }

    /// Clear command output
    pub fn clear_output(&mut self)
        ensures
            final(self).command_output is None,
            final(self).popup == old(self).popup,
            final(self).error == old(self).error,
            final(self).command_success == old(self).command_success,
            final(self).toast == old(self).toast,
    {
        self.command_output = None;
    }

    /// Clear error message
    pub fn clear_error(&mut self)
        ensures
            final(self).error is None,
            final(self).popup == old(self).popup,
            final(self).command_output == old(self).command_output,
            final(self).command_success == old(self).command_success,
            final(self).toast == old(self).toast,
    {
        self.error = None;
    }

    /// Show detailed error information in a popup
    pub fn show_error_details(&mut self, title: &str, message: &str, context: Vec<String>)
        ensures
            final(self).popup.content matches PopupContent::ErrorDetails { title: t, message: m, context: c }
                && t@ == title@ && m@ == message@ && c == context,
            final(self).popup.scroll_offset == 0,
            final(self).popup.visible_height == old(self).popup.visible_height,
            final(self).error == old(self).error,
            final(self).command_output == old(self).command_output,
            final(self).command_success == old(self).command_success,
            final(self).toast == old(self).toast,
    {
        self.popup.open(
            PopupContent::ErrorDetails { title: owned(title), message: owned(message), context },
        );
    }

    /// Expand current error to popup (if one exists); returns whether there
    /// was an error to expand.
    pub fn expand_error(&mut self) -> (res: bool)
        ensures
            res == old(self).error is Some,
            final(self).error == old(self).error,
            old(self).error matches Some(e) ==> (final(self).popup.content matches PopupContent::ErrorDetails {
                title: t,
                message: m,
                context: c,
            } && t@ == "Error"@ && m == e && c@.len() == 0) && final(self).popup.scroll_offset
                == 0 && final(self).popup.visible_height == old(self).popup.visible_height,
            old(self).error is None ==> final(self).popup == old(self).popup,
            final(self).command_output == old(self).command_output,
            final(self).command_success == old(self).command_success,
            final(self).toast == old(self).toast,
    {
        match &self.error {
            Some(error) => {
                let content = PopupContent::ErrorDetails {
                    title: owned("Error"),
                    message: error.clone(),
                    context: Vec::new(),
                };
                self.popup.open(content);
                true
            },
            None => false,
        }
    }

    /// The toast expiry, for a toast shown `elapsed_ms` milliseconds: an
    /// expired toast is dropped; everything else stays.
    pub fn tick_after(&mut self, elapsed_ms: u128)
        ensures
            final(self).toast == toast_after(old(self).toast, elapsed_ms),
            final(self).popup == old(self).popup,
            final(self).error == old(self).error,
            final(self).command_output == old(self).command_output,
            final(self).command_success == old(self).command_success,
    {
        if self.toast.is_some() && is_expired_after(elapsed_ms) {
            self.toast = None;
        }
    }

    /// Tick - handle time-based updates (toast expiry): the toast is dropped
    /// once it has been shown for `TOAST_DURATION_MS`.  How long it has been
    /// shown is read from the clock; for that reading the result is
    /// `tick_after`'s.
    pub fn tick(&mut self)
        ensures
            exists|elapsed_ms: u128|
                final(self).toast == #[trigger] toast_after(old(self).toast, elapsed_ms),
            final(self).popup == old(self).popup,
            final(self).error == old(self).error,
            final(self).command_output == old(self).command_output,
            final(self).command_success == old(self).command_success,
    {
        let elapsed_ms = match &self.toast {
            Some(toast) => toast.elapsed_ms(),
            None => 0,
        };
        self.tick_after(elapsed_ms);
        assert(self.toast == toast_after(old(self).toast, elapsed_ms));
    }

    /// Check if there is output to display inline
    pub fn has_output(&self) -> (res: bool)
        ensures
            res == self.command_output is Some,
    {
        self.command_output.is_some()
    }

    /// Get output for inline display
    pub fn output(&self) -> (res: Option<&CommandOutput>)
        ensures
            res matches Some(o) ==> self.command_output == Some(*o),
            res is None ==> self.command_output is None,
    {
        match &self.command_output {
            Some(o) => Some(o),
            None => None,
        }
    }
}

} // verus!
