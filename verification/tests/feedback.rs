use std::time::Duration;

use git_monitor::command::{CommandResult, CommandSource, FeedbackPolicy};
use git_monitor::feedback::toast::is_expired_after;
use git_monitor::feedback::{
    CommandOutput, Feedback, FeedbackManager, PopupContent, PopupState, Toast, ToastLevel,
};
use git_monitor::input::keymap::{KeyCode, KeyEvent, KeyModifiers};

fn make_result(success: bool, output: &str) -> CommandResult {
    CommandResult {
        success,
        exit_code: if success { Some(0) } else { Some(1) },
        stdout: output.to_string(),
        stderr: String::new(),
        duration: Duration::from_millis(100),
    }
}


#[test]
fn creates_default_manager() {
    let manager = FeedbackManager::new();

    assert!(manager.command_output.is_none());
    assert!(!manager.command_success); // Default is false
    assert!(!manager.popup.is_open());
    assert!(manager.toast.is_none());
    assert!(manager.error.is_none());
}

#[test]
fn default_and_new_are_equivalent() {
    let from_new = FeedbackManager::new();
    let from_default = FeedbackManager::default();

    assert_eq!(
        from_new.command_success,
        from_default.command_success
    );
    assert!(from_new.command_output.is_none());
    assert!(from_default.command_output.is_none());
}


#[test]
fn show_toast_sets_toast() {
    let mut manager = FeedbackManager::new();

    manager.show(
        Feedback::Toast {
            message: "Test message".to_string(),
            level: ToastLevel::Info,
        },
        FeedbackPolicy::Default,
    );

    assert!(manager.toast.is_some());
    let toast = manager.toast.as_ref().unwrap();
    assert_eq!(toast.message, "Test message");
    assert_eq!(toast.level, ToastLevel::Info);
}

#[test]
fn show_error_sets_error() {
    let mut manager = FeedbackManager::new();

    manager.show(
        Feedback::Error {
            message: "Something failed".to_string(),
        },
        FeedbackPolicy::Default,
    );

    assert_eq!(
        manager.error,
        Some("Something failed".to_string())
    );
}

#[test]
fn show_diff_opens_popup() {
    let mut manager = FeedbackManager::new();

    manager.show(
        Feedback::Diff {
            path: "src/main.rs".to_string(),
            content: "+new line\n-old line".to_string(),
            is_staged: false,
        },
        FeedbackPolicy::Default,
    );

    assert!(manager.popup.is_open());
    assert!(matches!(
        manager.popup.content,
        PopupContent::Diff { .. }
    ));
}

#[test]
fn show_command_output_stores_output() {
    let mut manager = FeedbackManager::new();
    let result = make_result(true, "output text");

    manager.show(
        Feedback::CommandOutput {
            command: "git status".to_string(),
            result,
            source: CommandSource::Keyboard,
        },
        FeedbackPolicy::InlineOnly,
    );

    assert!(manager.has_output());
    let output = manager.output().unwrap();
    assert_eq!(output.command, "git status");
    assert!(output.success);
}


#[test]
fn always_popup_opens_popup() {
    let mut manager = FeedbackManager::new();
    let result = make_result(true, "short");

    manager.show(
        Feedback::CommandOutput {
            command: "git status".to_string(),
            result,
            source: CommandSource::Keyboard,
        },
        FeedbackPolicy::AlwaysPopup,
    );

    assert!(manager.popup.is_open());
}

#[test]
fn inline_only_does_not_open_popup() {
    let mut manager = FeedbackManager::new();
    // Even with long output
    let result = make_result(
        true,
        "line1\nline2\nline3\nline4\nline5\nline6\nline7",
    );

    manager.show(
        Feedback::CommandOutput {
            command: "git log".to_string(),
            result,
            source: CommandSource::Keyboard,
        },
        FeedbackPolicy::InlineOnly,
    );

    assert!(!manager.popup.is_open());
    assert!(manager.has_output()); // Still stored inline
}

#[test]
fn silent_does_not_open_popup() {
    let mut manager = FeedbackManager::new();
    let result = make_result(false, "error occurred");

    manager.show(
        Feedback::CommandOutput {
            command: "git push".to_string(),
            result,
            source: CommandSource::Internal,
        },
        FeedbackPolicy::Silent,
    );

    assert!(!manager.popup.is_open());
}

#[test]
fn external_does_not_open_popup() {
    let mut manager = FeedbackManager::new();
    let result = make_result(true, "external output");

    manager.show(
        Feedback::CommandOutput {
            command: "vim".to_string(),
            result,
            source: CommandSource::Keyboard,
        },
        FeedbackPolicy::External,
    );

    assert!(!manager.popup.is_open());
}


#[test]
fn action_menu_source_always_opens_popup() {
    let mut manager = FeedbackManager::new();
    let result = make_result(true, "short");

    manager.show(
        Feedback::CommandOutput {
            command: "git status".to_string(),
            result,
            source: CommandSource::ActionMenu,
        },
        FeedbackPolicy::Default,
    );

    assert!(manager.popup.is_open());
}

#[test]
fn alias_browser_source_always_opens_popup() {
    let mut manager = FeedbackManager::new();
    let result = make_result(true, "short");

    manager.show(
        Feedback::CommandOutput {
            command: "git st".to_string(),
            result,
            source: CommandSource::AliasBrowser,
        },
        FeedbackPolicy::Default,
    );

    assert!(manager.popup.is_open());
}

#[test]
fn keyboard_source_opens_popup_on_failure() {
    let mut manager = FeedbackManager::new();
    let result = make_result(false, "error");

    manager.show(
        Feedback::CommandOutput {
            command: "git push".to_string(),
            result,
            source: CommandSource::Keyboard,
        },
        FeedbackPolicy::Default,
    );

    assert!(manager.popup.is_open());
}

#[test]
fn keyboard_source_opens_popup_on_long_output() {
    let mut manager = FeedbackManager::new();
    // More than AUTO_POPUP_LINE_THRESHOLD (5) lines
    let result = make_result(true, "1\n2\n3\n4\n5\n6\n7");

    manager.show(
        Feedback::CommandOutput {
            command: "git log".to_string(),
            result,
            source: CommandSource::Keyboard,
        },
        FeedbackPolicy::Default,
    );

    assert!(manager.popup.is_open());
}

#[test]
fn keyboard_source_no_popup_on_short_success() {
    let mut manager = FeedbackManager::new();
    // Less than or equal to threshold
    let result = make_result(true, "line1\nline2");

    manager.show(
        Feedback::CommandOutput {
            command: "git add".to_string(),
            result,
            source: CommandSource::Keyboard,
        },
        FeedbackPolicy::Default,
    );

    assert!(!manager.popup.is_open());
    assert!(manager.has_output()); // But still stored inline
}

#[test]
fn palette_source_follows_keyboard_rules() {
    let mut manager = FeedbackManager::new();
    let result = make_result(false, "error");

    manager.show(
        Feedback::CommandOutput {
            command: "git push".to_string(),
            result,
            source: CommandSource::Palette,
        },
        FeedbackPolicy::Default,
    );

    assert!(manager.popup.is_open());
}

#[test]
fn internal_source_follows_keyboard_rules() {
    let mut manager = FeedbackManager::new();
    let result = make_result(true, "short");

    manager.show(
        Feedback::CommandOutput {
            command: "git fetch".to_string(),
            result,
            source: CommandSource::Internal,
        },
        FeedbackPolicy::Default,
    );

    // Short success from internal source = no popup
    assert!(!manager.popup.is_open());
}


#[test]
fn opens_popup_with_stored_output() {
    let mut manager = FeedbackManager::new();
    // First store output without popup
    let result = make_result(true, "stored output");
    manager.show(
        Feedback::CommandOutput {
            command: "git status".to_string(),
            result,
            source: CommandSource::Keyboard,
        },
        FeedbackPolicy::InlineOnly,
    );
    assert!(!manager.popup.is_open());

    // Now expand it
    manager.expand_output();

    assert!(manager.popup.is_open());
    if let PopupContent::CommandOutput {
        command,
        output,
        success,
    } = &manager.popup.content
    {
        assert_eq!(command, "git status");
        assert_eq!(output, "stored output");
        assert!(*success);
    } else {
        panic!("Expected CommandOutput popup");
    }
}

#[test]
fn does_nothing_without_stored_output() {
    let mut manager = FeedbackManager::new();

    manager.expand_output();

    assert!(!manager.popup.is_open());
}


#[test]
fn opens_popup_with_stored_error() {
    let mut manager = FeedbackManager::new();
    manager.error = Some("Test error message".to_string());

    let result = manager.expand_error();

    assert!(result);
    assert!(manager.popup.is_open());
    if let PopupContent::ErrorDetails { title, message, .. } = &manager.popup.content {
        assert_eq!(title, "Error");
        assert_eq!(message, "Test error message");
    } else {
        panic!("Expected ErrorDetails popup");
    }
}

#[test]
fn returns_false_without_error() {
    let mut manager = FeedbackManager::new();

    let result = manager.expand_error();

    assert!(!result);
    assert!(!manager.popup.is_open());
}


#[test]
fn opens_popup_with_full_context() {
    let mut manager = FeedbackManager::new();

    manager.show_error_details(
        "Git Error",
        "Failed to push",
        vec!["Hint: try git pull first".to_string()],
    );

    assert!(manager.popup.is_open());
    if let PopupContent::ErrorDetails {
        title,
        message,
        context,
    } = &manager.popup.content
    {
        assert_eq!(title, "Git Error");
        assert_eq!(message, "Failed to push");
        assert_eq!(context.len(), 1);
        assert_eq!(context[0], "Hint: try git pull first");
    } else {
        panic!("Expected ErrorDetails popup");
    }
}

#[test]
fn works_with_empty_context() {
    let mut manager = FeedbackManager::new();

    manager.show_error_details("Error", "Something broke", vec![]);

    assert!(manager.popup.is_open());
    if let PopupContent::ErrorDetails { context, .. } = &manager.popup.content {
        assert!(context.is_empty());
    } else {
        panic!("Expected ErrorDetails popup");
    }
}


#[test]
fn clears_expired_toast() {
    let mut manager = FeedbackManager::new();
    // Create an already-expired toast by manipulating time
    // Since we can't easily manipulate the instant, we'll test the logic
    manager.toast = Some(Toast::new("Test", ToastLevel::Info));

    // Toast is not expired yet
    manager.tick();
    assert!(manager.toast.is_some());
}

#[test]
fn does_nothing_without_toast() {
    let mut manager = FeedbackManager::new();

    // Should not panic
    manager.tick();

    assert!(manager.toast.is_none());
}


#[test]
fn clear_output_removes_command_output() {
    let mut manager = FeedbackManager::new();
    manager.command_output = Some(CommandOutput {
        command: "test".to_string(),
        output: "output".to_string(),
        success: true,
    });

    manager.clear_output();

    assert!(manager.command_output.is_none());
}

#[test]
fn clear_error_removes_error() {
    let mut manager = FeedbackManager::new();
    manager.error = Some("Test error".to_string());

    manager.clear_error();

    assert!(manager.error.is_none());
}


#[test]
fn has_output_returns_true_when_present() {
    let mut manager = FeedbackManager::new();
    manager.command_output = Some(CommandOutput {
        command: "test".to_string(),
        output: "output".to_string(),
        success: true,
    });

    assert!(manager.has_output());
}

#[test]
fn has_output_returns_false_when_empty() {
    let manager = FeedbackManager::new();

    assert!(!manager.has_output());
}

#[test]
fn output_returns_reference_when_present() {
    let mut manager = FeedbackManager::new();
    manager.command_output = Some(CommandOutput {
        command: "git status".to_string(),
        output: "On branch main".to_string(),
        success: true,
    });

    let output = manager.output().unwrap();
    assert_eq!(output.command, "git status");
    assert_eq!(output.output, "On branch main");
    assert!(output.success);
}

#[test]
fn output_returns_none_when_empty() {
    let manager = FeedbackManager::new();

    assert!(manager.output().is_none());
}


#[test]
fn tracks_success_for_successful_command() {
    let mut manager = FeedbackManager::new();
    let result = make_result(true, "success");

    manager.show(
        Feedback::CommandOutput {
            command: "git status".to_string(),
            result,
            source: CommandSource::Keyboard,
        },
        FeedbackPolicy::InlineOnly,
    );

    assert!(manager.command_success);
}

#[test]
fn tracks_failure_for_failed_command() {
    let mut manager = FeedbackManager::new();
    let result = make_result(false, "error");

    manager.show(
        Feedback::CommandOutput {
            command: "git push".to_string(),
            result,
            source: CommandSource::Keyboard,
        },
        FeedbackPolicy::InlineOnly,
    );

    assert!(!manager.command_success);
}


#[test]
fn none_is_not_active() {
    let content = PopupContent::Empty;

    assert!(!content.is_active());
}

#[test]
fn command_output_is_active() {
    let content = PopupContent::CommandOutput {
        command: "git status".to_string(),
        output: "On branch main".to_string(),
        success: true,
    };

    assert!(content.is_active());
}

#[test]
fn diff_is_active() {
    let content = PopupContent::Diff {
        path: "file.txt".to_string(),
        content: "+new line".to_string(),
        is_staged: false,
    };

    assert!(content.is_active());
}

#[test]
fn none_line_count_is_zero() {
    let content = PopupContent::Empty;

    assert_eq!(content.line_count(), 0);
}

#[test]
fn command_output_line_count() {
    let content = PopupContent::CommandOutput {
        command: "test".to_string(),
        output: "line1\nline2\nline3".to_string(),
        success: true,
    };

    assert_eq!(content.line_count(), 3);
}

#[test]
fn diff_line_count() {
    let content = PopupContent::Diff {
        path: "file.txt".to_string(),
        content: "+a\n-b".to_string(),
        is_staged: false,
    };

    assert_eq!(content.line_count(), 2);
}

#[test]
fn command_output_title() {
    let content = PopupContent::CommandOutput {
        command: "git status".to_string(),
        output: String::new(),
        success: true,
    };

    assert_eq!(content.title(), " Output: git status ");
}

#[test]
fn diff_title() {
    let content = PopupContent::Diff {
        path: "src/main.rs".to_string(),
        content: String::new(),
        is_staged: false,
    };

    assert_eq!(content.title(), " Diff: src/main.rs ");
}

#[test]
fn error_details_title() {
    let content = PopupContent::ErrorDetails {
        title: "Failed".to_string(),
        message: "Something went wrong".to_string(),
        context: vec![],
    };

    assert_eq!(content.title(), " Error: Failed ");
}

#[test]
fn is_success_true_for_successful_command() {
    let content = PopupContent::CommandOutput {
        command: "test".to_string(),
        output: String::new(),
        success: true,
    };

    assert!(content.is_success());
}

#[test]
fn is_success_false_for_failed_command() {
    let content = PopupContent::CommandOutput {
        command: "test".to_string(),
        output: String::new(),
        success: false,
    };

    assert!(!content.is_success());
}

#[test]
fn is_success_true_for_non_command() {
    let content = PopupContent::Diff {
        path: String::new(),
        content: String::new(),
        is_staged: false,
    };

    assert!(content.is_success());
}


#[test]
fn default_is_closed() {
    let state = PopupState::default();

    assert!(!state.is_open());
}

#[test]
fn open_sets_content() {
    let mut state = PopupState::default();

    state.open(PopupContent::CommandOutput {
        command: "test".to_string(),
        output: "output".to_string(),
        success: true,
    });

    assert!(state.is_open());
}

#[test]
fn open_resets_scroll() {
    let mut state = PopupState {
        scroll_offset: 10,
        ..PopupState::default()
    };

    state.open(PopupContent::CommandOutput {
        command: "test".to_string(),
        output: "output".to_string(),
        success: true,
    });

    assert_eq!(state.scroll_offset, 0);
}

#[test]
fn close_clears_content() {
    let mut state = PopupState::default();
    state.open(PopupContent::CommandOutput {
        command: "test".to_string(),
        output: "output".to_string(),
        success: true,
    });

    state.close();

    assert!(!state.is_open());
}

#[test]
fn scroll_down_increases_offset() {
    let mut state = PopupState::default();
    state.open(PopupContent::CommandOutput {
        command: "test".to_string(),
        output: "1\n2\n3\n4\n5\n6\n7\n8\n9\n10".to_string(),
        success: true,
    });
    state.visible_height = 5;

    state.scroll_down(2);

    assert_eq!(state.scroll_offset, 2);
}

#[test]
fn scroll_down_respects_max() {
    let mut state = PopupState::default();
    state.open(PopupContent::CommandOutput {
        command: "test".to_string(),
        output: "1\n2\n3".to_string(), // 3 lines
        success: true,
    });
    state.visible_height = 2;

    state.scroll_down(100);

    // Max offset = 3 - 2 = 1
    assert_eq!(state.scroll_offset, 1);
}

#[test]
fn scroll_up_decreases_offset() {
    let mut state = PopupState {
        scroll_offset: 5,
        ..PopupState::default()
    };

    state.scroll_up(2);

    assert_eq!(state.scroll_offset, 3);
}

#[test]
fn scroll_up_stops_at_zero() {
    let mut state = PopupState {
        scroll_offset: 2,
        ..PopupState::default()
    };

    state.scroll_up(100);

    assert_eq!(state.scroll_offset, 0);
}

#[test]
fn scroll_to_top_resets_offset() {
    let mut state = PopupState {
        scroll_offset: 10,
        ..PopupState::default()
    };

    state.scroll_to_top();

    assert_eq!(state.scroll_offset, 0);
}

#[test]
fn scroll_to_bottom_sets_max_offset() {
    let mut state = PopupState::default();
    state.open(PopupContent::CommandOutput {
        command: "test".to_string(),
        output: "1\n2\n3\n4\n5".to_string(), // 5 lines
        success: true,
    });
    state.visible_height = 3;

    state.scroll_to_bottom();

    // Max offset = 5 - 3 = 2
    assert_eq!(state.scroll_offset, 2);
}


#[test]
fn new_creates_toast_with_level() {
    let toast = Toast::new("Test message", ToastLevel::Info);

    assert_eq!(toast.message, "Test message");
    assert_eq!(toast.level, ToastLevel::Info);
}

#[test]
fn info_creates_info_toast() {
    let toast = Toast::info("Info message");

    assert_eq!(toast.message, "Info message");
    assert_eq!(toast.level, ToastLevel::Info);
}

#[test]
fn success_creates_success_toast() {
    let toast = Toast::success("Success message");

    assert_eq!(toast.message, "Success message");
    assert_eq!(toast.level, ToastLevel::Success);
}

#[test]
fn warning_creates_warning_toast() {
    let toast = Toast::warning("Warning message");

    assert_eq!(toast.message, "Warning message");
    assert_eq!(toast.level, ToastLevel::Warning);
}

#[test]
fn error_creates_error_toast() {
    let toast = Toast::error("Error message");

    assert_eq!(toast.message, "Error message");
    assert_eq!(toast.level, ToastLevel::Error);
}

#[test]
fn new_toast_is_not_expired() {
    let toast = Toast::new("Test", ToastLevel::Info);

    assert!(!toast.is_expired());
}

#[test]
fn levels_are_distinct() {
    assert_ne!(ToastLevel::Info, ToastLevel::Success);
    assert_ne!(ToastLevel::Success, ToastLevel::Warning);
    assert_ne!(ToastLevel::Warning, ToastLevel::Error);
    assert_ne!(ToastLevel::Error, ToastLevel::Info);
}

#[test]
fn toast_expires_after_three_seconds() {
    assert!(!is_expired_after(0));
    assert!(!is_expired_after(2999));
    assert!(is_expired_after(3000));
    assert!(is_expired_after(10_000));
}

#[test]
fn toast_from_string_keeps_message() {
    let toast = Toast::from_string(format!("{} files", 3), ToastLevel::Success);
    assert_eq!(toast.message, "3 files");
    assert_eq!(toast.level, ToastLevel::Success);
}

fn long_popup(lines: usize, visible: usize) -> PopupState {
    let output: Vec<String> = (1..=lines).map(|i| i.to_string()).collect();
    let mut state = PopupState::default();
    state.open(PopupContent::CommandOutput {
        command: "git log".to_string(),
        output: output.join("\n"),
        success: true,
    });
    state.set_visible_height(visible);
    state
}

fn press(state: &mut PopupState, code: KeyCode) {
    state.handle_key(KeyEvent::from_code(code));
}

#[test]
fn popup_keys_scroll_within_bounds() {
    let mut state = long_popup(20, 10);
    press(&mut state, KeyCode::Char('j'));
    press(&mut state, KeyCode::Down);
    assert_eq!(state.scroll_offset, 2);
    press(&mut state, KeyCode::Char('k'));
    assert_eq!(state.scroll_offset, 1);
    press(&mut state, KeyCode::Char('G'));
    assert_eq!(state.scroll_offset, 10);
    press(&mut state, KeyCode::Down);
    assert_eq!(state.scroll_offset, 10);
    press(&mut state, KeyCode::Char('g'));
    assert_eq!(state.scroll_offset, 0);
    press(&mut state, KeyCode::Up);
    assert_eq!(state.scroll_offset, 0);
}

#[test]
fn popup_ctrl_keys_page() {
    let mut state = long_popup(40, 10);
    state.handle_key(KeyEvent::new(KeyCode::Char('d'), KeyModifiers::control()));
    assert_eq!(state.scroll_offset, 8);
    state.handle_key(KeyEvent::new(KeyCode::Char('d'), KeyModifiers::control()));
    assert_eq!(state.scroll_offset, 16);
    state.handle_key(KeyEvent::new(KeyCode::Char('u'), KeyModifiers::control()));
    assert_eq!(state.scroll_offset, 8);
    // Without Ctrl, d does nothing
    press(&mut state, KeyCode::Char('d'));
    assert_eq!(state.scroll_offset, 8);
}

#[test]
fn popup_q_and_esc_close() {
    let mut state = long_popup(3, 2);
    press(&mut state, KeyCode::Char('q'));
    assert!(!state.is_open());
    let mut state = long_popup(3, 2);
    press(&mut state, KeyCode::Esc);
    assert!(!state.is_open());
    assert_eq!(state.scroll_offset, 0);
}

#[test]
fn page_down_stops_at_last_page() {
    let mut state = long_popup(12, 10);
    state.page_down();
    assert_eq!(state.scroll_offset, 2);
    state.page_up();
    assert_eq!(state.scroll_offset, 0);
}

#[test]
fn error_details_line_count_includes_context() {
    let content = PopupContent::ErrorDetails {
        title: "Git Error".to_string(),
        message: "a\nb".to_string(),
        context: vec!["hint".to_string()],
    };
    assert_eq!(content.line_count(), 3 + 2 + 1);
    assert_eq!(content.title(), " Error: Git Error ");
}

#[test]
fn show_command_output_stores_shown_output() {
    let mut manager = FeedbackManager::new();
    let result = CommandResult {
        success: true,
        exit_code: Some(0),
        stdout: "ignored".to_string(),
        stderr: "progress".to_string(),
        duration: Duration::from_millis(1),
    };
    manager.show_command_output(
        "git fetch".to_string(),
        result,
        CommandSource::Keyboard,
        FeedbackPolicy::Default,
    );
    assert_eq!(manager.output().unwrap().output, "progress");
    assert!(!manager.popup.is_open());
}

#[test]
fn tick_after_drops_toast_once_expired() {
    let mut manager = FeedbackManager::new();
    manager.error = Some("kept".to_string());
    manager.toast = Some(Toast::new("Test", ToastLevel::Info));
    manager.tick_after(2999);
    assert!(manager.toast.is_some());
    manager.tick_after(3000);
    assert!(manager.toast.is_none());
    assert_eq!(manager.error.as_deref(), Some("kept"));
    manager.tick_after(5000);
    assert!(manager.toast.is_none());
}

#[test]
fn expand_output_keeps_toast() {
    let mut manager = FeedbackManager::new();
    manager.toast = Some(Toast::new("Saved", ToastLevel::Success));
    manager.show_command_output(
        "git status".to_string(),
        make_result(true, "clean"),
        CommandSource::Keyboard,
        FeedbackPolicy::InlineOnly,
    );
    manager.expand_output();
    assert!(manager.popup.is_open());
    assert_eq!(manager.toast.as_ref().map(|t| t.message.as_str()), Some("Saved"));
    assert!(manager.command_success);
    manager.clear_output();
    assert!(!manager.has_output());
    assert!(manager.toast.is_some());
}
