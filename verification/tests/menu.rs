use git_monitor::actions::{Action, ActionCondition, ActionType, AppAction, Context};
use git_monitor::command::CommandSource;
use git_monitor::config::{Alias, AliasSection};
use git_monitor::git::GitStatus;
use git_monitor::input::keymap::{KeyCode, KeyEvent};
use git_monitor::input::KeyBinding;
use git_monitor::menu::{
    ActionMenu, AliasItemsMenu, AliasSectionMenu, Checkbox, ConfirmMenu, ItemStyle, Menu,
    MenuAction, MenuItem, MenuResult, MenuStack, PushConfirmMenu, SelectItem, SelectMenu,
};

fn test_repo_path() -> String {
    "/test/repo".to_string()
}

fn create_app_action(key: &str, label: &str, action: AppAction) -> Action {
    Action {
        key: key.to_string(),
        binding: Some(KeyBinding::char(key.chars().next().unwrap_or('x'))),
        label: label.to_string(),
        action_type: ActionType::App(action),
        contexts: vec![Context::WorkingFiles],
        priority: 10,
        condition: ActionCondition::default(),
    }
}

fn create_cli_action(key: &str, label: &str, cmd: &str) -> Action {
    Action {
        key: key.to_string(),
        binding: None,
        label: label.to_string(),
        action_type: ActionType::Cli(cmd.to_string()),
        contexts: vec![Context::WorkingFiles],
        priority: 20,
        condition: ActionCondition::default(),
    }
}

fn create_alias_action(alias_name: &str, alias_cmd: &str) -> Action {
    let alias = Alias {
        name: alias_name.to_string(),
        command: alias_cmd.to_string(),
    };
    Action::from_alias(&alias, vec![Context::WorkingFiles])
}


#[test]
fn creates_menu_with_context_and_actions() {
    let actions = vec![
        create_app_action("s", "Stage", AppAction::ToggleStage),
        create_app_action("d", "Diff", AppAction::ShowDiff),
    ];
    let menu = ActionMenu::new(
        Context::WorkingFiles,
        actions,
        test_repo_path(),
    );

    assert_eq!(menu.context, Context::WorkingFiles);
    assert_eq!(menu.actions.len(), 2);
    assert_eq!(menu.selected, 0);
}

#[test]
fn stores_repo_path() {
    let path = "/custom/path".to_string();
    let menu = ActionMenu::new(
        Context::StagedFiles,
        vec![],
        path.clone(),
    );

    assert_eq!(menu.repo_path, path);
}


#[test]
fn action_returns_context_display_name() {
    let menu = ActionMenu::new(
        Context::WorkingFiles,
        vec![],
        test_repo_path(),
    );
    assert_eq!(menu.title(), "Working Files");

    let menu = ActionMenu::new(
        Context::BranchHeader,
        vec![],
        test_repo_path(),
    );

    assert_eq!(menu.context_name(), "Branch");
}

#[test]
fn returns_staged_files_for_staged_context() {
    let menu = ActionMenu::new(
        Context::StagedFiles,
        vec![],
        test_repo_path(),
    );
    assert_eq!(menu.title(), "Staged Files");
}

#[test]
fn returns_history_for_history_context() {
    let menu = ActionMenu::new(
        Context::HistoryCommits,
        vec![],
        test_repo_path(),
    );
    assert_eq!(menu.title(), "History");
}


#[test]
fn converts_actions_to_menu_items() {
    let actions = vec![
        create_app_action("s", "Stage", AppAction::ToggleStage),
        create_app_action("d", "Diff", AppAction::ShowDiff),
    ];
    let menu = ActionMenu::new(
        Context::WorkingFiles,
        actions,
        test_repo_path(),
    );

    let items = menu.items();

    assert_eq!(items.len(), 2);
    assert_eq!(items[0].label, "Stage");
    assert_eq!(items[1].label, "Diff");
}

#[test]
fn includes_key_hints() {
    let actions = vec![create_app_action("s", "Stage", AppAction::ToggleStage)];
    let menu = ActionMenu::new(
        Context::WorkingFiles,
        actions,
        test_repo_path(),
    );

    let items = menu.items();

    assert_eq!(items[0].key_hint, Some("s".to_string()));
}

#[test]
fn cli_actions_have_command_prefix() {
    let actions = vec![create_cli_action("!", "Run command", "echo test")];
    let menu = ActionMenu::new(
        Context::WorkingFiles,
        actions,
        test_repo_path(),
    );

    let items = menu.items();

    assert!(items[0].label.starts_with("⌘ "));
}

#[test]
fn alias_actions_have_alias_prefix() {
    let actions = vec![create_alias_action("co", "checkout")];
    let menu = ActionMenu::new(
        Context::WorkingFiles,
        actions,
        test_repo_path(),
    );

    let items = menu.items();

    assert!(items[0].label.starts_with("⎇ "));
}

#[test]
fn app_actions_have_no_prefix() {
    let actions = vec![create_app_action("s", "Stage", AppAction::ToggleStage)];
    let menu = ActionMenu::new(
        Context::WorkingFiles,
        actions,
        test_repo_path(),
    );

    let items = menu.items();

    assert!(!items[0].label.starts_with("⌘ "));
    assert!(!items[0].label.starts_with("⎇ "));
}


#[test]
fn selected_returns_current_index() {
    let menu = ActionMenu::new(
        Context::WorkingFiles,
        vec![],
        test_repo_path(),
    );
    assert_eq!(menu.selected(), 0);
}

#[test]
fn action_set_selected_updates_selection() {
    let actions = vec![
        create_app_action("a", "Action A", AppAction::ToggleStage),
        create_app_action("b", "Action B", AppAction::ShowDiff),
    ];
    let mut menu = ActionMenu::new(
        Context::WorkingFiles,
        actions,
        test_repo_path(),
    );

    menu.set_selected(1);

    assert_eq!(menu.selected(), 1);
}

#[test]
fn action_set_selected_ignores_out_of_bounds() {
    let actions = vec![create_app_action("a", "Action", AppAction::ToggleStage)];
    let mut menu = ActionMenu::new(
        Context::WorkingFiles,
        actions,
        test_repo_path(),
    );

    menu.set_selected(5);

    assert_eq!(menu.selected(), 0);
}


#[test]
fn up_navigates_to_previous() {
    let actions = vec![
        create_app_action("a", "Action A", AppAction::ToggleStage),
        create_app_action("b", "Action B", AppAction::ShowDiff),
    ];
    let mut menu = ActionMenu::new(
        Context::WorkingFiles,
        actions,
        test_repo_path(),
    );
    menu.set_selected(1);

    let result = menu.handle_key(KeyEvent::from(KeyCode::Up));

    assert!(matches!(result, MenuResult::Continue));
    assert_eq!(menu.selected(), 0);
}

#[test]
fn k_navigates_to_previous() {
    let actions = vec![
        create_app_action("a", "Action A", AppAction::ToggleStage),
        create_app_action("b", "Action B", AppAction::ShowDiff),
    ];
    let mut menu = ActionMenu::new(
        Context::WorkingFiles,
        actions,
        test_repo_path(),
    );
    menu.set_selected(1);

    let result = menu.handle_key(KeyEvent::from(KeyCode::Char('k')));

    assert!(matches!(result, MenuResult::Continue));
    assert_eq!(menu.selected(), 0);
}

#[test]
fn down_navigates_to_next() {
    let actions = vec![
        create_app_action("a", "Action A", AppAction::ToggleStage),
        create_app_action("b", "Action B", AppAction::ShowDiff),
    ];
    let mut menu = ActionMenu::new(
        Context::WorkingFiles,
        actions,
        test_repo_path(),
    );

    let result = menu.handle_key(KeyEvent::from(KeyCode::Down));

    assert!(matches!(result, MenuResult::Continue));
    assert_eq!(menu.selected(), 1);
}

#[test]
fn j_navigates_to_next() {
    let actions = vec![
        create_app_action("a", "Action A", AppAction::ToggleStage),
        create_app_action("b", "Action B", AppAction::ShowDiff),
    ];
    let mut menu = ActionMenu::new(
        Context::WorkingFiles,
        actions,
        test_repo_path(),
    );

    let result = menu.handle_key(KeyEvent::from(KeyCode::Char('j')));

    assert!(matches!(result, MenuResult::Continue));
    assert_eq!(menu.selected(), 1);
}

#[test]
fn esc_closes_menu() {
    let mut menu = ActionMenu::new(
        Context::WorkingFiles,
        vec![],
        test_repo_path(),
    );

    let result = menu.handle_key(KeyEvent::from(KeyCode::Esc));

    assert!(matches!(result, MenuResult::Close));
}

#[test]
fn q_closes_menu() {
    let mut menu = ActionMenu::new(
        Context::WorkingFiles,
        vec![],
        test_repo_path(),
    );

    let result = menu.handle_key(KeyEvent::from(KeyCode::Char('q')));

    assert!(matches!(result, MenuResult::Close));
}

#[test]
fn m_closes_menu() {
    let mut menu = ActionMenu::new(
        Context::WorkingFiles,
        vec![],
        test_repo_path(),
    );

    let result = menu.handle_key(KeyEvent::from(KeyCode::Char('m')));

    assert!(matches!(result, MenuResult::Close));
}

#[test]
fn enter_on_empty_continues() {
    let mut menu = ActionMenu::new(
        Context::WorkingFiles,
        vec![],
        test_repo_path(),
    );

    let result = menu.handle_key(KeyEvent::from(KeyCode::Enter));

    assert!(matches!(result, MenuResult::Continue));
}

#[test]
fn enter_on_app_action_executes_app_action() {
    let actions = vec![create_app_action("s", "Stage", AppAction::ToggleStage)];
    let mut menu = ActionMenu::new(
        Context::WorkingFiles,
        actions,
        test_repo_path(),
    );

    let result = menu.handle_key(KeyEvent::from(KeyCode::Enter));

    match result {
        MenuResult::Execute(MenuAction::App(action)) => {
            assert_eq!(action, AppAction::ToggleStage);
        }
        _ => panic!("Expected Execute(App(ToggleStage))"),
    }
}

#[test]
fn enter_on_cli_action_executes_command() {
    let actions = vec![create_cli_action("!", "Run", "status")];
    let mut menu = ActionMenu::new(
        Context::WorkingFiles,
        actions,
        test_repo_path(),
    );

    let result = menu.handle_key(KeyEvent::from(KeyCode::Enter));

    match result {
        MenuResult::Execute(MenuAction::Command(request)) => {
            assert!(request.display_name.contains("status"));
        }
        _ => panic!("Expected Execute(Command)"),
    }
}

#[test]
fn enter_on_invalid_cli_closes() {
    // Empty command should fail to parse
    let actions = vec![create_cli_action("!", "Empty", "")];
    let mut menu = ActionMenu::new(
        Context::WorkingFiles,
        actions,
        test_repo_path(),
    );

    let result = menu.handle_key(KeyEvent::from(KeyCode::Enter));

    assert!(matches!(result, MenuResult::Close));
}

#[test]
fn enter_on_alias_action_executes_alias_command() {
    let actions = vec![create_alias_action("co", "checkout")];
    let mut menu = ActionMenu::new(
        Context::WorkingFiles,
        actions,
        test_repo_path(),
    );

    let result = menu.handle_key(KeyEvent::from(KeyCode::Enter));

    match result {
        MenuResult::Execute(MenuAction::Command(request)) => {
            // display_name is "git <alias_name>", args contain the actual command
            assert!(request.display_name.contains("co"));
            assert!(request
                .args
                .contains(&"checkout".to_string()));
        }
        _ => panic!("Expected Execute(Command)"),
    }
}

#[test]
fn unhandled_key_continues() {
    let mut menu = ActionMenu::new(
        Context::WorkingFiles,
        vec![],
        test_repo_path(),
    );

    let result = menu.handle_key(KeyEvent::from(KeyCode::Char('x')));

    assert!(matches!(result, MenuResult::Continue));
}

fn test_aliases() -> Vec<Alias> {
    vec![
        Alias {
            name: "co".to_string(),
            command: "checkout".to_string(),
        },
        Alias {
            name: "br".to_string(),
            command: "branch".to_string(),
        },
        Alias {
            name: "st".to_string(),
            command: "status -sb".to_string(),
        },
    ]
}

fn test_sections() -> Vec<AliasSection> {
    vec![
        AliasSection {
            name: "checkout".to_string(),
            aliases: vec![Alias {
                name: "co".to_string(),
                command: "checkout".to_string(),
            }],
        },
        AliasSection {
            name: "branch".to_string(),
            aliases: vec![
                Alias {
                    name: "br".to_string(),
                    command: "branch".to_string(),
                },
                Alias {
                    name: "bra".to_string(),
                    command: "branch -a".to_string(),
                },
            ],
        },
    ]
}

#[test]
fn alias_new_creates_menu() {
    {
        let sections = test_sections();
        let menu = AliasSectionMenu::new(sections, "/repo".to_string());

        assert_eq!(menu.title(), "Alias Sections");
        assert_eq!(menu.selected(), 0);
    }

    {
        let aliases = test_aliases();
        let menu = AliasItemsMenu::new(
            "checkout".to_string(),
            aliases,
            "/repo".to_string(),
        );

        assert_eq!(menu.title(), "checkout");
        assert_eq!(menu.selected(), 0);
    }
}

#[test]
fn items_returns_sections_with_counts() {
    {
        let sections = test_sections();
        let menu = AliasSectionMenu::new(sections, "/repo".to_string());

        let items = menu.items();

        assert_eq!(items.len(), 2);
        assert_eq!(items[0].label, "checkout");
        assert_eq!(
            items[0].description,
            Some("1 aliases".to_string())
        );
        assert_eq!(items[1].label, "branch");
        assert_eq!(
            items[1].description,
            Some("2 aliases".to_string())
        );
    }
}

#[test]
fn alias_set_selected_updates_selection() {
    {
        let sections = test_sections();
        let mut menu = AliasSectionMenu::new(sections, "/repo".to_string());

        menu.set_selected(1);

        assert_eq!(menu.selected(), 1);
    }

    {
        let aliases = test_aliases();
        let mut menu = AliasItemsMenu::new(
            "section".to_string(),
            aliases,
            "/repo".to_string(),
        );

        menu.set_selected(2);

        assert_eq!(menu.selected(), 2);
    }
}

#[test]
fn alias_set_selected_ignores_out_of_bounds() {
    {
        let sections = test_sections();
        let mut menu = AliasSectionMenu::new(sections, "/repo".to_string());

        menu.set_selected(10);

        assert_eq!(menu.selected(), 0);
    }

    {
        let aliases = test_aliases();
        let mut menu = AliasItemsMenu::new(
            "section".to_string(),
            aliases,
            "/repo".to_string(),
        );

        menu.set_selected(10);

        assert_eq!(menu.selected(), 0);
    }
}

#[test]
fn alias_handle_key_esc_closes() {
    {
        let sections = test_sections();
        let mut menu = AliasSectionMenu::new(sections, "/repo".to_string());

        let result = menu.handle_key(KeyEvent::from(KeyCode::Esc));

        assert!(matches!(result, MenuResult::Close));
    }
}

#[test]
fn alias_handle_key_q_closes() {
    {
        let sections = test_sections();
        let mut menu = AliasSectionMenu::new(sections, "/repo".to_string());

        let result = menu.handle_key(KeyEvent::from(KeyCode::Char('q')));

        assert!(matches!(result, MenuResult::Close));
    }
}

#[test]
fn handle_key_a_closes() {
    {
        let sections = test_sections();
        let mut menu = AliasSectionMenu::new(sections, "/repo".to_string());

        let result = menu.handle_key(KeyEvent::from(KeyCode::Char('a')));

        assert!(matches!(result, MenuResult::Close));
    }
}

#[test]
fn handle_key_enter_pushes_items_menu() {
    {
        let sections = test_sections();
        let mut menu = AliasSectionMenu::new(sections, "/repo".to_string());

        let result = menu.handle_key(KeyEvent::from(KeyCode::Enter));

        assert!(matches!(result, MenuResult::Push(_)));
    }
}

#[test]
fn alias_handle_key_down_navigates() {
    {
        let sections = test_sections();
        let mut menu = AliasSectionMenu::new(sections, "/repo".to_string());

        menu.handle_key(KeyEvent::from(KeyCode::Down));

        assert_eq!(menu.selected(), 1);
    }

    {
        let aliases = test_aliases();
        let mut menu = AliasItemsMenu::new(
            "section".to_string(),
            aliases,
            "/repo".to_string(),
        );

        menu.handle_key(KeyEvent::from(KeyCode::Down));

        assert_eq!(menu.selected(), 1);
    }
}

#[test]
fn alias_handle_key_j_navigates_down() {
    {
        let sections = test_sections();
        let mut menu = AliasSectionMenu::new(sections, "/repo".to_string());

        menu.handle_key(KeyEvent::from(KeyCode::Char('j')));

        assert_eq!(menu.selected(), 1);
    }
}

#[test]
fn items_returns_aliases() {
    {
        let aliases = test_aliases();
        let menu = AliasItemsMenu::new(
            "section".to_string(),
            aliases,
            "/repo".to_string(),
        );

        let items = menu.items();

        assert_eq!(items.len(), 3);
        assert_eq!(items[0].label, "co");
        assert_eq!(
            items[0].key_hint,
            Some("co".to_string())
        );
        assert_eq!(
            items[0].description,
            Some("checkout".to_string())
        );
        assert_eq!(
            items[2].description,
            Some("status -sb".to_string())
        );
    }
}

#[test]
fn handle_key_esc_pops() {
    {
        let aliases = test_aliases();
        let mut menu = AliasItemsMenu::new(
            "section".to_string(),
            aliases,
            "/repo".to_string(),
        );

        let result = menu.handle_key(KeyEvent::from(KeyCode::Esc));

        assert!(matches!(result, MenuResult::Pop));
    }
}

#[test]
fn handle_key_q_pops() {
    {
        let aliases = test_aliases();
        let mut menu = AliasItemsMenu::new(
            "section".to_string(),
            aliases,
            "/repo".to_string(),
        );

        let result = menu.handle_key(KeyEvent::from(KeyCode::Char('q')));

        assert!(matches!(result, MenuResult::Pop));
    }
}

#[test]
fn handle_key_a_closes_all() {
    {
        let aliases = test_aliases();
        let mut menu = AliasItemsMenu::new(
            "section".to_string(),
            aliases,
            "/repo".to_string(),
        );

        let result = menu.handle_key(KeyEvent::from(KeyCode::Char('a')));

        assert!(matches!(result, MenuResult::CloseAll));
    }
}

#[test]
fn handle_key_enter_executes_alias() {
    {
        let aliases = test_aliases();
        let mut menu = AliasItemsMenu::new(
            "section".to_string(),
            aliases,
            "/repo".to_string(),
        );

        let result = menu.handle_key(KeyEvent::from(KeyCode::Enter));

        assert!(matches!(
            result,
            MenuResult::Execute(MenuAction::Command(_))
        ));
    }
}

#[test]
fn alias_handle_key_up_navigates() {
    {
        let aliases = test_aliases();
        let mut menu = AliasItemsMenu::new(
            "section".to_string(),
            aliases,
            "/repo".to_string(),
        );
        menu.set_selected(2);

        menu.handle_key(KeyEvent::from(KeyCode::Up));

        assert_eq!(menu.selected(), 1);
    }
}

fn create_menu() -> PushConfirmMenu {
    PushConfirmMenu::new(
        "main".to_string(),
        "origin".to_string(),
        true,
        3,
        false,
    )
}

#[test]
fn push_new_creates_menu() {
    let menu = create_menu();

    assert_eq!(menu.title(), "Push Confirmation");
    assert_eq!(menu.selected(), 0); // Focus on confirm button
}

#[test]
fn new_without_upstream() {
    let menu = PushConfirmMenu::new(
        "feature".to_string(),
        "origin".to_string(),
        false, // no upstream
        0,
        false,
    );

    assert!(!menu.has_upstream);
}

#[test]
fn set_selected_updates_focus() {
    let mut menu = create_menu();

    menu.set_selected(1);

    assert_eq!(menu.selected(), 1);
}

#[test]
fn push_set_selected_ignores_out_of_bounds() {
    let mut menu = create_menu();

    menu.set_selected(5);

    assert_eq!(menu.selected(), 0);
}

#[test]
fn handle_key_f_toggles_force() {
    let mut menu = create_menu();
    assert!(!menu.force);

    menu.handle_key(KeyEvent::from(KeyCode::Char('f')));

    assert!(menu.force);
}

#[test]
fn handle_key_f_toggles_force_off() {
    let mut menu = PushConfirmMenu::new(
        "main".to_string(),
        "origin".to_string(),
        true,
        0,
        true, // force enabled
    );

    menu.handle_key(KeyEvent::from(KeyCode::Char('f')));

    assert!(!menu.force);
}

#[test]
fn handle_key_space_toggles_when_on_checkbox() {
    let mut menu = create_menu();
    menu.set_selected(1); // Focus on checkbox

    menu.handle_key(KeyEvent::from(KeyCode::Char(' ')));

    assert!(menu.force);
}

#[test]
fn handle_key_space_does_nothing_when_on_button() {
    let mut menu = create_menu();
    // Focus is on button (0)

    menu.handle_key(KeyEvent::from(KeyCode::Char(' ')));

    assert!(!menu.force);
}

#[test]
fn handle_key_y_executes() {
    let mut menu = create_menu();

    let result = menu.handle_key(KeyEvent::from(KeyCode::Char('y')));

    assert!(matches!(result, MenuResult::Execute(MenuAction::Command(_))));
}

#[test]
fn handle_key_enter_on_button_executes() {
    let mut menu = create_menu();
    // Focus is on button (0)

    let result = menu.handle_key(KeyEvent::from(KeyCode::Enter));

    assert!(matches!(result, MenuResult::Execute(MenuAction::Command(_))));
}

#[test]
fn handle_key_enter_on_checkbox_toggles() {
    let mut menu = create_menu();
    menu.set_selected(1); // Focus on checkbox

    let result = menu.handle_key(KeyEvent::from(KeyCode::Enter));

    assert!(matches!(result, MenuResult::Continue));
    assert!(menu.force);
}

#[test]
fn handle_key_n_closes_all() {
    let mut menu = create_menu();

    let result = menu.handle_key(KeyEvent::from(KeyCode::Char('n')));

    assert!(matches!(result, MenuResult::CloseAll));
}

#[test]
fn handle_key_esc_closes_all() {
    let mut menu = create_menu();

    let result = menu.handle_key(KeyEvent::from(KeyCode::Esc));

    assert!(matches!(result, MenuResult::CloseAll));
}

#[test]
fn handle_key_q_closes_all() {
    let mut menu = create_menu();

    let result = menu.handle_key(KeyEvent::from(KeyCode::Char('q')));

    assert!(matches!(result, MenuResult::CloseAll));
}

#[test]
fn push_handle_key_down_navigates() {
    let mut menu = create_menu();

    menu.handle_key(KeyEvent::from(KeyCode::Down));

    assert_eq!(menu.selected(), 1);
}

#[test]
fn push_handle_key_up_navigates() {
    let mut menu = create_menu();
    menu.set_selected(1);

    menu.handle_key(KeyEvent::from(KeyCode::Up));

    assert_eq!(menu.selected(), 0);
}

#[test]
fn push_handle_key_j_navigates_down() {
    let mut menu = create_menu();

    menu.handle_key(KeyEvent::from(KeyCode::Char('j')));

    assert_eq!(menu.selected(), 1);
}

#[test]
fn push_handle_key_k_navigates_up() {
    let mut menu = create_menu();
    menu.set_selected(1);

    menu.handle_key(KeyEvent::from(KeyCode::Char('k')));

    assert_eq!(menu.selected(), 0);
}

#[test]
fn simple_push_with_upstream() {
    let menu = PushConfirmMenu::new(
        "main".to_string(),
        "origin".to_string(),
        true,  // has_upstream
        0,
        false, // no force
    );

    let cmd = menu.build_command();

    assert_eq!(cmd.display_name, "git push");
}

#[test]
fn push_without_upstream_sets_upstream() {
    let menu = PushConfirmMenu::new(
        "feature".to_string(),
        "origin".to_string(),
        false, // no upstream
        0,
        false,
    );

    let cmd = menu.build_command();

    assert_eq!(cmd.display_name, "git push -u origin feature");
}

#[test]
fn force_push_uses_force_with_lease() {
    let menu = PushConfirmMenu::new(
        "main".to_string(),
        "origin".to_string(),
        true,
        0,
        true, // force
    );

    let cmd = menu.build_command();

    assert_eq!(cmd.display_name, "git push --force-with-lease origin");
}

#[test]
fn new_creates_enabled_item() {
    let item = SelectItem::new("Test", 42);

    assert_eq!(item.label, "Test");
    assert_eq!(item.value, 42);
    assert!(item.enabled);
    assert!(item.key.is_none());
    assert!(item.description.is_none());
}

#[test]
fn with_key_sets_key() {
    let item = SelectItem::new("Test", 1).with_key("k");

    assert_eq!(item.key, Some("k".to_string()));
}

#[test]
fn with_description_sets_description() {
    let item = SelectItem::new("Test", 1).with_description("A description");

    assert_eq!(item.description, Some("A description".to_string()));
}

#[test]
fn enabled_sets_state() {
    let item = SelectItem::new("Test", 1).enabled(false);

    assert!(!item.enabled);
}

#[test]
fn builder_chain_works() {
    let item = SelectItem::new("Action", "value")
        .with_key("a")
        .with_description("Does something")
        .enabled(true);

    assert_eq!(item.label, "Action");
    assert_eq!(item.value, "value");
    assert_eq!(item.key, Some("a".to_string()));
    assert_eq!(item.description, Some("Does something".to_string()));
    assert!(item.enabled);
}

#[test]
fn new_creates_menu_with_items() {
    let items = vec![
        SelectItem::new("One", 1),
        SelectItem::new("Two", 2),
        SelectItem::new("Three", 3),
    ];
    let menu = SelectMenu::new("Test Menu", items);

    assert_eq!(menu.title(), "Test Menu");
    assert_eq!(menu.items().len(), 3);
    assert_eq!(menu.selected(), 0);
}

#[test]
fn selected_value_returns_current_value() {
    let items = vec![
        SelectItem::new("One", 1),
        SelectItem::new("Two", 2),
    ];
    let menu = SelectMenu::new("Test", items);

    assert_eq!(menu.selected_value(), Some(&1));
}

#[test]
fn select_set_selected_updates_selection() {
    let items = vec![
        SelectItem::new("One", 1),
        SelectItem::new("Two", 2),
    ];
    let mut menu = SelectMenu::new("Test", items);

    menu.set_selected(1);

    assert_eq!(menu.selected(), 1);
    assert_eq!(menu.selected_value(), Some(&2));
}

#[test]
fn select_set_selected_ignores_out_of_bounds() {
    let items = vec![SelectItem::new("One", 1)];
    let mut menu = SelectMenu::new("Test", items);

    menu.set_selected(5);

    assert_eq!(menu.selected(), 0);
}

#[test]
fn items_converts_to_menu_items() {
    let items = vec![
        SelectItem::new("Enabled", 1),
        SelectItem::new("Disabled", 2).enabled(false),
    ];
    let menu = SelectMenu::new("Test", items);

    let menu_items = menu.items();

    assert_eq!(menu_items.len(), 2);
    assert!(menu_items[0].enabled);
    assert!(!menu_items[1].enabled);
}

#[test]
fn items_includes_key_and_description() {
    let items = vec![
        SelectItem::new("Item", 1)
            .with_key("i")
            .with_description("An item"),
    ];
    let menu = SelectMenu::new("Test", items);

    let menu_items = menu.items();

    assert_eq!(menu_items[0].key_hint, Some("i".to_string()));
    assert_eq!(menu_items[0].description, Some("An item".to_string()));
}

#[test]
fn select_handle_key_esc_closes() {
    let items = vec![SelectItem::new("One", 1)];
    let mut menu = SelectMenu::new("Test", items);

    let result = menu.handle_key(KeyEvent::from(KeyCode::Esc));

    assert!(matches!(result, MenuResult::Close));
}

#[test]
fn select_handle_key_q_closes() {
    let items = vec![SelectItem::new("One", 1)];
    let mut menu = SelectMenu::new("Test", items);

    let result = menu.handle_key(KeyEvent::from(KeyCode::Char('q')));

    assert!(matches!(result, MenuResult::Close));
}

#[test]
fn handle_key_enter_on_enabled_closes() {
    let items = vec![SelectItem::new("One", 1)];
    let mut menu = SelectMenu::new("Test", items);

    let result = menu.handle_key(KeyEvent::from(KeyCode::Enter));

    assert!(matches!(result, MenuResult::Close));
}

#[test]
fn handle_key_enter_on_disabled_continues() {
    let items = vec![SelectItem::new("One", 1).enabled(false)];
    let mut menu = SelectMenu::new("Test", items);

    let result = menu.handle_key(KeyEvent::from(KeyCode::Enter));

    assert!(matches!(result, MenuResult::Continue));
}

#[test]
fn select_handle_key_down_navigates() {
    let items = vec![
        SelectItem::new("One", 1),
        SelectItem::new("Two", 2),
    ];
    let mut menu = SelectMenu::new("Test", items);

    menu.handle_key(KeyEvent::from(KeyCode::Down));

    assert_eq!(menu.selected(), 1);
}

#[test]
fn select_handle_key_j_navigates_down() {
    let items = vec![
        SelectItem::new("One", 1),
        SelectItem::new("Two", 2),
    ];
    let mut menu = SelectMenu::new("Test", items);

    menu.handle_key(KeyEvent::from(KeyCode::Char('j')));

    assert_eq!(menu.selected(), 1);
}

#[test]
fn select_handle_key_up_navigates() {
    let items = vec![
        SelectItem::new("One", 1),
        SelectItem::new("Two", 2),
    ];
    let mut menu = SelectMenu::new("Test", items);
    menu.set_selected(1);

    menu.handle_key(KeyEvent::from(KeyCode::Up));

    assert_eq!(menu.selected(), 0);
}

#[test]
fn select_handle_key_k_navigates_up() {
    let items = vec![
        SelectItem::new("One", 1),
        SelectItem::new("Two", 2),
    ];
    let mut menu = SelectMenu::new("Test", items);
    menu.set_selected(1);

    menu.handle_key(KeyEvent::from(KeyCode::Char('k')));

    assert_eq!(menu.selected(), 0);
}

fn test_menu(title: &str) -> Menu {
    Menu::AliasItems(AliasItemsMenu::new(
        title.to_string(),
        vec![
            Alias {
                name: "a".to_string(),
                command: "status".to_string(),
            },
            Alias {
                name: "b".to_string(),
                command: "log".to_string(),
            },
            Alias {
                name: "c".to_string(),
                command: "diff".to_string(),
            },
        ],
        "/repo".to_string(),
    ))
}

#[test]
fn new_creates_empty_stack() {
    let stack = MenuStack::new();

    assert!(!stack.is_active());
    assert_eq!(stack.depth(), 0);
    assert!(stack.current().is_none());
}

#[test]
fn push_adds_menu() {
    let mut stack = MenuStack::new();

    stack.push(test_menu("Menu 1"));

    assert!(stack.is_active());
    assert_eq!(stack.depth(), 1);
    assert!(stack.current().is_some());
    assert_eq!(stack.current().expect("menu").title(), "Menu 1");
}

#[test]
fn push_multiple_menus() {
    let mut stack = MenuStack::new();

    stack.push(test_menu("Menu 1"));
    stack.push(test_menu("Menu 2"));
    stack.push(test_menu("Menu 3"));

    assert_eq!(stack.depth(), 3);
    assert_eq!(stack.current().expect("menu").title(), "Menu 3");
}

#[test]
fn pop_removes_top_menu() {
    let mut stack = MenuStack::new();

    stack.push(test_menu("Menu 1"));
    stack.push(test_menu("Menu 2"));

    let popped = stack.pop();

    assert!(popped.is_some());
    assert_eq!(popped.expect("menu").title(), "Menu 2");
    assert_eq!(stack.depth(), 1);
    assert_eq!(stack.current().expect("menu").title(), "Menu 1");
}

#[test]
fn pop_empty_returns_none() {
    let mut stack = MenuStack::new();

    let popped = stack.pop();

    assert!(popped.is_none());
}

#[test]
fn clear_removes_all_menus() {
    let mut stack = MenuStack::new();

    stack.push(test_menu("Menu 1"));
    stack.push(test_menu("Menu 2"));
    stack.push(test_menu("Menu 3"));

    stack.clear();

    assert!(!stack.is_active());
    assert_eq!(stack.depth(), 0);
}

#[test]
fn current_mut_allows_modification() {
    let mut stack = MenuStack::new();

    stack.push(test_menu("Menu 1"));

    if let Some(menu) = stack.current_mut() {
        menu.set_selected(2);
    }

    assert_eq!(stack.current().expect("menu").selected(), 2);
}

#[test]
fn is_active_reflects_stack_state() {
    let mut stack = MenuStack::new();

    assert!(!stack.is_active());

    stack.push(test_menu("Menu"));
    assert!(stack.is_active());

    stack.pop();
    assert!(!stack.is_active());
}

fn key(code: KeyCode) -> KeyEvent {
    KeyEvent::from(code)
}

#[test]
fn stack_drills_into_alias_section_and_back() {
    let mut stack = MenuStack::new();
    stack.push(Menu::AliasSections(AliasSectionMenu::new(test_sections(), "/repo".to_string())));

    assert!(stack.handle_key(key(KeyCode::Down)).is_none());
    assert!(stack.handle_key(key(KeyCode::Enter)).is_none());
    assert_eq!(stack.depth(), 2);
    assert_eq!(stack.current().expect("menu").title(), "branch");

    assert!(stack.handle_key(key(KeyCode::Esc)).is_none());
    assert_eq!(stack.depth(), 1);
    assert_eq!(stack.current().expect("menu").selected(), 1);

    assert!(stack.handle_key(key(KeyCode::Esc)).is_none());
    assert!(!stack.is_active());
}

#[test]
fn stack_executes_and_clears() {
    let mut stack = MenuStack::new();
    stack.push(Menu::AliasSections(AliasSectionMenu::new(test_sections(), "/repo".to_string())));
    stack.handle_key(key(KeyCode::Enter));

    match stack.handle_key(key(KeyCode::Enter)) {
        Some(MenuAction::Command(request)) => {
            assert_eq!(request.display_name, "git co");
            assert_eq!(request.args, vec!["checkout"]);
            assert_eq!(request.cwd.as_deref(), Some("/repo"));
            assert_eq!(request.source, CommandSource::AliasBrowser);
        }
        _ => panic!("Expected a command"),
    }
    assert!(!stack.is_active());
}

#[test]
fn stack_close_all_from_items_menu() {
    let mut stack = MenuStack::new();
    stack.push(Menu::AliasSections(AliasSectionMenu::new(test_sections(), "/repo".to_string())));
    stack.handle_key(key(KeyCode::Enter));
    assert_eq!(stack.depth(), 2);
    assert!(stack.handle_key(key(KeyCode::Char('a'))).is_none());
    assert_eq!(stack.depth(), 0);
}

#[test]
fn empty_stack_ignores_keys() {
    let mut stack = MenuStack::new();
    assert!(stack.handle_key(key(KeyCode::Enter)).is_none());
    assert_eq!(stack.depth(), 0);
}

#[test]
fn menu_item_builders() {
    let item = MenuItem::new("Stage")
        .with_key("s")
        .with_description("Stage the file")
        .enabled(false)
        .with_style(ItemStyle::Disabled);
    assert_eq!(item.label, "Stage");
    assert_eq!(item.key_hint.as_deref(), Some("s"));
    assert_eq!(item.description.as_deref(), Some("Stage the file"));
    assert!(!item.enabled);
    assert_eq!(item.style, ItemStyle::Disabled);

    let sep = MenuItem::separator();
    assert!(!sep.enabled);
    assert_eq!(sep.style, ItemStyle::Separator);
    assert_eq!(sep.label, "");

    let header = MenuItem::header("Files");
    assert!(!header.enabled);
    assert_eq!(header.style, ItemStyle::Header);

    let checkbox = MenuItem::checkbox("Force", true);
    assert!(checkbox.enabled);
    assert_eq!(checkbox.style, ItemStyle::Checkbox { checked: true });
}

#[test]
fn select_navigation_skips_disabled_items() {
    let items = vec![
        SelectItem::new("One", 1),
        SelectItem::new("Two", 2).enabled(false),
        SelectItem::new("Three", 3),
        SelectItem::new("Four", 4).enabled(false),
    ];
    let mut menu = SelectMenu::new("Test", items);

    menu.handle_key(key(KeyCode::Down));
    assert_eq!(menu.selected(), 2);
    menu.handle_key(key(KeyCode::Down));
    assert_eq!(menu.selected(), 2);
    menu.handle_key(key(KeyCode::Up));
    assert_eq!(menu.selected(), 0);
    assert_eq!(menu.selected_value(), Some(&1));
    let lines = menu.items();
    assert_eq!(lines[1].style, ItemStyle::Disabled);
    assert_eq!(lines[0].style, ItemStyle::Normal);
}

fn confirm() -> ConfirmMenu {
    ConfirmMenu::new("Delete", "Delete the branch?")
        .with_info("Branch", "feature")
        .with_checkbox(Checkbox::new("Force", "force").with_shortcut('f'))
        .with_checkbox(Checkbox::new("Remote too", "remote").checked(true))
}

#[test]
fn confirm_checkboxes_and_shortcuts() {
    let mut menu = confirm();
    assert_eq!(menu.title(), "Delete");
    assert!(!menu.get_checkbox("force"));
    assert!(menu.get_checkbox("remote"));
    assert!(!menu.get_checkbox("missing"));

    assert!(matches!(menu.handle_key(key(KeyCode::Char('f'))), MenuResult::Continue));
    assert!(menu.get_checkbox("force"));

    menu.handle_key(key(KeyCode::Down));
    menu.handle_key(key(KeyCode::Down));
    menu.handle_key(key(KeyCode::Down));
    assert_eq!(menu.selected(), 2);
    menu.handle_key(key(KeyCode::Char(' ')));
    assert!(!menu.get_checkbox("remote"));
    assert!(matches!(menu.handle_key(key(KeyCode::Enter)), MenuResult::Continue));
    assert!(menu.get_checkbox("remote"));

    menu.set_selected(0);
    assert!(matches!(menu.handle_key(key(KeyCode::Enter)), MenuResult::Close));
    assert!(matches!(menu.handle_key(key(KeyCode::Char('y'))), MenuResult::Close));
    assert!(matches!(menu.handle_key(key(KeyCode::Char('n'))), MenuResult::CloseAll));
    assert!(matches!(menu.handle_key(key(KeyCode::Esc)), MenuResult::CloseAll));
    assert!(menu.items().is_empty());
}

#[test]
fn confirm_focus_stays_in_range() {
    let mut menu = confirm();
    menu.set_selected(3);
    assert_eq!(menu.selected(), 0);
    menu.set_selected(2);
    assert_eq!(menu.selected(), 2);
    menu.handle_key(key(KeyCode::Char('k')));
    menu.handle_key(key(KeyCode::Char('k')));
    menu.handle_key(key(KeyCode::Char('k')));
    assert_eq!(menu.selected(), 0);
}

#[test]
fn push_menu_for_status() {
    let status = GitStatus {
        branch: Some("feature".to_string()),
        upstream: Some("upstream/feature".to_string()),
        ahead: 4,
        ..Default::default()
    };
    let menu = PushConfirmMenu::for_status(&status, false).expect("menu");
    assert_eq!(menu.branch, "feature");
    assert_eq!(menu.remote, "upstream");
    assert!(menu.has_upstream);
    assert_eq!(menu.ahead, 4);

    let status = GitStatus {
        branch: Some("feature".to_string()),
        ..Default::default()
    };
    let menu = PushConfirmMenu::for_status(&status, true).expect("menu");
    assert_eq!(menu.remote, "origin");
    assert!(!menu.has_upstream);
    assert!(menu.force);
    assert_eq!(menu.build_command().args, vec!["push", "--force-with-lease", "-u", "origin", "feature"]);

    assert!(PushConfirmMenu::for_status(&GitStatus::default(), false).is_none());
}

#[test]
fn menu_dispatch_keeps_kind() {
    let mut menu = Menu::Push(create_menu());
    assert_eq!(menu.title(), "Push Confirmation");
    assert!(menu.items().is_empty());
    menu.set_selected(1);
    assert_eq!(menu.selected(), 1);
    menu.select_next();
    assert_eq!(menu.selected(), 1);
    assert!(matches!(menu.handle_key(key(KeyCode::Char('q'))), MenuResult::CloseAll));

    let mut actions = Menu::Action(ActionMenu::new(
        Context::WorkingFiles,
        vec![
            create_app_action("s", "Stage", AppAction::ToggleStage),
            create_app_action("d", "Diff", AppAction::ShowDiff),
        ],
        test_repo_path(),
    ));
    actions.select_next();
    assert_eq!(actions.selected(), 1);
    actions.select_next();
    assert_eq!(actions.selected(), 1);
    actions.select_prev();
    assert_eq!(actions.selected(), 0);
    match actions.handle_key(key(KeyCode::Enter)) {
        MenuResult::Execute(MenuAction::App(a)) => assert_eq!(a, AppAction::ToggleStage),
        _ => panic!("Expected the stage action"),
    }
}
