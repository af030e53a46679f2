use git_monitor::config::{Alias, AliasSection, GitConfig};

#[test]
fn parses_dashed_header() {
    let result = GitConfig::parse_section_header("# --- fetch ---");
    assert_eq!(result, Some("fetch".to_string()));
}

#[test]
fn parses_dashed_header_with_extra_spaces() {
    let result = GitConfig::parse_section_header("#   ---   commit   ---");
    assert_eq!(result, Some("commit".to_string()));
}

#[test]
fn returns_none_for_non_comment() {
    let result = GitConfig::parse_section_header("co = checkout");
    assert!(result.is_none());
}

#[test]
fn returns_none_for_plain_comment() {
    let result = GitConfig::parse_section_header("# This is a comment");
    assert!(result.is_none());
}

#[test]
fn returns_none_for_multi_word_header() {
    let result = GitConfig::parse_section_header("# --- fetch remote ---");
    assert!(result.is_none());
}

#[test]
fn lowercases_header_name() {
    let result = GitConfig::parse_section_header("# --- FETCH ---");
    assert_eq!(result, Some("fetch".to_string()));
}

#[test]
fn parses_simple_alias() {
    let result = GitConfig::parse_alias_line("co = checkout");
    assert_eq!(result, Some(("co".to_string(), "checkout".to_string())));
}

#[test]
fn parses_alias_with_arguments() {
    let result = GitConfig::parse_alias_line("lg = log --oneline --graph");
    assert_eq!(
        result,
        Some(("lg".to_string(), "log --oneline --graph".to_string()))
    );
}

#[test]
fn parses_quoted_alias() {
    let result = GitConfig::parse_alias_line("st = \"status -sb\"");
    assert_eq!(result, Some(("st".to_string(), "status -sb".to_string())));
}

#[test]
fn handles_extra_whitespace() {
    let result = GitConfig::parse_alias_line("  br   =   branch  ");
    assert_eq!(result, Some(("br".to_string(), "branch".to_string())));
}

#[test]
fn returns_none_for_comment() {
    let result = GitConfig::parse_alias_line("# co = checkout");
    assert!(result.is_none());
}

#[test]
fn returns_none_for_empty_line() {
    let result = GitConfig::parse_alias_line("");
    assert!(result.is_none());
}

#[test]
fn returns_none_for_line_without_equals() {
    let result = GitConfig::parse_alias_line("checkout");
    assert!(result.is_none());
}

#[test]
fn handles_equals_in_command() {
    let result = GitConfig::parse_alias_line("cfg = config --global user.name=test");
    assert_eq!(
        result,
        Some(("cfg".to_string(), "config --global user.name=test".to_string()))
    );
}

#[test]
fn alias_equality() {
    let a1 = Alias {
        name: "co".to_string(),
        command: "checkout".to_string(),
    };
    let a2 = Alias {
        name: "co".to_string(),
        command: "checkout".to_string(),
    };
    let a3 = Alias {
        name: "br".to_string(),
        command: "branch".to_string(),
    };
    assert_eq!(a1, a2);
    assert_ne!(a1, a3);
}

#[test]
fn default_creates_empty_config() {
    let config = GitConfig::default();
    assert!(config.sections.is_empty());
}

fn table(pairs: &[(&str, &str)]) -> Vec<Alias> {
    let output: String = pairs
        .iter()
        .map(|(n, c)| format!("alias.{n} {c}\n"))
        .collect();
    GitConfig::parse_alias_table(&output)
}

#[test]
fn fallback_to_all_section_when_no_gitconfig() {
    let alias_map = table(&[("co", "checkout"), ("br", "branch")]);

    let sections = GitConfig::parse_sections_from_gitconfig(&alias_map, None);

    assert_eq!(sections.len(), 1);
    assert_eq!(sections[0].name, "all");
    assert_eq!(sections[0].aliases.len(), 2);
}

#[test]
fn empty_alias_map_returns_empty_sections() {
    let alias_map = table(&[]);

    let sections = GitConfig::parse_sections_from_gitconfig(&alias_map, None);

    assert!(sections.is_empty() || sections[0].aliases.is_empty());
}

#[test]
fn section_stores_name_and_aliases() {
    let section = AliasSection {
        name: "fetch".to_string(),
        aliases: vec![
            Alias {
                name: "f".to_string(),
                command: "fetch".to_string(),
            },
            Alias {
                name: "fa".to_string(),
                command: "fetch --all".to_string(),
            },
        ],
    };

    assert_eq!(section.name, "fetch");
    assert_eq!(section.aliases.len(), 2);
    assert_eq!(section.aliases[0].name, "f");
    assert_eq!(section.aliases[1].name, "fa");
}

#[test]
fn section_can_be_empty() {
    let section = AliasSection {
        name: "empty".to_string(),
        aliases: vec![],
    };

    assert!(section.aliases.is_empty());
}

#[test]
fn alias_table_is_sorted_and_last_definition_wins() {
    let aliases = GitConfig::parse_alias_table(
        "alias.st status\nalias.co checkout\nalias.st status -sb\nnot an alias\n",
    );
    assert_eq!(aliases.len(), 2);
    assert_eq!(aliases[0].name, "co");
    assert_eq!(aliases[1].name, "st");
    assert_eq!(aliases[1].command, "status -sb");
}

#[test]
fn sections_follow_gitconfig_comments() {
    let alias_map = table(&[("co", "checkout"), ("br", "branch"), ("lg", "log --oneline"), ("x", "status")]);
    let gitconfig = "[user]\n\tname = me\n[alias]\n\t# --- Branches ---\n\tco = checkout\n\tbr = branch\n\t# --- history ---\n\tlg = log\n\t# --- empty ---\n[core]\n\teditor = vim\n";

    let sections = GitConfig::parse_sections_from_gitconfig(&alias_map, Some(gitconfig));

    assert_eq!(sections.len(), 3);
    assert_eq!(sections[0].name, "branches");
    assert_eq!(sections[0].aliases.len(), 2);
    assert_eq!(sections[0].aliases[0].name, "co");
    assert_eq!(sections[1].name, "history");
    assert_eq!(sections[1].aliases[0].command, "log --oneline");
    assert_eq!(sections[2].name, "other");
    assert_eq!(sections[2].aliases[0].name, "x");
}

#[test]
fn aliases_before_any_header_go_to_other() {
    let alias_map = table(&[("co", "checkout")]);
    let gitconfig = "[alias]\nco = checkout\n";

    let sections = GitConfig::parse_sections_from_gitconfig(&alias_map, Some(gitconfig));

    assert_eq!(sections.len(), 1);
    assert_eq!(sections[0].name, "other");
    assert_eq!(sections[0].aliases[0].name, "co");
}

#[test]
fn from_sources_builds_sections() {
    let config = GitConfig::from_sources("alias.co checkout\nalias.br branch\n", None);
    assert_eq!(config.sections.len(), 1);
    assert_eq!(config.sections[0].aliases[0].name, "br");
    assert_eq!(config.sections[0].aliases[1].name, "co");
}
