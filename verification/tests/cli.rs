use dock::cli::{parse_dock_command, DockCommand};

fn args(words: &[&str]) -> Vec<String> {
    words.iter().map(|w| w.to_string()).collect()
}

#[test]
fn no_subcommand_prints_help_and_fails() {
    let c = parse_dock_command(&args(&[]));
    assert_eq!(c, DockCommand::MissingSubcommand);
    assert!(c.shows_help());
    assert_eq!(c.exit_code(), Some(2));
}

#[test]
fn toggle_reaches_the_server() {
    let c = parse_dock_command(&args(&["toggle"]));
    assert_eq!(c, DockCommand::Toggle);
    assert!(!c.shows_help());
    assert_eq!(c.exit_code(), None);
}

#[test]
fn toggle_takes_no_arguments() {
    let c = parse_dock_command(&args(&["toggle", "now", "please"]));
    assert_eq!(c, DockCommand::UnexpectedArgument("now".to_string()));
    assert!(!c.shows_help());
    assert_eq!(c.exit_code(), Some(2));
}

#[test]
fn help_is_asked_for_three_ways() {
    for word in ["--help", "-h", "help"] {
        let c = parse_dock_command(&args(&[word, "extra"]));
        assert_eq!(c, DockCommand::Help);
        assert!(c.shows_help());
        assert_eq!(c.exit_code(), Some(0));
    }
}

#[test]
fn an_unknown_subcommand_is_named() {
    let c = parse_dock_command(&args(&["open"]));
    assert_eq!(c, DockCommand::UnknownSubcommand("open".to_string()));
    assert!(c.shows_help());
    assert_eq!(c.exit_code(), Some(2));
}
