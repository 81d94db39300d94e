use bevy_repl::command::parser::{
    parse_and_trigger, resolve_clap_outcome, tokenize, ClapErrorKind, ClapFailure, ParseResolution,
};
use bevy_repl::command::register_command_in_repl;
use bevy_repl::repl::Repl;

fn test_command() -> clap::Command {
    clap::Command::new("test")
        .about("A test command")
        .arg(clap::Arg::new("message").help("Message to print"))
}

#[test]
fn test_command_registration() {
    let cmd = test_command();
    assert_eq!(cmd.get_name(), "test");
    let mut repl = Repl::default();
    register_command_in_repl(&mut repl, &cmd, 0);
    assert_eq!(repl.commands.get("test"), Some(0));
}

#[test]
fn test_command_parsing_with_args() {
    let result = parse_and_trigger(test_command(), "test hello");
    assert!(matches!(result, ParseResolution::Matched(_)), "Should parse args successfully");
    if let ParseResolution::Matched(matches) = result {
        assert_eq!(matches.get_one::<String>("message").unwrap(), "hello");
    }
}

#[test]
fn test_command_parsing_multiple_args_fails() {
    let result = parse_and_trigger(test_command(), "test hello world");
    // Should fail because "world" is an extra argument
    assert!(!matches!(result, ParseResolution::Matched(_)), "Should fail with extra args");
}

#[test]
fn test_command_parsing_no_args() {
    let result = parse_and_trigger(test_command(), "test");
    assert!(matches!(result, ParseResolution::Matched(_)), "Should parse command with no args");
}

#[test]
fn test_shell_words_parsing() {
    let result = tokenize("test hello world").unwrap();
    assert_eq!(result, vec!["test", "hello", "world"]);

    let result = tokenize("test \"hello world\"").unwrap();
    assert_eq!(result, vec!["test", "hello world"]);

    let result = tokenize("test hello\\ world").unwrap();
    assert_eq!(result, vec!["test", "hello world"]);
}

#[test]
fn clap_outcomes_are_sorted() {
    let r = resolve_clap_outcome(Err(ClapFailure { kind: ClapErrorKind::UnknownArgument, message: "x".to_string() }));
    assert!(matches!(r, ParseResolution::Rejected(ClapErrorKind::UnknownArgument)));
    assert!(!r.handled());
    let r = resolve_clap_outcome(Err(ClapFailure { kind: ClapErrorKind::Other, message: "bad\nUsage: t".to_string() }));
    match &r {
        ParseResolution::Reported(k, lines) => {
            assert_eq!(*k, ClapErrorKind::Other);
            assert_eq!(lines, &vec!["bad".to_string(), "Usage: t".to_string()]);
        },
        _ => panic!("expected a report"),
    }
    assert!(r.handled());
    let r = parse_and_trigger(test_command(), "test --help");
    assert!(matches!(r, ParseResolution::Reported(ClapErrorKind::DisplayHelp, _)));
    assert!(matches!(parse_and_trigger(test_command(), "  "), ParseResolution::Empty));
    assert!(matches!(parse_and_trigger(test_command(), "test \"x"), ParseResolution::Unparsable));
}

#[test]
fn quoted_argument_reaches_the_matches() {
    let result = parse_and_trigger(test_command(), "test \"hello world\"");
    match result {
        ParseResolution::Matched(matches) => {
            assert_eq!(matches.get_one::<String>("message").unwrap(), "hello world");
        },
        _ => panic!("a quoted argument is one word"),
    }
}
