use bevy_repl::built_ins::sysinfo::{decimal_string, SysInfoCommand};
use bevy_repl::built_ins::close::CloseReplCommand;
use bevy_repl::built_ins::help::{on_help, HelpCommand};
use bevy_repl::built_ins::tree::{EntityEntry, TreeCommand};
use bevy_repl::command::parser::{message_lines, parse_input_buffer_for_commands, tokenize, CommandRoute, TokenizeError};
use bevy_repl::command::CommandTable;
use bevy_repl::commands::{finish_command_input, parse_command_input};
use bevy_repl::config::{toggle_repl, ReplConfig};
use bevy_repl::error::ReplError;
use bevy_repl::log_ecs::{drain_events_into_buffer, level_filter, log_event_line, LevelFilter, LogBuffer, LogEvent, LogLevel, LogLine};
use bevy_repl::plugin::{RatatuiPluginKind, ReplPluginKind, ReplPlugins, StdoutRatatuiPlugin};
use bevy_repl::prompt::ReplPrompt;
use bevy_repl::registry::{execution_output, Dispatch, ReplCommandRegistry};
use bevy_repl::repl::ReplLifecycleEvent;
use bevy_repl::terminal::BevyRatatuiTerminal;

#[test]
fn command_table_replaces_and_keeps_order() {
    let mut t = CommandTable::new();
    t.insert("quit".to_string(), 0);
    t.insert("help".to_string(), 1);
    t.insert("quit".to_string(), 2);
    assert_eq!(t.len(), 2);
    assert_eq!(t.get("quit"), Some(2));
    assert_eq!(t.get("help"), Some(1));
    assert_eq!(t.get("nope"), None);
    assert_eq!(t.keys(), vec!["quit".to_string(), "help".to_string()]);
}

#[test]
fn routing_submitted_lines() {
    let mut t = CommandTable::new();
    t.insert("quit".to_string(), 0);
    t.insert("q".to_string(), 0);
    t.insert("help".to_string(), 1);
    assert_eq!(parse_input_buffer_for_commands("", &t), CommandRoute::Ignored);
    assert_eq!(parse_input_buffer_for_commands("   ", &t), CommandRoute::Ignored);
    assert_eq!(parse_input_buffer_for_commands("q now", &t), CommandRoute::Dispatch(0));
    assert_eq!(parse_input_buffer_for_commands("help", &t), CommandRoute::Dispatch(1));
    assert_eq!(parse_input_buffer_for_commands("spawn 3", &t), CommandRoute::Unknown);
    assert_eq!(parse_input_buffer_for_commands("say \"oops", &t), CommandRoute::Invalid);
}

#[test]
fn tokenize_rejects_unterminated_quote() {
    assert_eq!(tokenize("say 'hi").unwrap_err(), TokenizeError::MissingClosingQuote);
    assert_eq!(tokenize("  ").unwrap(), Vec::<String>::new());
}

#[test]
fn message_lines_split() {
    assert_eq!(message_lines("error: bad\r\n\nUsage: x"), vec!["error: bad", "", "Usage: x"]);
}

#[test]
fn registry_dispatch() {
    let mut reg = ReplCommandRegistry::new();
    match reg.parse_and_execute("anything").unwrap() {
        Dispatch::Message(m) => assert_eq!(m, "No commands registered. Register commands with `add_repl_command`."),
        _ => panic!("expected a message"),
    }
    let id_close = reg.register(CloseReplCommand.command());
    assert_eq!(id_close, 0);
    let id_tree = reg.register(TreeCommand.command());
    assert_eq!(id_tree, 1);
    assert_eq!(reg.get_command_names(), vec!["close".to_string(), "tree".to_string()]);
    assert!(reg.has_command("tree"));
    assert!(!reg.has_command("help"));
    assert_eq!(reg.get_command("close"), Some(0));
    assert!(reg.get_app().is_some());
    // Registering the same name again keeps its identifier.
    assert_eq!(reg.register(TreeCommand.command()), 1);
    // The first word is the program name; the second names the command.
    match reg.parse_and_execute("repl close").unwrap() {
        Dispatch::Execute(id, _) => assert_eq!(id, 0),
        _ => panic!("expected the close command"),
    }
    match reg.parse_and_execute("repl tree 7").unwrap() {
        Dispatch::Execute(id, m) => {
            assert_eq!(id, 1);
            assert_eq!(m.get_one::<String>("entity").unwrap(), "7");
        },
        _ => panic!("expected the tree command"),
    }
    match reg.parse_and_execute("repl bogus") {
        Err(ReplError::ClapError(m)) => assert!(m.contains("bogus")),
        _ => panic!("expected a clap error"),
    }
    // No subcommand and no help command registered.
    match reg.parse_and_execute("repl").unwrap() {
        Dispatch::Message(m) => assert_eq!(m, "No command specified. Help command not found."),
        _ => panic!("expected a message"),
    }
}

#[test]
fn registry_resolves_help_and_unknown() {
    let mut reg = ReplCommandRegistry::default();
    reg.register(CloseReplCommand.command());
    let m = clap::Command::new("x").try_get_matches_from(["x"]).unwrap();
    match reg.resolve_matches(None, m.clone()) {
        Dispatch::Message(s) => assert_eq!(s, "No command specified. Help command not found."),
        _ => panic!("expected a message"),
    }
    match reg.resolve_matches(Some(("nope".to_string(), m.clone())), m.clone()) {
        Dispatch::Message(s) => assert_eq!(s, "Unknown command: `nope`. Use 'help' to see available commands."),
        _ => panic!("expected a message"),
    }
    let id_help = reg.register_named("help".to_string(), HelpCommand::clap_command());
    assert_eq!(id_help, 1);
    match reg.resolve_matches(None, m.clone()) {
        Dispatch::Execute(id, _) => assert_eq!(id, 1),
        _ => panic!("expected the help command"),
    }
    match reg.resolve_matches(Some(("close".to_string(), m.clone())), m) {
        Dispatch::Execute(id, _) => assert_eq!(id, 0),
        _ => panic!("expected the close command"),
    }
}

#[test]
fn error_messages_and_output() {
    assert_eq!(ReplError::CommandNotFound("x".to_string()).message(), "Command 'x' not found");
    assert_eq!(ReplError::ClapError("bad".to_string()).message(), "bad");
    assert_eq!(ReplError::ExecutionError("boom".to_string()).message(), "Execution error: boom");
    assert_eq!(ReplError::WorldAccessError("w".to_string()).message(), "World access error: w");
    assert_eq!(execution_output(Ok("done".to_string())), "done");
    assert_eq!(execution_output(Err(ReplError::CommandNotFound("x".to_string()))), "Error: Command 'x' not found");
}

#[test]
fn command_input_from_terminal() {
    let mut term = BevyRatatuiTerminal::new("> ".to_string());
    assert!(parse_command_input(&term).is_none());
    term.set_current_line("  spawn   3 ".to_string());
    assert_eq!(parse_command_input(&term), Some(vec!["spawn".to_string(), "3".to_string()]));
    finish_command_input(&mut term, Err("no such command".to_string()));
    assert_eq!(term.get_current_line(), "");
    term.set_current_line("ok".to_string());
    finish_command_input(&mut term, Ok(()));
    assert_eq!(term.get_current_line(), "");
}

#[test]
fn terminal_line_editing_and_submit() {
    let mut term = BevyRatatuiTerminal::new("$ ".to_string());
    for c in "ls".chars() {
        term.handle_char(c);
    }
    assert_eq!(term.get_current_line(), "ls");
    assert_eq!(term.get_cursor_position(), 2);
    term.handle_char('\x7f');
    assert_eq!(term.get_current_line(), "l");
    term.handle_char('\x01');
    assert_eq!(term.get_current_line(), "l");
    term.handle_char('\n');
    assert_eq!(term.get_current_line(), "");
    term.toggle_active();
    assert!(!term.is_active());
    term.handle_char('x');
    assert_eq!(term.get_current_line(), "");
    assert_eq!(term.get_prompt(), "$ ");
}

#[test]
fn terminal_log_is_bounded() {
    let mut term = BevyRatatuiTerminal::default();
    for i in 0..1005 {
        term.add_log_line(format!("line {}", i));
    }
    // Only the newest thousand lines are kept; this is observable through later behaviour.
    term.add_log_line("last".to_string());
    assert_eq!(term.get_current_line(), "");
}

#[test]
fn log_lines_and_buffer() {
    let ev = LogEvent { message: "hello".to_string(), level: LogLevel::Info };
    assert_eq!(log_event_line(&ev), "INFO  hello");
    let ev = LogEvent { message: "x".to_string(), level: LogLevel::Error };
    assert_eq!(log_event_line(&ev), "ERROR x");
    assert_eq!(level_filter(LogLevel::Warn), LevelFilter::Warn);
    let mut buf = LogBuffer::with_capacity(2);
    let events = vec![
        LogEvent { message: "a".to_string(), level: LogLevel::Info },
        LogEvent { message: "b".to_string(), level: LogLevel::Warn },
        LogEvent { message: "c".to_string(), level: LogLevel::Debug },
    ];
    drain_events_into_buffer(&events, &mut buf);
    let kept: Vec<String> = buf.lines.iter().map(|l| l.message.clone()).collect();
    assert_eq!(kept, vec!["b".to_string(), "c".to_string()]);
    buf.push(LogLine { level: LogLevel::Trace, message: "d".to_string() });
    assert_eq!(buf.lines.len(), 2);
    assert_eq!(LogBuffer::default().capacity, 256);
}

#[test]
fn built_in_outputs() {
    let mut t = CommandTable::new();
    t.insert("help".to_string(), 0);
    t.insert("h".to_string(), 0);
    assert_eq!(on_help(&t), vec!["Available commands:", "  help", "  h"]);
    let (ev, msg) = CloseReplCommand.execute();
    assert_eq!(ev, ReplLifecycleEvent::Disable);
    assert_eq!(msg, "REPL disabled. Application will continue running.");
    let entities = vec![
        EntityEntry { label: "0v1".to_string(), components: vec!["Transform".to_string(), "Name".to_string()] },
        EntityEntry { label: "1v1".to_string(), components: vec![] },
    ];
    assert_eq!(
        TreeCommand.execute(&entities),
        "Entity Tree:\n  Entity 0v1\n    - Transform\n    - Name\n  Entity 1v1\n"
    );
    assert_eq!(TreeCommand.name(), "tree");
}

#[test]
fn config_and_prompt_defaults() {
    let c = ReplConfig::new();
    assert!(c.enabled);
    assert_eq!(c.prompt, "> ");
    let mut c = c.with_prompt("$ ".to_string()).with_history_file(".h".to_string());
    assert_eq!(c.prompt, "$ ");
    assert_eq!(c.history_file, Some(".h".to_string()));
    toggle_repl(&mut c);
    assert!(!c.enabled);
    assert!(!ReplConfig::default().disabled().enabled);
    let p = ReplPrompt::initial(None);
    assert_eq!(p.symbol, Some("> ".to_string()));
    assert_eq!(p.buffer, "");
    assert_eq!(ReplPrompt::initial(Some("λ ".to_string())).symbol, Some("λ ".to_string()));
}

#[test]
fn plugin_lists() {
    assert_eq!(
        ReplPlugins.build(),
        vec![
            ReplPluginKind::Repl,
            ReplPluginKind::Parser,
            ReplPluginKind::Input,
            ReplPluginKind::InputKeymap,
            ReplPluginKind::Print,
            ReplPluginKind::DefaultCommands,
        ]
    );
    assert_eq!(
        StdoutRatatuiPlugin.build(true, false, true, false),
        vec![RatatuiPluginKind::Cleanup, RatatuiPluginKind::Translation]
    );
}

#[test]
fn built_in_definitions() {
    let quit = bevy_repl::built_ins::quit::QuitCommand::clap_command();
    assert_eq!(quit.get_name(), "quit");
    assert_eq!(quit.get_all_aliases().collect::<Vec<_>>(), vec!["q", "exit"]);
    assert_eq!(quit.get_about().map(|a| a.to_string()), Some("Exits the app gracefully".to_string()));
    let close = CloseReplCommand.command();
    assert_eq!(close.get_all_aliases().collect::<Vec<_>>(), vec!["quit", "exit", "q"]);
    let tree = TreeCommand.command();
    let args: Vec<_> = tree.get_arguments().collect();
    assert_eq!(args.len(), 1);
    assert_eq!(args[0].get_id().as_str(), "entity");
    assert!(!args[0].is_required_set());
    assert_eq!(args[0].get_help().map(|h| h.to_string()), Some("Show tree for specific entity ID".to_string()));
    assert_eq!(args[0].get_num_args(), Some(clap::builder::ValueRange::new(0..=1)));
    let mut repl = bevy_repl::repl::Repl::default();
    bevy_repl::command::register_command_in_repl(&mut repl, &close, 4);
    for name in ["close", "quit", "exit", "q"] {
        assert_eq!(repl.commands.get(name), Some(4));
    }
    assert_eq!(repl.commands.len(), 4);
}

#[test]
fn sysinfo_report_text() {
    assert_eq!(decimal_string(0), "0");
    assert_eq!(decimal_string(1204), "1204");
    let s = SysInfoCommand.report("0.17.3", "1.95.0", 3, 10, 2, None);
    assert_eq!(
        s,
        "Bevy Version: 0.17.3\nRust Version: 1.95.0\nEntity Count: 3\nComponent Count: 10\nResource Count: 2\n\nNote: Diagnostics not available. Enable `diagnostics` feature to see performance metrics.\n"
    );
    let s = SysInfoCommand.report("a", "b", 0, 1, 0, Some(vec!["FPS: 60".to_string()]));
    assert_eq!(s, "Bevy Version: a\nRust Version: b\nEntity Count: 0\nComponent Count: 1\nResource Count: 0\nFPS: 60\n");
    assert_eq!(SysInfoCommand.command().get_name(), "sysinfo");
}

#[test]
fn disabled_repl_reads_no_keys() {
    let mut repl = bevy_repl::repl::Repl::default();
    assert!(!bevy_repl::input::reads_terminal_keys(&repl));
    repl.enable();
    assert!(bevy_repl::input::reads_terminal_keys(&repl));
}

#[test]
fn echo_prompt_zero_width() {
    let repl = bevy_repl::repl::Repl::default();
    let d = bevy_repl::prompt::echo::display_prompt(None, &repl, 0, 24).unwrap();
    assert_eq!(d.row, 23);
    assert!(d.lines.is_empty());
    assert_eq!(d.cursor_x, 0);
    assert!(bevy_repl::prompt::echo::display_prompt(Some("> "), &repl, 0, 24).is_none());
}
