use bevy_repl::input::{capture_terminal_input, KeyOutcome};
use bevy_repl::keymap::{Binding, KeyCode, KeyEvent, KeyEventKind, KeyModifiers, ReplKeymap};
use bevy_repl::prompt::echo::capture_repl_input;
use bevy_repl::prompt::keymap::PromptKeymap;
use bevy_repl::repl::{apply_buffer_event, BufferOutcome, Repl, ReplBufferEvent, ReplLifecycleEvent};

fn press(code: KeyCode, bits: u8) -> KeyEvent {
    KeyEvent { code, modifiers: KeyModifiers { bits }, kind: KeyEventKind::Press }
}

#[test]
fn default_keymap_edits() {
    let km = ReplKeymap::default();
    // Plain Enter submits; Shift+Enter inserts a newline.
    assert_eq!(km.map(&press(KeyCode::Enter, 0)), Some(ReplBufferEvent::Submit));
    assert_eq!(km.map(&press(KeyCode::Enter, 1)), Some(ReplBufferEvent::Insert('\n')));
    assert_eq!(km.map(&press(KeyCode::Char('a'), 0)), Some(ReplBufferEvent::Insert('a')));
    assert_eq!(km.map(&press(KeyCode::Char('A'), 1)), Some(ReplBufferEvent::Insert('A')));
    assert_eq!(km.map(&press(KeyCode::Char('c'), 2)), Some(ReplBufferEvent::Clear));
    assert_eq!(km.map(&press(KeyCode::Char('u'), 2)), Some(ReplBufferEvent::ClearToStart));
    assert_eq!(km.map(&press(KeyCode::Char('l'), 2)), Some(ReplBufferEvent::ClearScreen));
    assert_eq!(km.map(&press(KeyCode::Char('x'), 2)), None);
    assert_eq!(km.map(&press(KeyCode::Home, 0)), Some(ReplBufferEvent::JumpToStart));
}

#[test]
fn default_keymap_toggle_lifecycle() {
    let km = ReplKeymap::default();
    assert_eq!(km.check_lifecycle(&press(KeyCode::Char('`'), 0)), Some(ReplLifecycleEvent::Toggle));
    assert_eq!(km.check_lifecycle(&press(KeyCode::Char('a'), 0)), None);
}

#[test]
fn unset_keymap_is_inert() {
    let km = ReplKeymap::unset();
    for code in [KeyCode::Enter, KeyCode::Char('a'), KeyCode::Char('`'), KeyCode::Left] {
        assert_eq!(km.map(&press(code, 0)), None);
        assert_eq!(km.check_lifecycle(&press(code, 0)), None);
    }
}

#[test]
fn shift_is_ignored_for_non_char_keys() {
    let b = Binding::plain(KeyCode::Left);
    assert!(b.matches(&press(KeyCode::Left, 0)));
    assert!(b.matches(&press(KeyCode::Left, 1)));
    assert!(!b.matches(&press(KeyCode::Left, 2)));
    // A binding that asks for SHIFT needs it.
    let s = Binding::new(KeyCode::Enter, KeyModifiers { bits: 1 });
    assert!(s.matches(&press(KeyCode::Enter, 1)));
    assert!(!s.matches(&press(KeyCode::Enter, 0)));
    let c = Binding::plain(KeyCode::Char('a'));
    assert!(!c.matches(&press(KeyCode::Char('a'), 1)));
}

#[test]
fn capture_terminal_input_flow() {
    let km = ReplKeymap::default();
    let mut repl = Repl::default();
    // Disabled: everything is ignored.
    assert!(matches!(capture_terminal_input(&mut repl, &km, &press(KeyCode::Char('h'), 0)), KeyOutcome::Ignored));
    assert_eq!(repl.buffer, "");
    repl.enable();
    // The toggle key asks for a lifecycle change and leaves the buffer alone.
    assert!(matches!(
        capture_terminal_input(&mut repl, &km, &press(KeyCode::Char('`'), 0)),
        KeyOutcome::Lifecycle(ReplLifecycleEvent::Toggle)
    ));
    assert_eq!(repl.buffer, "");
    assert!(matches!(capture_terminal_input(&mut repl, &km, &press(KeyCode::Char('h'), 0)), KeyOutcome::Edited));
    assert!(matches!(capture_terminal_input(&mut repl, &km, &press(KeyCode::Char('i'), 0)), KeyOutcome::Edited));
    let release = KeyEvent { code: KeyCode::Char('x'), modifiers: KeyModifiers { bits: 0 }, kind: KeyEventKind::Release };
    assert!(matches!(capture_terminal_input(&mut repl, &km, &release), KeyOutcome::Ignored));
    assert_eq!(repl.buffer, "hi");
    match capture_terminal_input(&mut repl, &km, &press(KeyCode::Enter, 0)) {
        KeyOutcome::Submit(line) => assert_eq!(line, "hi"),
        other => panic!("unexpected outcome {:?}", other),
    }
    assert_eq!(repl.buffer, "");
    assert_eq!(repl.cursor_pos, 0);
    // Submitting an empty line does nothing.
    assert!(matches!(capture_terminal_input(&mut repl, &km, &press(KeyCode::Enter, 0)), KeyOutcome::Ignored));
    // Ctrl+C exits.
    assert!(matches!(capture_terminal_input(&mut repl, &km, &press(KeyCode::Char('c'), 2)), KeyOutcome::Exit));
    // Ctrl+L clears the screen.
    assert!(matches!(capture_terminal_input(&mut repl, &km, &press(KeyCode::Char('l'), 2)), KeyOutcome::ClearScreen));
}

#[test]
fn insert_then_backspace_restores() {
    let mut repl = Repl::default();
    repl.insert('a');
    repl.insert('b');
    repl.left();
    repl.insert('x');
    assert_eq!(repl.buffer, "axb");
    assert_eq!(repl.cursor_pos, 2);
    repl.backspace();
    assert_eq!(repl.buffer, "ab");
    assert_eq!(repl.cursor_pos, 1);
}

#[test]
fn cursor_moves_one_byte_per_inserted_char() {
    // The cursor advances by one byte per character, also for a multi-byte one.
    let mut repl = Repl::default();
    repl.insert('é');
    assert_eq!(repl.buffer, "é");
    assert_eq!(repl.cursor_pos, 1);
    repl.backspace();
    assert_eq!(repl.buffer, "");
    assert_eq!(repl.cursor_pos, 0);
    // Backspace right after typing removes what was typed, whatever its width.
    repl.insert('a');
    repl.insert('b');
    repl.left();
    repl.insert('日');
    assert_eq!(repl.buffer, "a日b");
    assert_eq!(repl.cursor_pos, 2);
    repl.backspace();
    assert_eq!(repl.buffer, "ab");
    assert_eq!(repl.cursor_pos, 1);
}

#[test]
fn clear_to_start_keeps_the_tail() {
    let mut repl = Repl::default();
    for c in "hello".chars() {
        repl.insert(c);
    }
    repl.left();
    repl.left();
    repl.clear_to_start();
    assert_eq!(repl.buffer, "lo");
    assert_eq!(repl.cursor_pos, 0);
}

#[test]
fn apply_buffer_event_outcomes() {
    let mut repl = Repl::default();
    assert!(matches!(apply_buffer_event(&mut repl, ReplBufferEvent::Insert('x')), BufferOutcome::Edited));
    assert!(matches!(apply_buffer_event(&mut repl, ReplBufferEvent::ClearScreen), BufferOutcome::ClearScreen));
    assert_eq!(repl.buffer, "x");
    match apply_buffer_event(&mut repl, ReplBufferEvent::Submit) {
        BufferOutcome::Submitted(s) => assert_eq!(s, "x"),
        other => panic!("unexpected outcome {:?}", other),
    }
    assert_eq!(repl.buffer, "");
}

#[test]
fn toggle_flips_enabled() {
    let mut repl = Repl::default();
    assert!(!repl.enabled);
    repl.toggle();
    assert!(repl.enabled);
    repl.toggle();
    assert!(!repl.enabled);
}

#[test]
fn prompt_keymap_and_echo_capture() {
    let km = PromptKeymap::default();
    assert_eq!(km.map(&press(KeyCode::Char('z'), 0)), Some(ReplBufferEvent::Insert('z')));
    assert_eq!(PromptKeymap::none().map(&press(KeyCode::Char('z'), 0)), None);
    assert_eq!(capture_repl_input(&press(KeyCode::Enter, 0)), Some(ReplBufferEvent::Submit));
    assert_eq!(capture_repl_input(&press(KeyCode::Char('q'), 0)), Some(ReplBufferEvent::Insert('q')));
    let release = KeyEvent { code: KeyCode::Enter, modifiers: KeyModifiers { bits: 0 }, kind: KeyEventKind::Release };
    assert_eq!(capture_repl_input(&release), None);
}

#[test]
fn echo_prompt_cursor_follows_the_symbol() {
    let mut repl = Repl::default();
    for c in "abc".chars() {
        repl.insert(c);
    }
    repl.left();
    repl.left();
    let d = bevy_repl::prompt::echo::display_prompt(Some("> "), &repl, 80, 24).unwrap();
    assert_eq!(d.row, 23);
    assert_eq!(d.lines, vec!["> abc".to_string()]);
    assert_eq!(d.cursor_x, 3);
    let d = bevy_repl::prompt::echo::display_prompt(None, &repl, 2, 24).unwrap();
    assert_eq!(d.lines, vec!["ab".to_string(), "c".to_string()]);
    assert_eq!(d.cursor_x, 1);
    assert!(bevy_repl::prompt::echo::display_prompt(None, &repl, 0, 24).is_none());
}
