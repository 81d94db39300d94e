use bevy_repl::repl::Repl;

#[test]
fn test_repl_buffer_insert() {
    let mut repl = Repl::default();
    repl.insert('h');
    repl.insert('i');
    assert_eq!(repl.buffer, "hi");
    assert_eq!(repl.cursor_pos, 2);
}

#[test]
fn test_repl_buffer_backspace() {
    let mut repl = Repl::default();
    repl.insert('h');
    repl.insert('i');
    repl.backspace();
    assert_eq!(repl.buffer, "h");
    assert_eq!(repl.cursor_pos, 1);
}

#[test]
fn test_repl_buffer_delete() {
    let mut repl = Repl::default();
    repl.insert('h');
    repl.insert('i');
    // Move cursor back to position 1, then delete removes 'i'
    repl.left();
    repl.delete();
    assert_eq!(repl.buffer, "h");
}

#[test]
fn test_repl_buffer_left_right() {
    let mut repl = Repl::default();
    repl.insert('h');
    repl.insert('i');
    repl.left();
    assert_eq!(repl.cursor_pos, 1);
    repl.insert('s');
    assert_eq!(repl.buffer, "hsi");
    repl.right();
    assert_eq!(repl.cursor_pos, 3);
}

#[test]
fn test_repl_buffer_home_end() {
    let mut repl = Repl::default();
    repl.insert('h');
    repl.insert('i');
    repl.home();
    assert_eq!(repl.cursor_pos, 0);
    repl.end();
    assert_eq!(repl.cursor_pos, 2);
}

#[test]
fn test_repl_buffer_clear() {
    let mut repl = Repl::default();
    repl.insert('h');
    repl.insert('i');
    repl.clear_buffer();
    assert!(repl.buffer.is_empty());
    assert_eq!(repl.cursor_pos, 0);
}

#[test]
fn test_repl_buffer_drain() {
    let mut repl = Repl::default();
    repl.insert('h');
    repl.insert('i');
    let drained = repl.drain_buffer();
    assert_eq!(drained, "hi");
    assert!(repl.buffer.is_empty());
}

#[test]
fn test_repl_buffer_bounds() {
    let mut repl = Repl::default();

    repl.backspace();
    assert_eq!(repl.cursor_pos, 0);

    repl.insert('h');
    repl.right();
    assert_eq!(repl.cursor_pos, 1);
    repl.right();
    assert_eq!(repl.cursor_pos, 1);

    repl.delete();
    assert_eq!(repl.buffer, "h");
}
