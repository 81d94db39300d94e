use bevy_repl::print::{manage_scroll_region, render_prompt, repl_print, PrintStep, ScrollAction};
use bevy_repl::prompt::helpers::Rect;
use bevy_repl::prompt::renderer::alt_screen::{
    bar_layout, manage_pretty_scroll_region, scroll_reserved_region_up, ScrollRegionAction,
    ScrollRegionState,
};
use bevy_repl::prompt::renderer::helpers::{buffer_window, cursor_position, display_width_u16, bottom_bar_area};
use bevy_repl::prompt::renderer::stdout::{cleanup_stdout_context_on_exit, manage_stdout_context, ContextAction};
use bevy_repl::repl::{Repl, ReplLifecycleEvent};
use bevy_repl::tracing::ReplWriter;

fn step_text(s: &PrintStep) -> String {
    match s {
        PrintStep::MoveTo(c, r) => format!("MoveTo({},{})", c, r),
        PrintStep::MoveToColumn(c) => format!("Col({})", c),
        PrintStep::Text(t) => format!("Text({})", t),
        PrintStep::LineBreak => "CRLF".to_string(),
    }
}

#[test]
fn repl_print_plan_with_known_height() {
    let steps: Vec<String> = repl_print("a\nb", Some(10)).iter().map(step_text).collect();
    assert_eq!(
        steps,
        vec!["MoveTo(0,8)", "Text(a)", "CRLF", "MoveTo(0,8)", "Text(b)", "CRLF", "MoveTo(0,9)"]
    );
}

#[test]
fn repl_print_plan_without_height_and_empty_text() {
    let steps: Vec<String> = repl_print("x\r\ny", None).iter().map(step_text).collect();
    assert_eq!(steps, vec!["Col(0)", "Text(x)", "CRLF", "Col(0)", "Text(y)", "CRLF"]);
    let steps: Vec<String> = repl_print("", Some(1)).iter().map(step_text).collect();
    assert_eq!(steps, vec!["MoveTo(0,0)", "CRLF", "MoveTo(0,0)"]);
}

#[test]
fn scroll_region_written_once_per_change() {
    let mut last = None;
    assert_eq!(manage_scroll_region(&mut last, true, 24), ScrollAction::SetRegion { bottom: 23 });
    assert_eq!(manage_scroll_region(&mut last, true, 24), ScrollAction::Keep);
    assert_eq!(manage_scroll_region(&mut last, false, 24), ScrollAction::Reset);
    assert_eq!(manage_scroll_region(&mut last, false, 24), ScrollAction::Keep);
    let mut fresh = None;
    assert_eq!(manage_scroll_region(&mut fresh, false, 24), ScrollAction::Keep);
    assert_eq!(fresh, Some((false, 24)));
}

#[test]
fn render_prompt_line() {
    let mut repl = Repl::default();
    assert!(render_prompt(&repl, 24).is_none());
    repl.enable();
    repl.insert('o');
    repl.insert('k');
    let line = render_prompt(&repl, 24).unwrap();
    assert_eq!(line.row, 23);
    assert_eq!(line.text, "> ok");
    assert_eq!(line.cursor_x, 4);
}

#[test]
fn pretty_scroll_region_steps() {
    let mut last: Option<ScrollRegionState> = None;
    let a = manage_pretty_scroll_region(&mut last, false, true, true, 24, 5);
    assert_eq!(a, ScrollRegionAction::SetRegion { bottom: 21, height: 24, reserved: 3, newlines: 3 });
    assert_eq!(last, Some(ScrollRegionState { enabled: true, height: 24, reserved_lines: 3 }));
    // Same state again: nothing to do.
    assert_eq!(manage_pretty_scroll_region(&mut last, false, true, true, 24, 9), ScrollRegionAction::Keep);
    // Disabling resets the region.
    assert_eq!(manage_pretty_scroll_region(&mut last, false, false, true, 24, 9), ScrollRegionAction::Reset { height: 24 });
    // Logs drawn in the frame: nothing is managed.
    let mut none: Option<ScrollRegionState> = None;
    assert_eq!(manage_pretty_scroll_region(&mut none, true, true, true, 24, 0), ScrollRegionAction::Keep);
    assert_eq!(none, None);
    assert_eq!(scroll_reserved_region_up(3, 0, 0), 0);
    assert_eq!(scroll_reserved_region_up(3, 3, 7), 0);
    assert_eq!(scroll_reserved_region_up(3, 0, 7), 3);
}

#[test]
fn grapheme_buffer_window() {
    assert_eq!(buffer_window("hello world", 11, 5), ("world".to_string(), 6));
    assert_eq!(buffer_window("hello world", 0, 5), ("hello".to_string(), 0));
    assert_eq!(buffer_window("hi", 1, 5), ("hi".to_string(), 0));
    assert_eq!(buffer_window("hi", 1, 0), (String::new(), 0));
    assert_eq!(buffer_window("日本語", 9, 4), ("本語".to_string(), 3));
    // The cursor's grapheme is wider than the view: an empty window after it,
    // or what fits after it.
    assert_eq!(buffer_window("界界", 3, 1), (String::new(), 6));
    assert_eq!(buffer_window("界ab", 0, 1), ("a".to_string(), 3));
    // Printable ASCII: one column per character.
    assert_eq!(buffer_window("abcdef", 3, 3), ("bcd".to_string(), 1));
    assert_eq!(buffer_window("abcdef", 6, 3), ("def".to_string(), 3));
    assert_eq!(buffer_window("abcdef", 0, 3), ("abc".to_string(), 0));
}

#[test]
fn display_width_and_cursor_columns() {
    assert_eq!(display_width_u16("ab"), 2);
    assert_eq!(display_width_u16("日本"), 4);
    let left = Rect { x: 0, y: 3, width: 10, height: 1 };
    assert_eq!(cursor_position(left, 2, "日本語", 3, 9), (6, 3));
    assert_eq!(cursor_position(left, 2, "abcdefghijkl", 0, 12), (9, 3));
    let total = Rect { x: 0, y: 0, width: 40, height: 10 };
    assert_eq!(bottom_bar_area(total, 3), Rect { x: 0, y: 7, width: 40, height: 3 });
    assert_eq!(bottom_bar_area(total, 11), Rect { x: 0, y: 0, width: 40, height: 0 });
}

#[test]
fn pretty_bar_layout() {
    let area = Rect { x: 0, y: 0, width: 40, height: 10 };
    let l = bar_layout(area, true, Some("hint"), "> ", "hello", 5).unwrap();
    assert_eq!(l.block_area, Some(Rect { x: 0, y: 7, width: 40, height: 3 }));
    let t = l.text.unwrap();
    assert_eq!(t.left_area, Rect { x: 1, y: 8, width: 34, height: 1 });
    assert_eq!(t.visible, "hello");
    assert_eq!(t.hint_area, Some(Rect { x: 35, y: 8, width: 4, height: 1 }));
    assert_eq!(t.cursor, (8, 8));
    // Too short for a bordered bar: nothing is drawn.
    let small = Rect { x: 0, y: 0, width: 40, height: 2 };
    let l = bar_layout(small, true, None, "> ", "hello", 5).unwrap();
    assert!(l.block_area.is_none() && l.text.is_none());
}

#[test]
fn stdout_context_actions() {
    assert_eq!(manage_stdout_context(ReplLifecycleEvent::Enable, false), ContextAction::Init);
    assert_eq!(manage_stdout_context(ReplLifecycleEvent::Enable, true), ContextAction::Keep);
    assert_eq!(manage_stdout_context(ReplLifecycleEvent::Disable, true), ContextAction::Restore);
    assert_eq!(manage_stdout_context(ReplLifecycleEvent::Disable, false), ContextAction::Keep);
    assert_eq!(cleanup_stdout_context_on_exit(true), ContextAction::Restore);
    assert_eq!(cleanup_stdout_context_on_exit(false), ContextAction::Keep);
}

#[test]
fn writer_forwards_complete_lines() {
    let mut w = ReplWriter::new();
    assert_eq!(w.write_str("ab\r\ncd"), vec!["ab".to_string()]);
    assert_eq!(w.write_str("e\nf"), vec!["cde".to_string()]);
    assert_eq!(w.flush(), Some("f".to_string()));
    assert_eq!(w.flush(), None);
    let (lines, n) = w.write(&[0x68, 0xff, b'\n']);
    assert_eq!(lines, vec!["h\u{fffd}".to_string()]);
    assert_eq!(n, 3);
}
