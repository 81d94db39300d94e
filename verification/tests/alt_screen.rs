use bevy_repl::prompt::config::ReplPromptConfig;
use bevy_repl::prompt::helpers::Rect;
use bevy_repl::prompt::renderer::alt_screen::{inner_rect, reserved_lines, ScrollRegionState};

#[test]
fn test_scroll_region_state_calculation_simple() {
    // Simple mode (no border) reserves no lines.
    let config = ReplPromptConfig::simple();
    let border_on = config.block.is_some();
    let reserved: u16 = reserved_lines(true, border_on);
    assert_eq!(reserved, 0, "Simple mode should not reserve lines");
}

#[test]
fn test_scroll_region_state_calculation_pretty() {
    // Pretty mode (with border) reserves 3 lines.
    let config = ReplPromptConfig::pretty();
    let border_on = config.block.is_some();
    let reserved: u16 = reserved_lines(true, border_on);
    assert_eq!(reserved, 3, "Pretty mode should reserve 3 lines for border");
}

#[test]
fn test_scroll_region_state_equality() {
    let state1 = ScrollRegionState { enabled: true, height: 24, reserved_lines: 3 };
    let state2 = ScrollRegionState { enabled: true, height: 24, reserved_lines: 3 };
    let state3 = ScrollRegionState { enabled: true, height: 24, reserved_lines: 0 };
    assert_eq!(state1, state2);
    assert_ne!(state1, state3);
}

#[test]
fn test_inner_rect_with_border() {
    let area = Rect { x: 0, y: 0, width: 10, height: 5 };

    // With border - should shrink by 1 on all sides
    let inner_with_border = inner_rect(area, true);
    assert_eq!(inner_with_border, Rect { x: 1, y: 1, width: 8, height: 1 });

    // Without border - should use full width
    let inner_no_border = inner_rect(area, false);
    assert_eq!(inner_no_border, Rect { x: 0, y: 0, width: 10, height: 1 });
}

#[test]
fn test_prompt_config_differences() {
    let simple = ReplPromptConfig::simple();
    let pretty = ReplPromptConfig::pretty();
    assert!(simple.block.is_none(), "Simple config should have no border");
    assert!(pretty.block.is_some(), "Pretty config should have a border");
    assert!(simple.hint.is_none(), "Simple config should have no hint");
    assert!(pretty.hint.is_some(), "Pretty config should have a hint");
}

#[test]
fn test_scroll_reserved_region_calculation() {
    let cases: Vec<(bool, bool, u16)> = vec![
        (true, true, 3),   // pretty mode
        (true, false, 0),  // simple mode
        (false, true, 0),  // disabled
        (false, false, 0), // disabled
    ];
    for (repl_enabled, has_border, expected) in cases {
        let reserved = reserved_lines(repl_enabled, has_border);
        assert_eq!(
            reserved, expected,
            "repl_enabled: {}, has_border: {} should reserve {} lines",
            repl_enabled, has_border, expected
        );
    }
}
