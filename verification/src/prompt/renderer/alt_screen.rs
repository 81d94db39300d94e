//! The bordered prompt bar: reserving the bottom rows of the terminal as a
//! scroll region, and laying out the bar (border, prompt, text, hint, cursor).
use crate::prompt::config::ReplPromptConfig;
use crate::prompt::helpers::{bar_fits, spec_bottom_bar_area, Rect};
use crate::prompt::renderer::helpers::{
    bottom_bar_area, checked_len, clamp_to, cursor_position_defined, display_width_u16,
    spec_buffer_window, spec_cursor_position, spec_display_width, try_buffer_window,
    try_cursor_position, window_defined,
};
use crate::repl::Repl;
use crate::text::byte_len;
use vstd::prelude::*;

verus! {

/// What the scroll-region manager last applied.
#[derive(Debug, Clone, Copy, PartialEq, Eq, Structural)]
pub struct ScrollRegionState {
    pub enabled: bool,
    pub height: u16,
    pub reserved_lines: u16,
}

/// Rows reserved at the bottom for the prompt: three (bar and border) when the
/// REPL is enabled with a border, none otherwise.
pub open spec fn spec_reserved_lines(enabled: bool, border_on: bool) -> u16 {
    if enabled && border_on {
        3
    } else {
        0
    }
}

pub fn reserved_lines(enabled: bool, border_on: bool) -> (r: u16)
    ensures
        r == spec_reserved_lines(enabled, border_on),
{
    if enabled && border_on {
        3
    } else {
        0
    }
}

/// What to write to the terminal to bring the scroll region up to date.
#[derive(Debug, Clone, Copy, PartialEq, Eq, Structural)]
pub enum ScrollRegionAction {
    /// Nothing to do.
    Keep,
    /// Reset the scroll region to the whole screen (`ESC[r`) and publish
    /// `(height, 0)` to the printer.
    Reset { height: u16 },
    /// Set the scroll region to rows `1..=bottom` (`ESC[1;{bottom}r`), publish
    /// `(height, reserved)` to the printer, then, when `newlines > 0`, move to
    /// row `bottom` and print that many newlines to push earlier output up.
    SetRegion { bottom: u16, height: u16, reserved: u16, newlines: u16 },
}

/// Newlines printed to clear the reserved rows: only when the region appears for
/// the first time and something was printed before.
pub open spec fn spec_scroll_up_lines(reserved_lines: u16, prev_reserved: u16, printed_lines: usize) -> u16 {
    if prev_reserved == 0 && printed_lines > 0 {
        reserved_lines
    } else {
        0
    }
}

/// Scroll the reserved region up by emitting newlines at the last scrollable line:
/// the number of newlines to emit.
pub fn scroll_reserved_region_up(reserved_lines: u16, prev_reserved: u16, printed_lines: usize) -> (r: u16)
    ensures
        r == spec_scroll_up_lines(reserved_lines, prev_reserved, printed_lines),
{
    if prev_reserved == 0 && printed_lines > 0 {
        reserved_lines
    } else {
        0
    }
}

/// The step of the scroll-region manager: the action for the current terminal
/// height, REPL state and border, and the state it leaves behind.
pub open spec fn spec_scroll_step(
    last: Option<ScrollRegionState>,
    in_frame_logs: bool,
    enabled: bool,
    border_on: bool,
    height: u16,
    printed_lines: usize,
) -> (ScrollRegionAction, Option<ScrollRegionState>) {
    let reserved = spec_reserved_lines(enabled, border_on);
    let desired = ScrollRegionState { enabled, height, reserved_lines: reserved };
    if in_frame_logs || last == Some(desired) {
        (ScrollRegionAction::Keep, last)
    } else if reserved == 0 {
        if last is Some {
            (ScrollRegionAction::Reset { height }, Some(desired))
        } else {
            (ScrollRegionAction::Keep, Some(desired))
        }
    } else {
        let prev = match last {
            Some(t) => t.reserved_lines,
            None => 0,
        };
        let bottom = if height > reserved {
            (height - reserved) as u16
        } else {
            0
        };
        (
            ScrollRegionAction::SetRegion {
                bottom,
                height,
                reserved,
                newlines: spec_scroll_up_lines(reserved, prev, printed_lines),
            },
            Some(desired),
        )
    }
}

/// Ensure the terminal scroll region reserves the bottom prompt area so that
/// output scrolls above the prompt. Nothing is managed while logs are drawn
/// inside the frame.
pub fn manage_pretty_scroll_region(
    last: &mut Option<ScrollRegionState>,
    in_frame_logs: bool,
    enabled: bool,
    border_on: bool,
    height: u16,
    printed_lines: usize,
) -> (r: ScrollRegionAction)
    ensures
        (r, *final(last)) == spec_scroll_step(
            *old(last),
            in_frame_logs,
            enabled,
            border_on,
            height,
            printed_lines,
        ),
{
    if in_frame_logs {
        return ScrollRegionAction::Keep;
    }
    let reserved = reserved_lines(enabled, border_on);
    let desired = ScrollRegionState { enabled, height, reserved_lines: reserved };
    let unchanged = match last {
        Some(t) => *t == desired,
        None => false,
    };
    if unchanged {
        return ScrollRegionAction::Keep;
    }
    let prev_reserved = match last {
        Some(t) => t.reserved_lines,
        None => 0,
    };
    let action = if reserved == 0 {
        if last.is_some() {
            ScrollRegionAction::Reset { height }
        } else {
            ScrollRegionAction::Keep
        }
    } else {
        let bottom = if height > reserved {
            height - reserved
        } else {
            0
        };
        ScrollRegionAction::SetRegion {
            bottom,
            height,
            reserved,
            newlines: scroll_reserved_region_up(reserved, prev_reserved, printed_lines),
        }
    };
    *last = Some(desired);
    action
}

/// Once the manager has run, running it again with the same inputs writes nothing and keeps its state.
pub proof fn law_scroll_region_step_idempotent(
    last: Option<ScrollRegionState>,
    in_frame_logs: bool,
    enabled: bool,
    border_on: bool,
    height: u16,
    printed_lines: usize,
)
    ensures
        ({
            let next = spec_scroll_step(last, in_frame_logs, enabled, border_on, height, printed_lines).1;
            spec_scroll_step(next, in_frame_logs, enabled, border_on, height, printed_lines)
                == (ScrollRegionAction::Keep, next)
        }),
{
}

/// The content line inside the bar: inset by one cell on each side with a border.
pub open spec fn spec_inner_rect(area: Rect, border_on: bool) -> Rect {
    if border_on {
        Rect {
            x: (area.x + 1) as u16,
            y: (area.y + 1) as u16,
            width: (if area.width >= 2 {
                area.width - 2
            } else {
                0
            }) as u16,
            height: 1,
        }
    } else {
        Rect { x: area.x, y: area.y, width: area.width, height: 1 }
    }
}

/// Compute the inner rect (content line) given the outer area and border flag.
pub fn inner_rect(area: Rect, border_on: bool) -> (r: Rect)
    requires
        border_on ==> area.x < u16::MAX && area.y < u16::MAX,
    ensures
        r == spec_inner_rect(area, border_on),
{
    if border_on {
        Rect {
            x: area.x + 1,
            y: area.y + 1,
            width: if area.width >= 2 {
                area.width - 2
            } else {
                0
            },
            height: 1,
        }
    } else {
        Rect { x: area.x, y: area.y, width: area.width, height: 1 }
    }
}

/// The text part of the bar.
#[derive(Debug)]
pub struct BarText {
    /// Where the prompt symbol and the visible text go.
    pub left_area: Rect,
    /// The visible part of the buffer.
    pub visible: String,
    /// Where the hint goes, if it is shown.
    pub hint_area: Option<Rect>,
    /// Where the terminal cursor goes.
    pub cursor: (u16, u16),
}

/// Where each part of the prompt bar goes.
#[derive(Debug)]
pub struct BarLayout {
    /// The area of the border, when the bar has one and fits.
    pub block_area: Option<Rect>,
    /// The text line, when there is room for at least one column of text.
    pub text: Option<BarText>,
}

/// Saturating `u16` subtraction.
pub open spec fn sat_sub(a: u16, b: u16) -> u16 {
    if a > b {
        (a - b) as u16
    } else {
        0
    }
}

/// Geometry of the bar before the buffer is windowed: the bar, its inner line,
/// the width left for prompt and text, the prompt's width and the text width.
pub open spec fn bar_geometry(
    area: Rect,
    border_on: bool,
    hint_width: u16,
    prompt_width: u16,
) -> (Rect, Rect, u16, u16) {
    let height: u16 = if border_on {
        3
    } else {
        1
    };
    let bar = spec_bottom_bar_area(area, height);
    let inner = spec_inner_rect(bar, border_on);
    let left_width = sat_sub(inner.width, hint_width);
    (bar, inner, left_width, sat_sub(left_width, prompt_width))
}

/// Width of the hint text (zero without a hint).
pub open spec fn hint_cols(hint: Option<Seq<char>>) -> u16 {
    match hint {
        Some(h) => spec_display_width(h) as u16,
        None => 0,
    }
}

/// Computing the layout does not overflow or slice inside a character.
pub open spec fn bar_layout_defined(
    area: Rect,
    border_on: bool,
    hint: Option<Seq<char>>,
    symbol: Seq<char>,
    buffer: Seq<char>,
    cursor_pos: usize,
) -> bool {
    let height: u16 = if border_on {
        3
    } else {
        1
    };
    let prompt_width = spec_display_width(symbol) as u16;
    let (bar, inner, left_width, visible_width) = bar_geometry(
        area,
        border_on,
        hint_cols(hint),
        prompt_width,
    );
    area.height < height || {
        &&& bar_fits(area, height)
        &&& border_on ==> bar.x < u16::MAX && bar.y < u16::MAX
        &&& visible_width == 0 || {
            let cursor = clamp_to(cursor_pos, byte_len(buffer)) as usize;
            let left_area = Rect { x: inner.x, y: inner.y, width: left_width, height: 1 };
            &&& byte_len(buffer) <= usize::MAX
            &&& window_defined(buffer, cursor, visible_width)
            &&& cursor_position_defined(
                left_area,
                prompt_width,
                buffer,
                spec_buffer_window(buffer, cursor, visible_width).1 as usize,
                cursor,
            )
            &&& (hint_cols(hint) > 0 && left_width < inner.width) ==> inner.x + left_width <= u16::MAX
        }
    }
}

/// The layout of the bar.
pub open spec fn spec_bar_layout(
    area: Rect,
    border_on: bool,
    hint: Option<Seq<char>>,
    symbol: Seq<char>,
    buffer: Seq<char>,
    cursor_pos: usize,
) -> (Option<Rect>, Option<(Rect, Seq<char>, Option<Rect>, (u16, u16))>) {
    let height: u16 = if border_on {
        3
    } else {
        1
    };
    let prompt_width = spec_display_width(symbol) as u16;
    let (bar, inner, left_width, visible_width) = bar_geometry(
        area,
        border_on,
        hint_cols(hint),
        prompt_width,
    );
    if area.height < height {
        (None, None)
    } else {
        let block = if border_on {
            Some(bar)
        } else {
            None
        };
        if visible_width == 0 {
            (block, None)
        } else {
            let cursor = clamp_to(cursor_pos, byte_len(buffer)) as usize;
            let (visible, start) = spec_buffer_window(buffer, cursor, visible_width);
            let left_area = Rect { x: inner.x, y: inner.y, width: left_width, height: 1 };
            let hint_area = if hint_cols(hint) > 0 && left_width < inner.width {
                Some(
                    Rect {
                        x: (inner.x + left_width) as u16,
                        y: inner.y,
                        width: (inner.width - left_width) as u16,
                        height: 1,
                    },
                )
            } else {
                None
            };
            (
                block,
                Some(
                    (
                        left_area,
                        visible,
                        hint_area,
                        spec_cursor_position(left_area, prompt_width, buffer, start as usize, cursor),
                    ),
                ),
            )
        }
    }
}

/// The layout as plain values, for comparing with `spec_bar_layout`.
pub open spec fn layout_view(l: BarLayout) -> (
    Option<Rect>,
    Option<(Rect, Seq<char>, Option<Rect>, (u16, u16))>,
) {
    (
        l.block_area,
        match l.text {
            Some(t) => Some((t.left_area, t.visible@, t.hint_area, t.cursor)),
            None => None,
        },
    )
}

/// Lay out the prompt bar at the bottom of `area`: with a border the bar is three
/// rows high; the hint takes its width from the right; the prompt symbol and the
/// visible window of the buffer fill the rest; the cursor follows the text.
/// `None` where the computation would overflow or slice inside a character.
pub fn bar_layout(
    area: Rect,
    border_on: bool,
    hint: Option<&str>,
    symbol: &str,
    buffer: &str,
    cursor_pos: usize,
) -> (r: Option<BarLayout>)
    ensures
        r is Some <==> bar_layout_defined(
            area,
            border_on,
            match hint {
                Some(h) => Some(h@),
                None => None,
            },
            symbol@,
            buffer@,
            cursor_pos,
        ),
        r matches Some(l) ==> layout_view(l) == spec_bar_layout(
            area,
            border_on,
            match hint {
                Some(h) => Some(h@),
                None => None,
            },
            symbol@,
            buffer@,
            cursor_pos,
        ),
{
    let height: u16 = if border_on {
        3
    } else {
        1
    };
    if area.height < height {
        return Some(BarLayout { block_area: None, text: None });
    }
    if !(area.height == 0 || height == 0 || area.height < height) && area.height > u16::MAX
        - area.y {
        return None;
    }
    let bar = bottom_bar_area(area, height);
    let block_area = if border_on {
        Some(bar)
    } else {
        None
    };
    if border_on && (bar.x == u16::MAX || bar.y == u16::MAX) {
        return None;
    }
    let inner = inner_rect(bar, border_on);
    let hint_width: u16 = match hint {
        Some(h) => display_width_u16(h),
        None => 0,
    };
    let left_width = if inner.width > hint_width {
        inner.width - hint_width
    } else {
        0
    };
    let prompt_width = display_width_u16(symbol);
    let visible_width = if left_width > prompt_width {
        left_width - prompt_width
    } else {
        0
    };
    if visible_width == 0 {
        return Some(BarLayout { block_area, text: None });
    }
    let len = match checked_len(buffer) {
        Some(l) => l,
        None => {
            return None;
        },
    };
    let cursor = if cursor_pos < len {
        cursor_pos
    } else {
        len
    };
    let (visible, start) = match try_buffer_window(buffer, cursor, visible_width) {
        Some(w) => w,
        None => {
            return None;
        },
    };
    let left_area = Rect { x: inner.x, y: inner.y, width: left_width, height: 1 };
    let hint_area = if hint_width > 0 && left_width < inner.width {
        if left_width > u16::MAX - inner.x {
            return None;
        }
        Some(
            Rect {
                x: inner.x + left_width,
                y: inner.y,
                width: inner.width - left_width,
                height: 1,
            },
        )
    } else {
        None
    };
    let cursor_at = match try_cursor_position(left_area, prompt_width, buffer, start, cursor) {
        Some(p) => p,
        None => {
            return None;
        },
    };
    Some(
        BarLayout {
            block_area,
            text: Some(BarText { left_area, visible, hint_area, cursor: cursor_at }),
        },
    )
}

/// Alt-screen renderer: the prompt bar with the configuration's symbol, optional
/// border and hint.
pub struct AltScreenRenderer;

impl AltScreenRenderer {
    /// The layout of the prompt bar for this renderer.
    pub fn layout(&self, area: Rect, cfg: &ReplPromptConfig, repl: &Repl) -> (r: Option<BarLayout>)
        ensures
            r is Some <==> bar_layout_defined(
                area,
                cfg.block is Some,
                match cfg.hint {
                    Some(h) => Some(h.text@),
                    None => None,
                },
                match cfg.symbol {
                    Some(s) => s.text@,
                    None => Seq::empty(),
                },
                repl.buffer@,
                repl.cursor_pos,
            ),
            r matches Some(l) ==> layout_view(l) == spec_bar_layout(
                area,
                cfg.block is Some,
                match cfg.hint {
                    Some(h) => Some(h.text@),
                    None => None,
                },
                match cfg.symbol {
                    Some(s) => s.text@,
                    None => Seq::empty(),
                },
                repl.buffer@,
                repl.cursor_pos,
            ),
    {
        let symbol = match &cfg.symbol {
            Some(s) => s.text.clone(),
            None => String::new(),
        };
        let hint: Option<&str> = match &cfg.hint {
            Some(h) => Some(h.text.as_str()),
            None => None,
        };
        bar_layout(area, cfg.block.is_some(), hint, symbol.as_str(), repl.buffer.as_str(), repl.cursor_pos)
    }
}

} // verus!
