//! Single-line prompt that measures the prompt symbol and the buffer in display columns.
use crate::prompt::helpers::{bar_fits, spec_bottom_bar_area, Rect};
use crate::prompt::renderer::helpers::{
    bottom_bar_area, checked_len, clamp_to, cursor_position_defined, display_width_u16,
    spec_buffer_window, spec_cursor_position, spec_display_width, try_buffer_window,
    try_cursor_position, window_defined,
};
use crate::prompt::renderer::simple::LineLayout;
use crate::repl::Repl;
use crate::text::byte_len;
use vstd::prelude::*;

verus! {

/// Computing the line layout does not overflow or slice inside a character.
pub open spec fn display_line_defined(area: Rect, symbol: Seq<char>, buffer: Seq<char>, cursor_pos: usize) -> bool {
    let prompt_width = spec_display_width(symbol) as u16;
    let line = spec_bottom_bar_area(area, 1);
    area.height == 0 || {
        &&& bar_fits(area, 1)
        &&& line.width <= prompt_width || {
            let vis = (line.width - prompt_width) as u16;
            let cursor = clamp_to(cursor_pos, byte_len(buffer)) as usize;
            &&& byte_len(buffer) <= usize::MAX
            &&& window_defined(buffer, cursor, vis)
            &&& cursor_position_defined(line, prompt_width, buffer, spec_buffer_window(buffer, cursor, vis).1 as usize, cursor)
        }
    }
}

/// The line layout: nothing when the area has no rows or no room after the prompt.
pub open spec fn spec_display_line(area: Rect, symbol: Seq<char>, buffer: Seq<char>, cursor_pos: usize) -> Option<(Rect, Seq<char>, (u16, u16))> {
    let prompt_width = spec_display_width(symbol) as u16;
    let line = spec_bottom_bar_area(area, 1);
    if area.height == 0 || line.width <= prompt_width {
        None
    } else {
        let vis = (line.width - prompt_width) as u16;
        let cursor = clamp_to(cursor_pos, byte_len(buffer)) as usize;
        let (visible, start) = spec_buffer_window(buffer, cursor, vis);
        Some((line, visible, spec_cursor_position(line, prompt_width, buffer, start as usize, cursor)))
    }
}

/// Lay out the prompt line at the bottom of `area` with widths in display
/// columns. `None` where the computation would overflow or slice inside a
/// character; `Some(None)` when there is nothing to draw.
pub fn display_line_layout(area: Rect, symbol: &str, buffer: &str, cursor_pos: usize) -> (r: Option<Option<LineLayout>>)
    ensures
        r is Some <==> display_line_defined(area, symbol@, buffer@, cursor_pos),
        r matches Some(o) ==> match spec_display_line(area, symbol@, buffer@, cursor_pos) {
            None => o is None,
            Some((line, visible, cursor)) => o matches Some(l) && l.area == line && l.visible@ == visible && l.cursor == cursor,
        },
{
    if area.height == 0 {
        return Some(None);
    }
    if area.height > u16::MAX - area.y {
        return None;
    }
    let line = bottom_bar_area(area, 1);
    let prompt_width = display_width_u16(symbol);
    if line.width <= prompt_width {
        return Some(None);
    }
    let visible_width = line.width - prompt_width;
    let len = match checked_len(buffer) {
        Some(l) => l,
        None => {
            return None;
        },
    };
    let cursor = if cursor_pos < len { cursor_pos } else { len };
    let (visible, start) = match try_buffer_window(buffer, cursor, visible_width) {
        Some(w) => w,
        None => {
            return None;
        },
    };
    let at = match try_cursor_position(line, prompt_width, buffer, start, cursor) {
        Some(p) => p,
        None => {
            return None;
        },
    };
    Some(Some(LineLayout { area: line, visible, cursor: at }))
}

/// Minimal renderer: single line, no borders, no colors, no hints.
pub struct MinimalRenderer;

impl MinimalRenderer {
    /// The line layout for prompt `symbol` (no symbol: empty) and the REPL buffer.
    pub fn layout(&self, area: Rect, symbol: &str, repl: &Repl) -> (r: Option<Option<LineLayout>>)
        ensures
            r is Some <==> display_line_defined(area, symbol@, repl.buffer@, repl.cursor_pos),
            r matches Some(o) ==> match spec_display_line(area, symbol@, repl.buffer@, repl.cursor_pos) {
                None => o is None,
                Some((line, visible, cursor)) => o matches Some(l) && l.area == line && l.visible@ == visible && l.cursor == cursor,
            },
    {
        display_line_layout(area, symbol, repl.buffer.as_str(), repl.cursor_pos)
    }
}

} // verus!
