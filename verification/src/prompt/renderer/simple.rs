//! Single-line prompt that counts one column per byte of the prompt symbol and
//! one per character of the buffer.
use crate::prompt::helpers::{
    bottom_bar_area, buffer_window, cursor_fits, cursor_position, spec_bottom_bar_area,
    spec_cursor_position, window_start, window_text, Rect,
};
use crate::repl::Repl;
use crate::text::{byte_len, str_byte_len};
use vstd::prelude::*;

verus! {

/// Where the single prompt line goes.
#[derive(Debug)]
pub struct LineLayout {
    /// The bottom line of the area.
    pub area: Rect,
    /// The visible part of the buffer, drawn after the prompt symbol.
    pub visible: String,
    /// Where the terminal cursor goes.
    pub cursor: (u16, u16),
}

/// Computing the simple layout does not overflow.
pub open spec fn simple_layout_defined(area: Rect, symbol: Seq<char>, buffer: Seq<char>, cursor_pos: usize) -> bool {
    let prompt_width = byte_len(symbol) as u16;
    let line = spec_bottom_bar_area(area, 1);
    area.height == 0 || {
        &&& byte_len(symbol) <= usize::MAX
        &&& area.y + area.height <= u16::MAX
        &&& line.width <= prompt_width || {
            let vis = (line.width - prompt_width) as u16;
            let cursor = if cursor_pos <= byte_len(buffer) { cursor_pos } else { byte_len(buffer) as usize };
            &&& byte_len(buffer) <= usize::MAX
            &&& cursor_fits(line, prompt_width, window_start(buffer, cursor, vis) as usize, cursor)
        }
    }
}

/// The simple layout: nothing when the area has no rows or no room after the prompt.
pub open spec fn spec_simple_layout(area: Rect, symbol: Seq<char>, buffer: Seq<char>, cursor_pos: usize) -> Option<(Rect, Seq<char>, (u16, u16))> {
    let prompt_width = byte_len(symbol) as u16;
    let line = spec_bottom_bar_area(area, 1);
    if area.height == 0 || line.width <= prompt_width {
        None
    } else {
        let vis = (line.width - prompt_width) as u16;
        let cursor = if cursor_pos <= byte_len(buffer) { cursor_pos } else { byte_len(buffer) as usize };
        Some((line, window_text(buffer, cursor, vis), spec_cursor_position(line, prompt_width, window_start(buffer, cursor, vis) as usize, cursor)))
    }
}

/// Simple renderer: single line, no borders, no colors, no hints.
pub struct SimpleRenderer;

impl SimpleRenderer {
    /// The line layout for prompt `symbol` (no symbol: empty) and the REPL buffer.
    pub fn layout(&self, area: Rect, symbol: &str, repl: &Repl) -> (r: Option<LineLayout>)
        requires
            simple_layout_defined(area, symbol@, repl.buffer@, repl.cursor_pos),
        ensures
            match spec_simple_layout(area, symbol@, repl.buffer@, repl.cursor_pos) {
                None => r is None,
                Some((line, visible, cursor)) => r matches Some(l) && l.area == line && l.visible@ == visible && l.cursor == cursor,
            },
    {
        if area.height == 0 {
            return None;
        }
        let line = bottom_bar_area(area, 1);
        let prompt_width = str_byte_len(symbol) as u16;
        if line.width <= prompt_width {
            return None;
        }
        let visible_width = line.width - prompt_width;
        let len = str_byte_len(repl.buffer.as_str());
        let cursor = if repl.cursor_pos < len { repl.cursor_pos } else { len };
        let (visible, start) = buffer_window(repl.buffer.as_str(), cursor, visible_width);
        let at = cursor_position(line, prompt_width, start, cursor);
        Some(LineLayout { area: line, visible, cursor: at })
    }
}

} // verus!
