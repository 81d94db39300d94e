//! Layout helpers for the prompt bar, counting one column per character.
use crate::text::{byte_len, str_byte_len, string_from_range, to_chars};
use vstd::prelude::*;

verus! {

/// A rectangle of terminal cells.
#[derive(Clone, Copy, Debug, PartialEq, Eq, Structural, Default)]
pub struct Rect {
    pub x: u16,
    pub y: u16,
    pub width: u16,
    pub height: u16,
}

/// The bar of `height` rows at the bottom of `total`; an empty bar when it does not fit.
pub open spec fn spec_bottom_bar_area(total: Rect, height: u16) -> Rect {
    if total.height == 0 || height == 0 || total.height < height {
        Rect { x: total.x, y: total.y, width: total.width, height: 0 }
    } else {
        Rect {
            x: total.x,
            y: (total.y + total.height - height) as u16,
            width: total.width,
            height,
        }
    }
}

/// The bottom row of `total` is addressable (`y + height` fits in `u16`).
pub open spec fn bar_fits(total: Rect, height: u16) -> bool {
    (total.height == 0 || height == 0 || total.height < height) || total.y + total.height
        <= u16::MAX
}

/// Compute the bottom-aligned bar area with the given height inside the total frame area.
pub fn bottom_bar_area(total: Rect, height: u16) -> (r: Rect)
    requires
        bar_fits(total, height),
    ensures
        r == spec_bottom_bar_area(total, height),
{
    if total.height == 0 || height == 0 || total.height < height {
        return Rect { x: total.x, y: total.y, width: total.width, height: 0 };
    }
    Rect { x: total.x, y: total.y + total.height - height, width: total.width, height }
}

/// Start (a character index) of the visible window: the cursor, clamped to the
/// buffer's byte length, minus the width, and not below zero.
pub open spec fn window_start(buffer: Seq<char>, cursor: usize, visible_width: u16) -> int {
    let c = if cursor <= byte_len(buffer) {
        cursor as int
    } else {
        byte_len(buffer) as int
    };
    if c > visible_width {
        c - visible_width
    } else {
        0
    }
}

/// The visible characters: `visible_width` of them from the start, or fewer at the end.
pub open spec fn window_text(buffer: Seq<char>, cursor: usize, visible_width: u16) -> Seq<char> {
    let start = window_start(buffer, cursor, visible_width);
    if start >= buffer.len() {
        Seq::empty()
    } else if start + visible_width >= buffer.len() {
        buffer.skip(start)
    } else {
        buffer.subrange(start, start + visible_width)
    }
}

/// The window keeps the cursor in view and scrolls no further than needed:
/// with the cursor clamped to the buffer's length, the window starts at or
/// before it and reaches at least to it, and it starts at the beginning
/// unless the cursor sits exactly on its right edge. The text shown is the
/// buffer's characters from the window's start on, at most `visible_width`
/// of them, and as many as the buffer has up to that width.
pub proof fn law_window_keeps_cursor_visible(buffer: Seq<char>, cursor: usize, visible_width: u16)
    ensures
        ({
            let c = if cursor <= byte_len(buffer) {
                cursor as int
            } else {
                byte_len(buffer) as int
            };
            let start = window_start(buffer, cursor, visible_width);
            let text = window_text(buffer, cursor, visible_width);
            &&& 0 <= start <= c <= start + visible_width
            &&& start == 0 || c == start + visible_width
            &&& text.len() <= visible_width
            &&& start + text.len() <= buffer.len() ==> (forall|i: int|
                0 <= i < text.len() ==> #[trigger] text[i] == buffer[start + i])
            &&& start < buffer.len() ==> text.len() == if start + visible_width <= buffer.len() {
                visible_width as int
            } else {
                buffer.len() - start
            }
            &&& start >= buffer.len() ==> text.len() == 0
        }),
{
}

/// Compute a visible window of the input buffer such that the cursor remains visible.
/// Returns (visible_slice, start_index_of_slice).
pub fn buffer_window(buffer: &str, cursor: usize, visible_width: u16) -> (r: (String, usize))
    requires
        byte_len(buffer@) <= usize::MAX,
    ensures
        visible_width == 0 ==> r.0@ == Seq::<char>::empty() && r.1 == 0,
        visible_width > 0 ==> r.0@ == window_text(buffer@, cursor, visible_width) && r.1
            == window_start(buffer@, cursor, visible_width),
{
    if visible_width == 0 {
        return (String::new(), 0);
    }
    let len = str_byte_len(buffer);
    let cursor = if cursor < len {
        cursor
    } else {
        len
    };
    let vis = visible_width as usize;
    let start = if cursor > vis {
        cursor - vis
    } else {
        0
    };
    let chars = to_chars(buffer);
    let n = chars.len();
    let slice = if start >= n {
        String::new()
    } else if vis >= n - start {
        let s = string_from_range(&chars, start, n);
        proof {
            assert(chars@.subrange(start as int, n as int) =~= chars@.skip(start as int));
        }
        s
    } else {
        string_from_range(&chars, start, start + vis)
    };
    (slice, start)
}

/// Column of the cursor inside `left` (after the prompt), clamped to the last column.
pub open spec fn spec_cursor_position(
    left: Rect,
    prompt_width: u16,
    start: usize,
    cursor: usize,
) -> (u16, u16) {
    let col = (if cursor > start {
        cursor - start
    } else {
        0
    }) as u16;
    let unclamped = left.x + prompt_width + col;
    let max_x = left.x + (if left.width > 0 {
        left.width - 1
    } else {
        0
    });
    (
        (if unclamped < max_x {
            unclamped
        } else {
            max_x
        }) as u16,
        left.y,
    )
}

/// The column arithmetic stays within `u16`.
pub open spec fn cursor_fits(left: Rect, prompt_width: u16, start: usize, cursor: usize) -> bool {
    let col = (if cursor > start {
        cursor - start
    } else {
        0
    }) as u16;
    &&& left.x + prompt_width + col <= u16::MAX
    &&& left.x + (if left.width > 0 {
        left.width - 1
    } else {
        0
    }) <= u16::MAX
}

/// Compute clamped cursor position inside `left` area where `left` contains the prompt symbol
/// followed by the visible buffer slice.
pub fn cursor_position(left: Rect, prompt_width: u16, start: usize, cursor: usize) -> (r: (
    u16,
    u16,
))
    requires
        cursor_fits(left, prompt_width, start, cursor),
    ensures
        r == spec_cursor_position(left, prompt_width, start, cursor),
{
    let diff = if cursor > start {
        cursor - start
    } else {
        0
    };
    let cursor_col_in_buf = diff as u16;
    let unclamped_x = left.x + prompt_width + cursor_col_in_buf;
    let max_x = left.x + if left.width > 0 {
        left.width - 1
    } else {
        0
    };
    let x = if unclamped_x < max_x {
        unclamped_x
    } else {
        max_x
    };
    (x, left.y)
}

} // verus!
