//! Layout helpers that count display columns: grapheme clusters and their
//! widths come from ratatui (`Span::styled_graphemes`, `Span::width`).
use crate::prompt::helpers::{spec_bottom_bar_area, bar_fits, Rect};
use crate::repl::law_ascii_cursor_is_char_index;
use crate::text::{
    all_ascii, byte_len, byte_offset, char_index, char_index_of_byte, is_boundary,
    lemma_ascii_byte_len, lemma_byte_len_single, lemma_byte_offset_strict, str_byte_len,
    string_from_range, to_chars, views,
};
use vstd::prelude::*;

verus! {

/// The display width (terminal columns) that ratatui gives a string.
pub uninterp spec fn spec_display_width(s: Seq<char>) -> usize;

/// Calls `ratatui::text::Span::width` on a span holding `s` (the Unicode
/// display width of the string, `unicode-width`'s `str::width`). The contract
/// names the result; of printable ASCII it states that each character takes
/// one column.
#[verifier::external_body]
fn display_width(s: &str) -> (w: usize)
    ensures
        w == spec_display_width(s@),
        printable_ascii(s@) ==> w == s@.len(),
{
    ratatui::text::Span::raw(s).width()
}

/// The grapheme clusters that ratatui yields for a string.
pub uninterp spec fn spec_graphemes(s: Seq<char>) -> Seq<Seq<char>>;

/// Calls `ratatui::text::Span::styled_graphemes` on a span holding `s` and keeps
/// each symbol: the extended grapheme clusters of `s`, consecutive non-empty
/// pieces of it, with the pieces that are a lone `"\n"` left out. The contract
/// names the result and states that the pieces are non-empty and never a lone
/// newline, that they make up `s` when `s` has no newline, and that each
/// printable ASCII character is a cluster of its own.
#[verifier::external_body]
fn graphemes(s: &str) -> (g: Vec<String>)
    ensures
        views(g@) == spec_graphemes(s@),
        forall|i: int|
            0 <= i < g@.len() ==> (#[trigger] g@[i])@.len() > 0 && g@[i]@ != seq!['\n'],
        !s@.contains('\n') ==> views(g@).flatten() == s@,
        printable_ascii(s@) ==> views(g@) == singletons(s@),
{
    ratatui::text::Span::raw(s).styled_graphemes(ratatui::style::Style::default()).map(
        |g| g.symbol.to_string(),
    ).collect()
}

/// The grapheme symbols of `s`, as the window computation uses them.
fn cluster_symbols(s: &str) -> (g: Vec<String>)
    ensures
        views(g@) == spec_graphemes(s@),
        printable_ascii(s@) ==> views(g@) == singletons(s@),
{
    graphemes(s)
}

/// Every character is printable ASCII (`' '` to `'~'`).
pub open spec fn printable_ascii(s: Seq<char>) -> bool {
    forall|i: int| 0 <= i < s.len() ==> 0x20 <= (#[trigger] s[i] as u32) <= 0x7E
}

/// Each character of `s` as a string of its own.
pub open spec fn singletons(s: Seq<char>) -> Seq<Seq<char>> {
    s.map_values(|c: char| seq![c])
}

/// The window that `spec_buffer_window` gives for a printable ASCII buffer,
/// where each character is one byte and one column: the whole buffer when it
/// fits, else `visible_width` characters ending at the cursor's character (or
/// starting at the buffer's start), extended to the right while they fit.
pub open spec fn spec_ascii_window(buffer: Seq<char>, cursor: usize, visible_width: u16) -> (
    Seq<char>,
    int,
) {
    let n = buffer.len() as int;
    let vis = visible_width as int;
    let c = if cursor < n {
        cursor as int
    } else {
        n
    };
    if vis == 0 {
        (Seq::empty(), 0)
    } else if n <= vis {
        (buffer, 0)
    } else {
        let cur = if c < n {
            c
        } else {
            n - 1
        };
        let first = if cur + 1 > vis {
            cur + 1 - vis
        } else {
            0
        };
        let last = if first + vis - 1 < n - 1 {
            first + vis - 1
        } else {
            n - 1
        };
        (buffer.subrange(first, last + 1), first)
    }
}

/// Cells of one byte and one column each, the `i`-th starting at byte `i`.
pub open spec fn unit_cells(cells: Seq<GraphemeCell>) -> bool {
    forall|i: int|
        0 <= i < cells.len() ==> #[trigger] cells[i] == GraphemeCell {
            start: i as usize,
            len: 1,
            width: 1,
        }
}

proof fn lemma_unit_width_sum(cells: Seq<GraphemeCell>, a: int, b: int)
    requires
        unit_cells(cells),
        0 <= a <= b <= cells.len(),
    ensures
        width_sum(cells, a, b) == b - a,
    decreases b - a,
{
    if a < b {
        lemma_unit_width_sum(cells, a, b - 1);
    }
}

/// On unit cells the window around the cursor has a closed form.
proof fn lemma_unit_window(cells: Seq<GraphemeCell>, cursor: int, vis: int)
    requires
        unit_cells(cells),
        cells.len() <= usize::MAX,
        0 <= cursor <= cells.len(),
        1 <= vis < cells.len(),
    ensures
        ({
            let n = cells.len() as int;
            let cur = if cursor < n {
                cursor
            } else {
                n - 1
            };
            let first = if cur + 1 > vis {
                cur + 1 - vis
            } else {
                0
            };
            let last = if first + vis - 1 < n - 1 {
                first + vis - 1
            } else {
                n - 1
            };
            spec_grapheme_window(cells, cursor, vis) == Some((first, last))
        }),
{
    let n = cells.len() as int;
    assert forall|a: int, b: int| 0 <= a <= b <= n implies #[trigger] width_sum(cells, a, b) == b
        - a by {
        lemma_unit_width_sum(cells, a, b);
    }
    lemma_unit_width_sum(cells, 0, n);
    let cur = if cursor < n {
        cursor
    } else {
        n - 1
    };
    // the cursor's cell
    if cursor < n {
        assert(cells[cursor].start + cells[cursor].len == cursor + 1);
        assert(cursor_in(cells, cursor, cursor));
        assert forall|j: int| 0 <= j < cursor implies !#[trigger] cursor_in(cells, cursor, j) by {
            assert(cells[j].start + cells[j].len == j + 1);
        }
        let i = cursor_cell(cells, cursor);
        assert(0 <= i < n && cursor_in(cells, cursor, i));
        assert(cells[i].start + cells[i].len == i + 1);
        if i < cursor {
            assert(!cursor_in(cells, cursor, i));
        } else if i > cursor {
            assert(cursor_in(cells, cursor, cursor));
        }
        assert(cursor_cell(cells, cursor) == cur);
    } else {
        assert forall|i: int| 0 <= i < n implies !#[trigger] cursor_in(cells, cursor, i) by {
            assert(cells[i].start + cells[i].len == i + 1);
        }
        assert(cursor_cell(cells, cursor) == cur);
    }
    // the first cell
    let first = if cur + 1 > vis {
        cur + 1 - vis
    } else {
        0
    };
    assert(width_sum(cells, first, cur + 1) == cur + 1 - first);
    if first > 0 {
        assert(width_sum(cells, first - 1, cur + 1) == cur + 2 - first);
    }
    let t = window_first(cells, cur, vis);
    assert(0 <= t <= cur + 1 && width_sum(cells, t, cur + 1) <= vis && (t == 0 || width_sum(
        cells,
        t - 1,
        cur + 1,
    ) > vis));
    assert(width_sum(cells, t, cur + 1) == cur + 1 - t);
    if t > 0 {
        assert(width_sum(cells, t - 1, cur + 1) == cur + 2 - t);
    }
    assert(t == first);
    // the last cell
    let last = if first + vis - 1 < n - 1 {
        first + vis - 1
    } else {
        n - 1
    };
    assert(width_sum(cells, first, last + 1) == last + 1 - first);
    if last < n - 1 {
        assert(width_sum(cells, first, last + 2) == last + 2 - first);
    }
    let e = window_last(cells, first, cur, vis);
    assert(cur <= e <= n - 1 && width_sum(cells, first, e + 1) <= vis && (e == n - 1 || width_sum(
        cells,
        first,
        e + 2,
    ) > vis));
    assert(width_sum(cells, first, e + 1) == e + 1 - first);
    if e < n - 1 {
        assert(width_sum(cells, first, e + 2) == e + 2 - first);
    }
    assert(e == last);
}

proof fn lemma_printable_is_ascii(s: Seq<char>)
    requires
        printable_ascii(s),
    ensures
        all_ascii(s),
{
    assert forall|i: int| 0 <= i < s.len() implies (#[trigger] s[i] as u32) <= 0x7F by {
        assert(0x20 <= (s[i] as u32) <= 0x7E);
    }
}

proof fn lemma_singleton_prefix(s: Seq<char>, i: int)
    requires
        all_ascii(s),
        0 <= i <= s.len(),
    ensures
        prefix_bytes(singletons(s), i) == i,
    decreases i,
{
    if i > 0 {
        lemma_singleton_prefix(s, i - 1);
        lemma_byte_len_single(s[i - 1]);
        assert(singletons(s)[i - 1] == seq![s[i - 1]]);
    }
}

proof fn lemma_width_sum_ones(cells: Seq<GraphemeCell>, i: int)
    requires
        0 <= i <= cells.len(),
        forall|j: int| 0 <= j < i ==> (#[trigger] cells[j]).width == 1,
    ensures
        width_sum(cells, 0, i) == i,
    decreases i,
{
    if i > 0 {
        lemma_width_sum_ones(cells, i - 1);
    }
}

proof fn lemma_ascii_loop_step(buffer: Seq<char>, i: int)
    requires
        printable_ascii(buffer),
        0 <= i < buffer.len(),
        forall|j: int| 0 <= j < i ==> spec_display_width(#[trigger] singletons(buffer)[j]) == 1,
    ensures
        singletons(buffer)[i] == seq![buffer[i]],
        printable_ascii(singletons(buffer)[i]),
        byte_len(singletons(buffer)[i]) == 1,
        prefix_bytes(singletons(buffer), i) == i,
        width_sum(spec_cells(singletons(buffer)), 0, i) == i,
{
    let c = buffer[i];
    let g = singletons(buffer);
    lemma_printable_is_ascii(buffer);
    assert(g[i] == seq![c]);
    assert(0x20 <= (buffer[i] as u32) <= 0x7E);
    assert forall|k: int| 0 <= k < 1 implies 0x20 <= (#[trigger] seq![c][k] as u32) <= 0x7E by {
        assert(seq![c][k] == c);
    }
    lemma_byte_len_single(c);
    lemma_singleton_prefix(buffer, i);
    assert forall|j: int| 0 <= j < i implies (#[trigger] spec_cells(g)[j]).width == 1 by {
        assert(spec_cells(g)[j].width == spec_display_width(g[j]));
    }
    lemma_width_sum_ones(spec_cells(g), i);
}

/// On a printable ASCII buffer whose graphemes and widths are those of its
/// characters, the window is always defined and has the closed form.
proof fn lemma_ascii_buffer_window(buffer: Seq<char>, cursor: usize, visible_width: u16)
    requires
        printable_ascii(buffer),
        buffer.len() <= usize::MAX,
        spec_graphemes(buffer) == singletons(buffer),
        forall|j: int| 0 <= j < buffer.len() ==> spec_display_width(#[trigger] singletons(buffer)[j]) == 1,
    ensures
        window_defined(buffer, cursor, visible_width),
        spec_buffer_window(buffer, cursor, visible_width) == spec_ascii_window(
            buffer,
            cursor,
            visible_width,
        ),
{
    let n = buffer.len() as int;
    let g = singletons(buffer);
    lemma_printable_is_ascii(buffer);
    lemma_ascii_byte_len(buffer);
    let cells = spec_cells(g);
    assert forall|i: int| 0 <= i < cells.len() implies #[trigger] cells[i] == GraphemeCell {
        start: i as usize,
        len: 1,
        width: 1,
    } by {
        lemma_singleton_prefix(buffer, i);
        lemma_byte_len_single(buffer[i]);
        assert(g[i] == seq![buffer[i]]);
    }
    assert(unit_cells(cells));
    lemma_singleton_prefix(buffer, n);
    lemma_unit_width_sum(cells, 0, n);
    if visible_width > 0 && n > visible_width {
        let c = clamp_cursor(buffer, cursor);
        lemma_unit_window(cells, c, visible_width as int);
        let cur = if c < n {
            c
        } else {
            n - 1
        };
        let first = if cur + 1 > visible_width {
            cur + 1 - visible_width
        } else {
            0
        };
        let last = if first + visible_width - 1 < n - 1 {
            first + visible_width - 1
        } else {
            n - 1
        };
        assert(first <= last);
        law_ascii_cursor_is_char_index(buffer, first);
        law_ascii_cursor_is_char_index(buffer, last + 1);
        assert(window_bytes(cells, first, last) == (first, last + 1));
    }
}

/// One grapheme of the buffer: where it starts (bytes), its length (bytes) and its width (columns).
#[derive(Clone, Copy, Debug, PartialEq, Eq, Structural)]
pub struct GraphemeCell {
    pub start: usize,
    pub len: usize,
    pub width: usize,
}

/// Sum of the widths of `cells[a..b]`.
pub open spec fn width_sum(cells: Seq<GraphemeCell>, a: int, b: int) -> int
    decreases b - a,
{
    if a >= b {
        0
    } else {
        width_sum(cells, a, b - 1) + cells[b - 1].width
    }
}

/// Total width of all cells.
pub open spec fn total_width(cells: Seq<GraphemeCell>) -> int {
    width_sum(cells, 0, cells.len() as int)
}

/// The cursor (a byte offset) lies inside cell `i`.
pub open spec fn cursor_in(cells: Seq<GraphemeCell>, cursor: int, i: int) -> bool {
    cursor < cells[i].start + cells[i].len
}

/// The cell that holds the cursor: the first cell that ends after it, or the last cell.
pub open spec fn cursor_cell(cells: Seq<GraphemeCell>, cursor: int) -> int {
    if exists|i: int| 0 <= i < cells.len() && #[trigger] cursor_in(cells, cursor, i) {
        choose|i: int|
            0 <= i < cells.len() && #[trigger] cursor_in(cells, cursor, i) && forall|j: int|
                0 <= j < i ==> !cursor_in(cells, cursor, j)
    } else {
        cells.len() - 1
    }
}

/// First cell of the window: the leftmost `t` such that cells `t..=cur` fit in
/// `vis` columns (`cur + 1` when even the cursor's cell does not fit).
pub open spec fn window_first(cells: Seq<GraphemeCell>, cur: int, vis: int) -> int {
    choose|t: int|
        0 <= t <= cur + 1 && #[trigger] width_sum(cells, t, cur + 1) <= vis && (t == 0 || width_sum(
            cells,
            t - 1,
            cur + 1,
        ) > vis)
}

/// Last cell of the window: extend to the right from the cursor's cell while the
/// window still fits in `vis` columns.
pub open spec fn window_last(cells: Seq<GraphemeCell>, first: int, cur: int, vis: int) -> int {
    choose|e: int|
        cur <= e <= cells.len() - 1 && #[trigger] width_sum(cells, first, e + 1) <= vis && (e == cells.len()
            - 1 || width_sum(cells, first, e + 2) > vis)
}

/// `None` when all cells fit; otherwise the first and last cell of the window around the cursor.
pub open spec fn spec_grapheme_window(cells: Seq<GraphemeCell>, cursor: int, vis: int) -> Option<
    (int, int),
> {
    if total_width(cells) <= vis {
        None
    } else {
        let cur = cursor_cell(cells, cursor);
        let first = window_first(cells, cur, vis);
        Some((first, window_last(cells, first, cur, vis)))
    }
}

proof fn lemma_width_sum_split(cells: Seq<GraphemeCell>, a: int, m: int, b: int)
    requires
        a <= m <= b,
    ensures
        width_sum(cells, a, b) == width_sum(cells, a, m) + width_sum(cells, m, b),
    decreases b - m,
{
    if m < b {
        lemma_width_sum_split(cells, a, m, b - 1);
    }
}

proof fn lemma_width_sum_nonneg(cells: Seq<GraphemeCell>, a: int, b: int)
    ensures
        width_sum(cells, a, b) >= 0,
    decreases b - a,
{
    if a < b {
        lemma_width_sum_nonneg(cells, a, b - 1);
    }
}

proof fn lemma_width_sum_mono(cells: Seq<GraphemeCell>, a: int, a2: int, b: int)
    requires
        a <= a2 <= b,
    ensures
        width_sum(cells, a, b) >= width_sum(cells, a2, b),
{
    lemma_width_sum_split(cells, a, a2, b);
    lemma_width_sum_nonneg(cells, a, a2);
}

proof fn lemma_width_sum_le_total(cells: Seq<GraphemeCell>, a: int, b: int)
    requires
        0 <= a <= b <= cells.len(),
    ensures
        width_sum(cells, a, b) <= total_width(cells),
{
    lemma_width_sum_split(cells, 0, a, cells.len() as int);
    lemma_width_sum_split(cells, a, b, cells.len() as int);
    lemma_width_sum_nonneg(cells, 0, a);
    lemma_width_sum_nonneg(cells, b, cells.len() as int);
}

/// The window indices around the cursor when the cells do not all fit in `vis` columns.
pub fn grapheme_window(cells: &Vec<GraphemeCell>, cursor: usize, vis: usize) -> (r: Option<
    (usize, usize),
>)
    requires
        total_width(cells@) <= usize::MAX,
    ensures
        match r {
            None => spec_grapheme_window(cells@, cursor as int, vis as int) is None,
            Some((s, e)) => {
                &&& spec_grapheme_window(cells@, cursor as int, vis as int) == Some(
                    (s as int, e as int),
                )
                &&& e < cells.len() && s <= e + 1
                // the window fits in the visible columns
                &&& width_sum(cells@, s as int, e + 1) <= vis
                // and holds the cursor's cell whenever that cell fits at all
                &&& cells@[cursor_cell(cells@, cursor as int)].width <= vis ==> s <= cursor_cell(
                    cells@,
                    cursor as int,
                ) <= e
            },
        },
{
    let n = cells.len();
    let mut total: usize = 0;
    let mut k: usize = 0;
    while k < n
        invariant
            n == cells@.len(),
            k <= n,
            total == width_sum(cells@, 0, k as int),
            total_width(cells@) <= usize::MAX,
        decreases n - k,
    {
        proof {
            lemma_width_sum_le_total(cells@, 0, k + 1);
        }
        total = total + cells[k].width;
        k = k + 1;
    }
    if total <= vis {
        return None;
    }
    // Some cell has positive width, so there is at least one cell.
    proof {
        if n == 0 {
            assert(width_sum(cells@, 0, 0) == 0);
        }
    }
    // Find the cell that contains the cursor (or the last cell).
    let mut cur: usize = n - 1;
    let mut i: usize = 0;
    let mut found = false;
    while i < n
        invariant
            n == cells@.len(),
            n > 0,
            i <= n,
            !found ==> cur == n - 1,
            found ==> cur < n && cursor_in(cells@, cursor as int, cur as int) && forall|j: int|
                0 <= j < cur ==> !cursor_in(cells@, cursor as int, j),
            !found ==> forall|j: int| 0 <= j < i ==> !cursor_in(cells@, cursor as int, j),
        decreases n - i,
    {
        if !found {
            let end = cells[i].start as u128 + cells[i].len as u128;
            if (cursor as u128) < end {
                cur = i;
                found = true;
            }
        }
        i = i + 1;
    }
    proof {
        if found {
            assert(exists|j: int| 0 <= j < cells@.len() && #[trigger] cursor_in(cells@, cursor as int, j));
            let c = cursor_cell(cells@, cursor as int);
            if c < cur {
                assert(!cursor_in(cells@, cursor as int, c));
            } else if c > cur {
                assert(cursor_in(cells@, cursor as int, cur as int));
            }
        } else {
            assert(!exists|j: int| 0 <= j < cells@.len() && #[trigger] cursor_in(cells@, cursor as int, j));
        }
        assert(cursor_cell(cells@, cursor as int) == cur);
    }
    // Walk left from the cursor's cell while the cells still fit.
    let mut used: usize = 0;
    let mut start: usize = cur + 1;
    let mut j: usize = cur + 1;
    let mut stopped = false;
    while j > 0 && !stopped
        invariant
            n == cells@.len(),
            cur < n,
            j <= cur + 1,
            start <= cur + 1,
            !stopped ==> start == j,
            used == width_sum(cells@, start as int, cur + 1),
            used <= vis,
            stopped ==> start >= 1 && width_sum(cells@, start - 1, cur + 1) > vis,
            total_width(cells@) <= usize::MAX,
        decreases j + (if stopped { 0int } else { 1int }),
    {
        let w = cells[j - 1].width;
        proof {
            lemma_width_sum_le_total(cells@, (j - 1) as int, cur + 1);
            lemma_width_sum_split(cells@, (j - 1) as int, j as int, cur + 1);
            assert(width_sum(cells@, (j - 1) as int, j as int) == w + width_sum(
                cells@,
                (j - 1) as int,
                (j - 1) as int,
            ));
        }
        if used + w > vis {
            stopped = true;
        } else {
            used = used + w;
            start = j - 1;
            j = j - 1;
        }
    }
    proof {
        let t = start as int;
        assert(0 <= t <= cur + 1 && width_sum(cells@, t, cur + 1) <= vis && (t == 0 || width_sum(
            cells@,
            t - 1,
            cur + 1,
        ) > vis));
        let w = window_first(cells@, cur as int, vis as int);
        if w < t {
            lemma_width_sum_mono(cells@, w, t - 1, cur + 1);
        } else if t < w {
            lemma_width_sum_mono(cells@, t, w - 1, cur + 1);
        }
        assert(window_first(cells@, cur as int, vis as int) == t);
        if cells@[cur as int].width <= vis && t == cur + 1 {
            assert(width_sum(cells@, cur as int, cur + 1) == cells@[cur as int].width + width_sum(
                cells@,
                cur as int,
                cur as int,
            ));
        }
    }
    // Extend to the right while the window still fits.
    let mut last: usize = cur;
    let mut m: usize = cur + 1;
    let mut full = false;
    proof {
        lemma_width_sum_split(cells@, start as int, cur + 1, cur + 1);
    }
    while m < n && !full
        invariant
            n == cells@.len(),
            cur < n,
            start <= cur + 1,
            cur <= last < n,
            !full ==> m == last + 1,
            m <= n,
            used == width_sum(cells@, start as int, last + 1),
            used <= vis,
            full ==> last + 1 < n && width_sum(cells@, start as int, last + 2) > vis,
            total_width(cells@) <= usize::MAX,
        decreases n - m + (if full { 0int } else { 1int }),
    {
        let w = cells[m].width;
        proof {
            lemma_width_sum_le_total(cells@, start as int, m + 1);
            assert(width_sum(cells@, start as int, m + 1) == width_sum(cells@, start as int, m as int) + w);
        }
        if used + w > vis {
            full = true;
        } else {
            used = used + w;
            last = m;
            m = m + 1;
        }
    }
    proof {
        let e = last as int;
        let s = start as int;
        assert(cur <= e <= n - 1 && width_sum(cells@, s, e + 1) <= vis && (e == n - 1
            || width_sum(cells@, s, e + 2) > vis));
        let w = window_last(cells@, s, cur as int, vis as int);
        if w < e {
            lemma_width_sum_mono(cells@, s, s, e + 1);
            lemma_width_sum_split(cells@, s, w + 2, e + 1);
            lemma_width_sum_nonneg(cells@, w + 2, e + 1);
        } else if e < w {
            lemma_width_sum_split(cells@, s, e + 2, w + 1);
            lemma_width_sum_nonneg(cells@, e + 2, w + 1);
        }
        assert(window_last(cells@, s, cur as int, vis as int) == e);
    }
    Some((start, last))
}

/// Byte length of the first `i` graphemes.
pub open spec fn prefix_bytes(gs: Seq<Seq<char>>, i: int) -> int
    decreases i,
{
    if i <= 0 {
        0
    } else {
        prefix_bytes(gs, i - 1) + byte_len(gs[i - 1])
    }
}

/// The cells that the graphemes `gs` describe.
pub open spec fn spec_cells(gs: Seq<Seq<char>>) -> Seq<GraphemeCell> {
    Seq::new(
        gs.len(),
        |i: int|
            GraphemeCell {
                start: prefix_bytes(gs, i) as usize,
                len: byte_len(gs[i]) as usize,
                width: spec_display_width(gs[i]),
            },
    )
}

/// The cursor clamped to the buffer's byte length.
pub open spec fn clamp_cursor(buffer: Seq<char>, cursor: usize) -> int {
    if cursor <= byte_len(buffer) {
        cursor as int
    } else {
        byte_len(buffer) as int
    }
}

/// Byte range `[a, b)` of `buffer`, as characters.
pub open spec fn byte_range(buffer: Seq<char>, a: int, b: int) -> Seq<char> {
    buffer.subrange(char_index(buffer, a), char_index(buffer, b))
}

/// First byte and end byte of the window that `spec_grapheme_window` picks.
pub open spec fn window_bytes(cells: Seq<GraphemeCell>, s: int, e: int) -> (int, int) {
    (cells[s].start as int, cells[e].start + cells[e].len)
}

/// Computing the window does not overflow, the window's first cell exists, and
/// the window's bytes are a well-formed range of `buffer` (else slicing would panic).
pub open spec fn window_defined(buffer: Seq<char>, cursor: usize, visible_width: u16) -> bool {
    let gs = spec_graphemes(buffer);
    let cells = spec_cells(gs);
    visible_width == 0 || {
        &&& byte_len(buffer) <= usize::MAX
        &&& prefix_bytes(gs, gs.len() as int) <= usize::MAX
        &&& total_width(cells) <= usize::MAX
        &&& match spec_grapheme_window(
            cells,
            clamp_cursor(buffer, cursor),
            visible_width as int,
        ) {
            None => true,
            Some((s, e)) => s > e || {
                let (a, b) = window_bytes(cells, s, e);
                &&& s < cells.len()
                &&& a <= b <= byte_len(buffer)
                &&& is_boundary(buffer, a)
                &&& is_boundary(buffer, b)
            },
        }
    }
}

/// The visible slice and its starting byte.
pub open spec fn spec_buffer_window(buffer: Seq<char>, cursor: usize, visible_width: u16) -> (
    Seq<char>,
    int,
) {
    let cells = spec_cells(spec_graphemes(buffer));
    if visible_width == 0 {
        (Seq::empty(), 0)
    } else {
        match spec_grapheme_window(cells, clamp_cursor(buffer, cursor), visible_width as int) {
            None => (buffer, 0),
            // the cursor's grapheme is wider than the view and nothing after it
            // fits: an empty window just after that grapheme
            Some((s, e)) => if s > e {
                (Seq::empty(), cells[e].start + cells[e].len)
            } else {
                let (a, b) = window_bytes(cells, s, e);
                (byte_range(buffer, a, b), a)
            },
        }
    }
}

/// `buffer[a..b]` by byte offsets, or `None` when that slice would panic.
pub fn byte_slice(buffer: &str, a: usize, b: usize) -> (r: Option<String>)
    ensures
        r is Some <==> (a <= b && is_boundary(buffer@, a as int) && is_boundary(buffer@, b as int)),
        r matches Some(s) ==> s@ == byte_range(buffer@, a as int, b as int),
{
    let v = to_chars(buffer);
    let i = char_index_of_byte(&v, a);
    let j = char_index_of_byte(&v, b);
    match (i, j) {
        (Some(i), Some(j)) => {
            if a <= b {
                proof {
                    if j < i {
                        lemma_byte_offset_strict(v@, j as int, i as int);
                    }
                }
                Some(string_from_range(&v, i, j))
            } else {
                None
            }
        },
        _ => None,
    }
}

/// The window of the buffer to show so that the cursor stays visible within
/// `visible_width` columns, and its starting byte; `None` where computing it
/// would overflow or slice the buffer inside a character.
#[verifier::spinoff_prover]
#[verifier::rlimit(50)]
pub fn try_buffer_window(buffer: &str, cursor: usize, visible_width: u16) -> (r: Option<
    (String, usize),
>)
    ensures
        r is Some <==> window_defined(buffer@, cursor, visible_width),
        r matches Some(w) ==> (w.0@, w.1 as int) == spec_buffer_window(
            buffer@,
            cursor,
            visible_width,
        ),
        printable_ascii(buffer@) && buffer@.len() <= usize::MAX ==> (r matches Some(w) && (
        w.0@, w.1 as int) == spec_ascii_window(buffer@, cursor, visible_width)),
{
    if visible_width == 0 {
        return Some((String::new(), 0));
    }
    let len = match checked_len(buffer) {
        Some(l) => l,
        None => {
            proof {
                if printable_ascii(buffer@) && buffer@.len() <= usize::MAX {
                    lemma_printable_is_ascii(buffer@);
                    lemma_ascii_byte_len(buffer@);
                }
            }
            return None;
        },
    };
    let ghost ascii = printable_ascii(buffer@) && buffer@.len() <= usize::MAX;
    proof {
        if ascii {
            lemma_printable_is_ascii(buffer@);
            lemma_ascii_byte_len(buffer@);
        }
    }
    let vis_cols = visible_width as usize;
    let ghost cursor0 = cursor;
    let cursor = if cursor < len {
        cursor
    } else {
        len
    };
    let gs = cluster_symbols(buffer);
    let ghost g = views(gs@);
    let mut cells: Vec<GraphemeCell> = Vec::new();
    let mut byte_off: usize = 0;
    let mut total: usize = 0;
    let mut i: usize = 0;
    let mut overflow = false;
    while i < gs.len() && !overflow
        invariant
            g == spec_graphemes(buffer@),
            g == views(gs@),
            i <= gs.len(),
            !overflow ==> cells@ == spec_cells(g).take(i as int),
            !overflow ==> byte_off == prefix_bytes(g, i as int),
            !overflow ==> total == width_sum(spec_cells(g), 0, i as int),
            overflow ==> (prefix_bytes(g, g.len() as int) > usize::MAX || total_width(
                spec_cells(g),
            ) > usize::MAX),
            ascii == (printable_ascii(buffer@) && buffer@.len() <= usize::MAX),
            ascii ==> all_ascii(buffer@) && g == singletons(buffer@) && len == buffer@.len()
                && !overflow,
            ascii ==> forall|j: int|
                0 <= j < i ==> spec_display_width(#[trigger] singletons(buffer@)[j]) == 1,
        decreases gs.len() - i + (if overflow { 0int } else { 1int }),
    {
        let sym = gs[i].as_str();
        let w = display_width(sym);
        let l = checked_len(sym);
        proof {
            assert(g[i as int] == gs@[i as int]@);
            lemma_prefix_bytes_mono(g, i + 1, g.len() as int);
            lemma_width_sum_le_total(spec_cells(g), 0, i + 1);
            if ascii {
                lemma_ascii_loop_step(buffer@, i as int);
            }
        }
        match l {
            Some(l) => {
                if l > usize::MAX - byte_off || w > usize::MAX - total {
                    overflow = true;
                } else {
                    let cell = GraphemeCell { start: byte_off, len: l, width: w };
                    cells.push(cell);
                    byte_off = byte_off + l;
                    total = total + w;
                    proof {
                        assert(cells@ =~= spec_cells(g).take(i + 1));
                    }
                    i = i + 1;
                }
            },
            None => {
                proof {
                    lemma_prefix_bytes_mono(g, i + 1, g.len() as int);
                }
                overflow = true;
            },
        }
    }
    if overflow {
        return None;
    }
    proof {
        if ascii {
            lemma_ascii_buffer_window(buffer@, cursor0, visible_width);
        }
    }
    proof {
        assert(spec_cells(g).take(gs.len() as int) =~= spec_cells(g));
    }
    match grapheme_window(&cells, cursor, vis_cols) {
        None => {
            let whole = string_from_range(&to_chars(buffer), 0, buffer.unicode_len());
            proof {
                assert(buffer@.subrange(0, buffer@.len() as int) =~= buffer@);
            }
            Some((whole, 0))
        },
        Some((s, e)) => {
            if s > e {
                proof {
                    assert(cells@ == spec_cells(g));
                    assert(cells@[e as int] == spec_cells(g)[e as int]);
                    assert(byte_off == prefix_bytes(g, g.len() as int));
                    lemma_prefix_bytes_mono(g, e + 1, g.len() as int);
                    lemma_prefix_bytes_mono(g, e as int, e + 1);
                    lemma_prefix_bytes_mono(g, 0, e as int);
                    assert(prefix_bytes(g, e + 1) == prefix_bytes(g, e as int) + byte_len(g[e as int]));
                    assert(cells@[e as int].start == prefix_bytes(g, e as int));
                    assert(cells@[e as int].len == byte_len(g[e as int]));
                }
                return Some((String::new(), cells[e].start + cells[e].len));
            }
            if s >= cells.len() {
                return None;
            }
            let a = cells[s].start;
            let end = cells[e].start as u128 + cells[e].len as u128;
            if end > len as u128 {
                return None;
            }
            let b = end as usize;
            match byte_slice(buffer, a, b) {
                Some(slice) => Some((slice, a)),
                None => None,
            }
        },
    }
}

proof fn lemma_prefix_bytes_mono(gs: Seq<Seq<char>>, i: int, j: int)
    requires
        0 <= i <= j,
    ensures
        prefix_bytes(gs, i) <= prefix_bytes(gs, j),
    decreases j - i,
{
    if i < j {
        lemma_prefix_bytes_mono(gs, i, j - 1);
    }
}

/// `str::len`, or `None` when the byte length does not fit in `usize`.
pub fn checked_len(s: &str) -> (r: Option<usize>)
    ensures
        r matches Some(n) ==> n == byte_len(s@),
        r is None <==> byte_len(s@) > usize::MAX,
{
    let v = to_chars(s);
    let mut acc: usize = 0;
    let mut k: usize = 0;
    proof {
        assert(v@.take(0) =~= Seq::<char>::empty());
    }
    while k < v.len()
        invariant
            v@ == s@,
            k <= v.len(),
            acc == byte_offset(v@, k as int),
        decreases v.len() - k,
    {
        let w = crate::text::char_width_of(v[k]);
        proof {
            crate::text::lemma_byte_offset_step(v@, k as int);
        }
        if w > usize::MAX - acc {
            proof {
                if k + 1 < v.len() {
                    lemma_byte_offset_strict(v@, k + 1, v@.len() as int);
                }
                crate::text::lemma_byte_offset_full(v@);
            }
            return None;
        }
        acc = acc + w;
        k = k + 1;
    }
    proof {
        crate::text::lemma_byte_offset_full(v@);
    }
    Some(acc)
}

/// Compute a visible window (substring) of the input buffer such that the cursor
/// remains visible within the given display width (columns), accounting for
/// grapheme clusters and wide characters. Returns the slice and its starting byte.
pub fn buffer_window(buffer: &str, cursor: usize, visible_width: u16) -> (r: (String, usize))
    requires
        window_defined(buffer@, cursor, visible_width),
    ensures
        (r.0@, r.1 as int) == spec_buffer_window(buffer@, cursor, visible_width),
{
    match try_buffer_window(buffer, cursor, visible_width) {
        Some(w) => w,
        None => {
            proof {
                assert(false);
            }
            (String::new(), 0)
        },
    }
}

/// Compute the bottom-aligned bar area with the given height inside the total frame area.
pub fn bottom_bar_area(total: Rect, height: u16) -> (r: Rect)
    requires
        bar_fits(total, height),
    ensures
        r == spec_bottom_bar_area(total, height),
{
    crate::prompt::helpers::bottom_bar_area(total, height)
}

/// `x` clamped to `[0, n]`.
pub open spec fn clamp_to(x: usize, n: nat) -> int {
    if x <= n {
        x as int
    } else {
        n as int
    }
}

/// Display columns between the window start and the cursor (as `u16`, truncated like the cast).
pub open spec fn cursor_cols(buffer: Seq<char>, start: usize, cursor: usize) -> u16 {
    spec_display_width(
        byte_range(
            buffer,
            clamp_to(start, byte_len(buffer)),
            clamp_to(cursor, byte_len(buffer)),
        ),
    ) as u16
}

/// Slicing the buffer between window start and cursor is valid and the column
/// arithmetic stays within `u16`.
pub open spec fn cursor_position_defined(
    left: Rect,
    prompt_width: u16,
    buffer: Seq<char>,
    start: usize,
    cursor: usize,
) -> bool {
    let n = byte_len(buffer);
    let a = clamp_to(start, n);
    let b = clamp_to(cursor, n);
    &&& n <= usize::MAX
    &&& a <= b
    &&& is_boundary(buffer, a)
    &&& is_boundary(buffer, b)
    &&& left.x + prompt_width + cursor_cols(buffer, start, cursor) <= u16::MAX
    &&& left.x + (if left.width > 0 {
        left.width - 1
    } else {
        0
    }) <= u16::MAX
}

/// Column of the cursor: after the prompt, the display width of the visible text
/// before the cursor, clamped to the last column of `left`.
pub open spec fn spec_cursor_position(
    left: Rect,
    prompt_width: u16,
    buffer: Seq<char>,
    start: usize,
    cursor: usize,
) -> (u16, u16) {
    let unclamped = left.x + prompt_width + cursor_cols(buffer, start, cursor);
    let max_x = left.x + (if left.width > 0 {
        left.width - 1
    } else {
        0
    });
    (
        (if unclamped < max_x {
            unclamped
        } else {
            max_x
        }) as u16,
        left.y,
    )
}

/// Cursor position, or `None` where the computation would slice inside a
/// character or overflow.
pub fn try_cursor_position(
    left: Rect,
    prompt_width: u16,
    buffer: &str,
    start: usize,
    cursor: usize,
) -> (r: Option<(u16, u16)>)
    ensures
        r is Some <==> cursor_position_defined(left, prompt_width, buffer@, start, cursor),
        r matches Some(p) ==> p == spec_cursor_position(left, prompt_width, buffer@, start, cursor),
{
    let len = match checked_len(buffer) {
        Some(l) => l,
        None => {
            return None;
        },
    };
    let start = if start < len {
        start
    } else {
        len
    };
    let cursor = if cursor < len {
        cursor
    } else {
        len
    };
    let slice = match byte_slice(buffer, start, cursor) {
        Some(s) => s,
        None => {
            return None;
        },
    };
    let cols = display_width(slice.as_str()) as u16;
    let max_w = if left.width > 0 {
        left.width - 1
    } else {
        0
    };
    if prompt_width > u16::MAX - left.x || cols > u16::MAX - left.x - prompt_width || max_w
        > u16::MAX - left.x {
        return None;
    }
    let unclamped_x = left.x + prompt_width + cols;
    let max_x = left.x + max_w;
    let x = if unclamped_x < max_x {
        unclamped_x
    } else {
        max_x
    };
    Some((x, left.y))
}

/// Compute clamped cursor position inside `left` area where `left` contains the prompt symbol
/// followed by the visible buffer slice. Computes display columns using Unicode widths.
pub fn cursor_position(left: Rect, prompt_width: u16, buffer: &str, start: usize, cursor: usize) -> (r: (u16, u16))
    requires
        cursor_position_defined(left, prompt_width, buffer@, start, cursor),
    ensures
        r == spec_cursor_position(left, prompt_width, buffer@, start, cursor),
{
    match try_cursor_position(left, prompt_width, buffer, start, cursor) {
        Some(p) => p,
        None => {
            proof {
                assert(false);
            }
            (0, 0)
        },
    }
}

/// The display width of `s` as `u16` (truncated like the cast).
pub fn display_width_u16(s: &str) -> (w: u16)
    ensures
        w == spec_display_width(s@) as u16,
{
    display_width(s) as u16
}

} // verus!
