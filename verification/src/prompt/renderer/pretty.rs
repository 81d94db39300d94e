//! The pretty renderer: the bordered bar with a hint, configured by a prompt
//! symbol, a border flag and a hint text.
use crate::prompt::helpers::Rect;
use crate::prompt::renderer::alt_screen::{
    bar_layout, bar_layout_defined, layout_view, spec_bar_layout, BarLayout,
};
use crate::repl::Repl;
use vstd::prelude::*;

pub use crate::prompt::renderer::alt_screen::{inner_rect, ScrollRegionState};

verus! {

/// Pretty renderer strategy using the bar layout.
pub struct PrettyRenderer;

impl PrettyRenderer {
    /// The layout of the bar for the given symbol (no symbol: empty), border and hint.
    pub fn layout(
        &self,
        area: Rect,
        border_on: bool,
        hint: Option<&str>,
        symbol: &str,
        repl: &Repl,
    ) -> (r: Option<BarLayout>)
        ensures
            r is Some <==> bar_layout_defined(
                area,
                border_on,
                match hint {
                    Some(h) => Some(h@),
                    None => None,
                },
                symbol@,
                repl.buffer@,
                repl.cursor_pos,
            ),
            r matches Some(l) ==> layout_view(l) == spec_bar_layout(
                area,
                border_on,
                match hint {
                    Some(h) => Some(h@),
                    None => None,
                },
                symbol@,
                repl.buffer@,
                repl.cursor_pos,
            ),
    {
        bar_layout(area, border_on, hint, symbol, repl.buffer.as_str(), repl.cursor_pos)
    }
}

} // verus!
