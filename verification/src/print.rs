//! Terminal output around the prompt: the scroll region that keeps the bottom
//! row for the prompt, the prompt line itself, and printing text above it.
use crate::repl::Repl;
use crate::text::{byte_len, concat, lines_of, split_lines, str_byte_len, views};
use vstd::prelude::*;

verus! {

/// What to write to keep the bottom row out of the scroll region.
#[derive(Debug, Clone, Copy, PartialEq, Eq, Structural)]
pub enum ScrollAction {
    /// Nothing to write.
    Keep,
    /// Set the scroll region to rows `1..=bottom` (`ESC[1;{bottom}r`).
    SetRegion { bottom: u16 },
    /// Reset the scroll region to the whole screen (`ESC[r`).
    Reset,
}

/// One step of the scroll-region manager for the REPL state and terminal height.
pub open spec fn spec_manage_scroll_region(last: Option<(bool, u16)>, enabled: bool, height: u16) -> (
    ScrollAction,
    Option<(bool, u16)>,
) {
    if last == Some((enabled, height)) {
        (ScrollAction::Keep, last)
    } else if enabled {
        (
            ScrollAction::SetRegion {
                bottom: if height > 0 {
                    (height - 1) as u16
                } else {
                    0
                },
            },
            Some((enabled, height)),
        )
    } else if last is Some {
        (ScrollAction::Reset, Some((enabled, height)))
    } else {
        (ScrollAction::Keep, Some((enabled, height)))
    }
}

/// Ensure the terminal scroll region reserves the bottom prompt row while the
/// REPL is enabled, and is reset once it is disabled; write only on changes.
pub fn manage_scroll_region(last: &mut Option<(bool, u16)>, enabled: bool, height: u16) -> (r:
    ScrollAction)
    ensures
        (r, *final(last)) == spec_manage_scroll_region(*old(last), enabled, height),
{
    let current = (enabled, height);
    let same = match last {
        Some((e, h)) => *e == enabled && *h == height,
        None => false,
    };
    if same {
        return ScrollAction::Keep;
    }
    let action = if enabled {
        ScrollAction::SetRegion {
            bottom: if height > 0 {
                height - 1
            } else {
                0
            },
        }
    } else if last.is_some() {
        ScrollAction::Reset
    } else {
        ScrollAction::Keep
    };
    *last = Some(current);
    action
}

/// Running the manager twice with the same state and height writes nothing the second time.
pub proof fn law_manage_scroll_region_idempotent(last: Option<(bool, u16)>, enabled: bool, height: u16)
    ensures
        ({
            let next = spec_manage_scroll_region(last, enabled, height).1;
            spec_manage_scroll_region(next, enabled, height) == (ScrollAction::Keep, next)
        }),
{
}

/// The manager always records the current (enabled, height). While the REPL
/// is enabled, any change of state or of height sets the region to end on the
/// row above the bottom one (row 0 on a terminal without rows); once it is
/// disabled after having run, the region is reset; it writes nothing only
/// when nothing changed, or when it has never run and the REPL is off.
pub proof fn law_scroll_region_follows_state(last: Option<(bool, u16)>, enabled: bool, height: u16)
    ensures
        ({
            let (action, next) = spec_manage_scroll_region(last, enabled, height);
            &&& next == Some((enabled, height))
            &&& enabled && last != Some((enabled, height)) ==> (action matches ScrollAction::SetRegion {
                bottom,
            } && bottom as int == if height > 0 {
                height - 1
            } else {
                0
            })
            &&& action is SetRegion ==> enabled
            &&& !enabled && last is Some && last != Some((enabled, height)) ==> action
                == ScrollAction::Reset
            &&& action == ScrollAction::Keep <==> (last == Some((enabled, height)) || (!enabled
                && last is None))
        }),
{
}

/// The prompt line to draw.
#[derive(Debug)]
pub struct PromptLine {
    /// The bottom row of the terminal.
    pub row: u16,
    /// The prompt symbol followed by the buffer.
    pub text: String,
    /// The cursor column: prompt bytes plus cursor bytes (truncated to `u16`).
    pub cursor_x: u16,
}

/// What rendering the prompt needs: the prompt's byte length plus the cursor fits in `usize`.
pub open spec fn render_prompt_defined(repl: &Repl) -> bool {
    byte_len(repl.prompt_symbol@) + repl.cursor_pos <= usize::MAX
}

/// System that renders the prompt line at the bottom of the terminal (`None`
/// when the REPL is disabled).
pub fn render_prompt(repl: &Repl, rows: u16) -> (r: Option<PromptLine>)
    requires
        repl.enabled ==> render_prompt_defined(repl),
    ensures
        !repl.enabled ==> r is None,
        repl.enabled ==> (r matches Some(l) && l.row == (if rows > 0 {
            rows - 1
        } else {
            0
        }) && l.text@ == repl.prompt_symbol@ + repl.buffer@ && l.cursor_x == (byte_len(
            repl.prompt_symbol@,
        ) + repl.cursor_pos) as u16),
{
    if !repl.enabled {
        return None;
    }
    let row = if rows > 0 {
        rows - 1
    } else {
        0
    };
    let text = concat(repl.prompt_symbol.as_str(), repl.buffer.as_str());
    let width = str_byte_len(repl.prompt_symbol.as_str());
    let cursor_x = (width + repl.cursor_pos) as u16;
    Some(PromptLine { row, text, cursor_x })
}

/// One terminal operation of printing above the prompt.
#[derive(Debug, Clone)]
pub enum PrintStep {
    /// Move the cursor to `(column, row)`.
    MoveTo(u16, u16),
    /// Move the cursor to a column of the current row.
    MoveToColumn(u16),
    /// Write text.
    Text(String),
    /// Write `\r\n`.
    LineBreak,
}

/// A print step with its text as characters.
pub enum StepView {
    MoveTo(u16, u16),
    MoveToColumn(u16),
    Text(Seq<char>),
    LineBreak,
}

pub open spec fn step_view(s: PrintStep) -> StepView {
    match s {
        PrintStep::MoveTo(c, r) => StepView::MoveTo(c, r),
        PrintStep::MoveToColumn(c) => StepView::MoveToColumn(c),
        PrintStep::Text(t) => StepView::Text(t@),
        PrintStep::LineBreak => StepView::LineBreak,
    }
}

/// How to start a line: go to column 0 of `row`, or to column 0 of the current row.
pub open spec fn line_start(row: Option<u16>) -> StepView {
    match row {
        Some(r) => StepView::MoveTo(0, r),
        None => StepView::MoveToColumn(0),
    }
}

/// Steps that print `lines`, each at the start of the target row and ended with `\r\n`.
pub open spec fn steps_for_lines(lines: Seq<Seq<char>>, row: Option<u16>) -> Seq<StepView>
    decreases lines.len(),
{
    if lines.len() == 0 {
        Seq::empty()
    } else {
        steps_for_lines(lines.drop_last(), row) + seq![
            line_start(row),
            StepView::Text(lines.last()),
            StepView::LineBreak,
        ]
    }
}

/// The whole plan: with a known terminal height the lines go to the last row of
/// the scroll region and the cursor returns to the prompt row; an empty text
/// prints one empty line.
pub open spec fn spec_print_plan(text: Seq<char>, rows: Option<u16>) -> Seq<StepView> {
    let target = match rows {
        Some(r) => Some(
            if r >= 2 {
                (r - 2) as u16
            } else {
                0u16
            },
        ),
        None => None,
    };
    let body = if text.len() == 0 {
        seq![line_start(target), StepView::LineBreak]
    } else {
        steps_for_lines(lines_of(text), target)
    };
    match rows {
        Some(r) => body.push(
            StepView::MoveTo(
                0,
                if r >= 1 {
                    (r - 1) as u16
                } else {
                    0
                },
            ),
        ),
        None => body,
    }
}

/// The terminal operations that print `formatted` above the prompt: each line at
/// the bottom of the scroll region with an explicit CRLF. `rows` is the terminal
/// height when it is known.
pub fn repl_print(formatted: &str, rows: Option<u16>) -> (r: Vec<PrintStep>)
    ensures
        r@.map_values(|s: PrintStep| step_view(s)) == spec_print_plan(formatted@, rows),
{
    let target: Option<u16> = match rows {
        Some(r) => Some(
            if r >= 2 {
                r - 2
            } else {
                0
            },
        ),
        None => None,
    };
    let mut steps: Vec<PrintStep> = Vec::new();
    if formatted.is_empty() {
        steps.push(start_step(target));
        steps.push(PrintStep::LineBreak);
        proof {
            assert(steps@.map_values(|s: PrintStep| step_view(s)) =~= seq![
                line_start(target),
                StepView::LineBreak,
            ]);
        }
    } else {
        let lines = split_lines(formatted);
        let mut i: usize = 0;
        proof {
            assert(steps@.map_values(|s: PrintStep| step_view(s)) =~= steps_for_lines(
                lines_of(formatted@).take(0),
                target,
            ));
        }
        while i < lines.len()
            invariant
                views(lines@) == lines_of(formatted@),
                i <= lines.len(),
                steps@.map_values(|s: PrintStep| step_view(s)) == steps_for_lines(
                    lines_of(formatted@).take(i as int),
                    target,
                ),
            decreases lines.len() - i,
        {
            let ghost before = steps@;
            steps.push(start_step(target));
            steps.push(PrintStep::Text(lines[i].clone()));
            steps.push(PrintStep::LineBreak);
            proof {
                let ls = lines_of(formatted@);
                assert(ls.take(i + 1).drop_last() =~= ls.take(i as int));
                assert(ls.take(i + 1).last() == lines@[i as int]@);
                assert(steps@.map_values(|s: PrintStep| step_view(s)) =~= before.map_values(
                    |s: PrintStep| step_view(s),
                ) + seq![line_start(target), StepView::Text(lines@[i as int]@), StepView::LineBreak]);
            }
            i = i + 1;
        }
        proof {
            assert(lines_of(formatted@).take(i as int) =~= lines_of(formatted@));
        }
    }
    match rows {
        Some(r) => {
            let ghost before = steps@;
            steps.push(
                PrintStep::MoveTo(
                    0,
                    if r >= 1 {
                        r - 1
                    } else {
                        0
                    },
                ),
            );
            proof {
                assert(steps@.map_values(|s: PrintStep| step_view(s)) =~= before.map_values(
                    |s: PrintStep| step_view(s),
                ).push(
                    StepView::MoveTo(
                        0,
                        if r >= 1 {
                            (r - 1) as u16
                        } else {
                            0
                        },
                    ),
                ));
            }
        },
        None => {},
    }
    steps
}

fn start_step(row: Option<u16>) -> (s: PrintStep)
    ensures
        step_view(s) == line_start(row),
{
    match row {
        Some(r) => PrintStep::MoveTo(0, r),
        None => PrintStep::MoveToColumn(0),
    }
}

} // verus!
