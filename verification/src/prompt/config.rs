//! Visual configuration of the prompt bar: symbol, optional border and hint.
use vstd::prelude::*;

verus! {

/// Terminal colors.
#[derive(Clone, Copy, Debug, PartialEq, Eq, Structural)]
pub enum Color {
    Reset,
    Black,
    Red,
    Green,
    Yellow,
    Blue,
    Magenta,
    Cyan,
    Gray,
    DarkGray,
    LightRed,
    LightGreen,
    LightYellow,
    LightBlue,
    LightMagenta,
    LightCyan,
    White,
    Rgb(u8, u8, u8),
    Indexed(u8),
}

/// Foreground and background colors of a piece of text (unset: inherit).
#[derive(Clone, Copy, Debug, PartialEq, Eq, Structural)]
pub struct Style {
    pub fg: Option<Color>,
    pub bg: Option<Color>,
}

impl Style {
    pub fn new() -> (s: Style)
        ensures
            s.fg is None,
            s.bg is None,
    {
        Style { fg: None, bg: None }
    }

    /// The same style with foreground color `c`.
    pub fn fg(self, c: Color) -> (s: Style)
        ensures
            s.fg == Some(c),
            s.bg == self.bg,
    {
        Style { fg: Some(c), bg: self.bg }
    }
}

/// A border drawn around the prompt bar, on the sides whose bits are set
/// (top 1, right 2, bottom 4, left 8).
#[derive(Clone, Copy, Debug, PartialEq, Eq, Structural)]
pub struct Block {
    pub borders: u8,
}

/// All four borders.
pub const ALL_BORDERS: u8 = 0x0F;

/// Prompt symbol displayed before the buffer.
#[derive(Clone, Debug)]
pub struct PromptSymbol {
    pub text: String,
    pub style: Style,
}

/// Right-aligned hint text.
#[derive(Clone, Debug)]
pub struct PromptHint {
    pub text: String,
    pub style: Style,
}

impl Default for PromptSymbol {
    fn default() -> (s: PromptSymbol)
        ensures
            s.text@ == seq!['>', ' '],
            s.style == (Style { fg: Some(Color::Yellow), bg: None }),
    {
        let text = String::from_str("> ");
        proof {
            reveal_strlit("> ");
            assert(text@ =~= seq!['>', ' ']);
        }
        PromptSymbol { text, style: Style::new().fg(Color::Yellow) }
    }
}

/// The text of the default hint.
pub open spec fn default_hint_text() -> Seq<char> {
    seq![
        'E',
        'n',
        't',
        'e',
        'r',
        ' ',
        't',
        'o',
        ' ',
        'r',
        'u',
        'n',
        ' ',
        '\u{2022}',
        ' ',
        'E',
        's',
        'c',
        ' ',
        't',
        'o',
        ' ',
        'c',
        'l',
        'e',
        'a',
        'r',
    ]
}

impl Default for PromptHint {
    fn default() -> (h: PromptHint)
        ensures
            h.text@ == default_hint_text(),
            h.style == (Style { fg: Some(Color::Gray), bg: None }),
    {
        let text = String::from_str("Enter to run \u{2022} Esc to clear");
        proof {
            reveal_strlit("Enter to run \u{2022} Esc to clear");
            assert(text@ =~= default_hint_text());
        }
        PromptHint { text, style: Style::new().fg(Color::Gray) }
    }
}

/// Visual configuration for the REPL prompt bar.
#[derive(Clone, Debug)]
pub struct ReplPromptConfig {
    /// Prompt symbol to display before the buffer.
    pub symbol: Option<PromptSymbol>,
    /// Draw a block that surrounds the prompt.
    pub block: Option<Block>,
    /// Show a right-aligned hint text.
    pub hint: Option<PromptHint>,
}

impl ReplPromptConfig {
    /// The default symbol, nothing else.
    pub open spec fn is_plain(&self) -> bool {
        &&& self.symbol matches Some(s) && s.text@ == seq!['>', ' '] && s.style == (Style {
            fg: Some(Color::Yellow),
            bg: None,
        })
        &&& self.block is None
        &&& self.hint is None
    }

    /// Simple preset: single-line bar, no border, no colors, no hint.
    pub fn minimal() -> (c: ReplPromptConfig)
        ensures
            c.is_plain(),
    {
        ReplPromptConfig { symbol: Some(PromptSymbol::default()), block: None, hint: None }
    }

    pub fn simple() -> (c: ReplPromptConfig)
        ensures
            c.is_plain(),
    {
        ReplPromptConfig { symbol: Some(PromptSymbol::default()), block: None, hint: None }
    }

    /// Pretty preset: border, colors, and right-aligned hint enabled.
    pub fn pretty() -> (c: ReplPromptConfig)
        ensures
            c.symbol matches Some(s) && s.text@ == seq!['>', ' '],
            c.block == Some(Block { borders: ALL_BORDERS }),
            c.hint matches Some(h) && h.text@ == default_hint_text() && h.style == (Style {
                fg: Some(Color::Gray),
                bg: None,
            }),
    {
        ReplPromptConfig {
            symbol: Some(PromptSymbol::default()),
            block: Some(Block { borders: ALL_BORDERS }),
            hint: Some(PromptHint::default()),
        }
    }
}

impl Default for ReplPromptConfig {
    fn default() -> (c: ReplPromptConfig)
        ensures
            c.is_plain(),
    {
        ReplPromptConfig { symbol: Some(PromptSymbol::default()), block: None, hint: None }
    }
}

} // verus!
