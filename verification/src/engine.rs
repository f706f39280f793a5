//! The engine-neutral view of a terminal model that the renderer draws:
//! cells with logical colors and style flags, the cursor, and the contract
//! an engine offers.

use vstd::prelude::*;
use crate::terminal::TerminalSize;
use crate::text::push_char;

verus! {

/// A logical color for a rendered cell; the renderer resolves it against
/// the active theme.
#[derive(Debug, Clone, Copy, PartialEq, Eq)]
pub enum CellColor {
    DefaultFg,
    DefaultBg,
    /// Palette index: 0-15 the themed ANSI colors, 16-231 the 6x6x6 cube,
    /// 232-255 the grayscale ramp.
    Indexed(u8),
    /// True color.
    Rgb([u8; 3]),
}

/// Style flags for a rendered cell.
#[derive(Debug, Clone, Copy, PartialEq, Eq, Structural)]
pub struct RenderFlags {
    pub bold: bool,
    pub italic: bool,
    pub underline: bool,
    pub strikethrough: bool,
    pub dim: bool,
    pub inverse: bool,
    pub hidden: bool,
}

impl Default for RenderFlags {
    /// No style.
    fn default() -> (f: Self)
        ensures
            f == (RenderFlags {
                bold: false,
                italic: false,
                underline: false,
                strikethrough: false,
                dim: false,
                inverse: false,
                hidden: false,
            }),
    {
        RenderFlags {
            bold: false,
            italic: false,
            underline: false,
            strikethrough: false,
            dim: false,
            inverse: false,
            hidden: false,
        }
    }
}

/// One renderable cell of the visible grid; wide cells have width 2.
#[derive(Debug, Clone)]
pub struct RenderCell {
    pub row: usize,
    pub col: usize,
    /// Grapheme to draw; empty for a blank cell.
    pub text: String,
    pub fg: CellColor,
    pub bg: CellColor,
    pub flags: RenderFlags,
    /// Column span: 1, or 2 for wide cells.
    pub width: u8,
}

/// Cursor shape.
#[derive(Debug, Clone, Copy, PartialEq, Eq, Structural)]
pub enum EngineCursorShape {
    Block,
    Underline,
    Bar,
    Hidden,
}

/// Cursor render state in viewport coordinates.
#[derive(Debug, Clone, Copy, PartialEq, Eq, Structural)]
pub struct EngineCursor {
    pub row: usize,
    pub col: usize,
    /// False when the cursor is hidden or scrolled out of view.
    pub visible: bool,
    pub shape: EngineCursorShape,
}

/// The text a cell draws: its character and the zero-width marks on it,
/// or nothing for a plain space.
pub open spec fn cell_text_of(c: char, zerowidth: Seq<char>) -> Seq<char> {
    if c == ' ' && zerowidth.len() == 0 {
        Seq::empty()
    } else {
        seq![c] + zerowidth
    }
}

/// The text a cell draws.
pub fn cell_text(c: char, zerowidth: &[char]) -> (s: String)
    ensures
        s@ == cell_text_of(c, zerowidth@),
{
    let mut s = String::new();
    if c == ' ' && zerowidth.len() == 0 {
        return s;
    }
    push_char(&mut s, c);
    let mut i: usize = 0;
    while i < zerowidth.len()
        invariant
            i <= zerowidth@.len(),
            s@ == seq![c] + zerowidth@.take(i as int),
        decreases zerowidth@.len() - i,
    {
        push_char(&mut s, zerowidth[i]);
        i = i + 1;
        assert(s@ =~= seq![c] + zerowidth@.take(i as int));
    }
    assert(zerowidth@.take(zerowidth@.len() as int) =~= zerowidth@);
    s
}

/// What a terminal model offers the renderer and the features built on it.
pub trait TerminalEngine {
    /// Feed raw bytes read from the PTY.
    fn feed(&mut self, bytes: &[u8]);

    /// Resize the grid (in cells).
    fn resize(&mut self, size: TerminalSize);

    /// Current grid size (in cells).
    fn size(&self) -> TerminalSize;

    /// All visible cells at the current scroll position, row by row.
    fn render_cells(&self) -> Vec<RenderCell>;

    /// The visible rows as plain strings.
    fn rows_text(&self) -> Vec<String>;

    /// Scrollback and screen as plain strings, oldest first.
    fn all_text(&self) -> Vec<String>;

    /// Cursor render state.
    fn cursor(&self) -> EngineCursor;

    /// How many lines the view is scrolled up into history.
    fn display_offset(&self) -> usize;

    /// Number of lines in scrollback history.
    fn scrollback_len(&self) -> usize;

    /// Scroll the display by `delta` lines (positive is up).
    fn scroll_lines(&mut self, delta: i32);

    /// Jump back to the live bottom of the buffer.
    fn scroll_to_bottom(&mut self);

    /// Currently selected text, if any.
    fn selection_text(&self) -> Option<String>;

    /// Adjust the maximum scrollback (in lines).
    fn set_max_scrollback(&mut self, lines: usize);
}

} // verus!
