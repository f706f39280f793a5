//! The core terminal model that the escape-sequence parser drives: a grid of
//! styled cells with a cursor, scrollback, a title and pending events.
//! Printing, C0 controls, OSC titles, cursor movement, erasing and SGR
//! colors are handled here; recognising the sequences is the parser's job.

use vstd::prelude::*;
use crate::text::push_char;

verus! {

/// Terminal dimensions.
#[derive(Debug, Clone, Copy, PartialEq, Eq, Structural)]
pub struct TerminalSize {
    pub rows: usize,
    pub cols: usize,
}

impl Default for TerminalSize {
    /// 24 rows of 80 columns.
    fn default() -> (s: Self)
        ensures
            s == (TerminalSize { rows: 24, cols: 80 }),
    {
        TerminalSize { rows: 24, cols: 80 }
    }
}

/// Clipboard actions from the terminal.
#[derive(Debug, Clone)]
pub enum ClipboardAction {
    Copy(String),
    Paste,
}

/// Events emitted by the terminal.
#[derive(Debug, Clone)]
pub enum TerminalEvent {
    /// Terminal title changed
    TitleChanged(String),
    /// Bell/alert
    Bell,
    /// Clipboard operation
    Clipboard(ClipboardAction),
    /// Color scheme changed
    ColorChanged,
    /// Cursor position changed
    CursorMoved { row: usize, col: usize },
    /// Screen content changed
    Redraw,
}

/// What an event is, with its texts as character sequences.
pub enum EventView {
    TitleChanged(Seq<char>),
    Bell,
    Copy(Seq<char>),
    Paste,
    ColorChanged,
    CursorMoved(usize, usize),
    Redraw,
}

/// The view of an event.
pub open spec fn event_view(e: TerminalEvent) -> EventView {
    match e {
        TerminalEvent::TitleChanged(s) => EventView::TitleChanged(s@),
        TerminalEvent::Bell => EventView::Bell,
        TerminalEvent::Clipboard(ClipboardAction::Copy(s)) => EventView::Copy(s@),
        TerminalEvent::Clipboard(ClipboardAction::Paste) => EventView::Paste,
        TerminalEvent::ColorChanged => EventView::ColorChanged,
        TerminalEvent::CursorMoved { row, col } => EventView::CursorMoved(row, col),
        TerminalEvent::Redraw => EventView::Redraw,
    }
}

/// Default foreground color (warm white).
pub const DEFAULT_FG: [u8; 4] = [232, 219, 196, 255];

/// Default background color (dark brown).
pub const DEFAULT_BG: [u8; 4] = [30, 27, 22, 255];

/// Cell display attributes.
#[derive(Debug, Clone, Copy, PartialEq, Eq, Structural)]
pub struct CellAttributes {
    pub bold: bool,
    pub italic: bool,
    pub underline: bool,
    pub strikethrough: bool,
    pub dim: bool,
    pub inverse: bool,
    pub hidden: bool,
    pub blink: bool,
}

/// No attribute set.
pub open spec fn no_attributes() -> CellAttributes {
    CellAttributes {
        bold: false,
        italic: false,
        underline: false,
        strikethrough: false,
        dim: false,
        inverse: false,
        hidden: false,
        blink: false,
    }
}

impl Default for CellAttributes {
    fn default() -> (a: Self)
        ensures
            a == no_attributes(),
    {
        CellAttributes {
            bold: false,
            italic: false,
            underline: false,
            strikethrough: false,
            dim: false,
            inverse: false,
            hidden: false,
            blink: false,
        }
    }
}

/// A single cell of the grid.
#[derive(Debug, Clone)]
pub struct Cell {
    /// The character (may be multi-codepoint for emoji)
    pub content: String,
    /// Foreground color (RGBA)
    pub fg: [u8; 4],
    /// Background color (RGBA)
    pub bg: [u8; 4],
    /// Cell attributes
    pub attrs: CellAttributes,
}

/// What a cell shows.
pub struct CellView {
    pub content: Seq<char>,
    pub fg: [u8; 4],
    pub bg: [u8; 4],
    pub attrs: CellAttributes,
}

/// The view of a cell.
pub open spec fn cell_view(c: Cell) -> CellView {
    CellView { content: c.content@, fg: c.fg, bg: c.bg, attrs: c.attrs }
}

/// An empty cell in the default colors.
pub open spec fn blank_view() -> CellView {
    CellView { content: Seq::empty(), fg: DEFAULT_FG, bg: DEFAULT_BG, attrs: no_attributes() }
}

impl Default for Cell {
    fn default() -> (c: Self)
        ensures
            cell_view(c) == blank_view(),
    {
        Cell { content: String::new(), fg: DEFAULT_FG, bg: DEFAULT_BG, attrs: CellAttributes::default() }
    }
}

/// The views of a row of cells.
pub open spec fn row_view(r: Seq<Cell>) -> Seq<CellView> {
    Seq::new(r.len(), |j: int| cell_view(r[j]))
}

/// The views of rows of cells.
pub open spec fn rows_view(g: Seq<Vec<Cell>>) -> Seq<Seq<CellView>> {
    Seq::new(g.len(), |i: int| row_view(g[i]@))
}

/// A row of `n` blank cells.
pub open spec fn blank_row(n: nat) -> Seq<CellView> {
    Seq::new(n, |j: int| blank_view())
}

/// `row` with its cells from `from` up to `to` made blank.
pub open spec fn cleared(row: Seq<CellView>, from: int, to: int) -> Seq<CellView> {
    Seq::new(row.len(), |j: int| if from <= j < to { blank_view() } else { row[j] })
}

/// The whole state of the terminal.
pub struct StateView {
    pub grid: Seq<Seq<CellView>>,
    pub size: TerminalSize,
    /// (row, column)
    pub cursor: (usize, usize),
    pub title: Seq<char>,
    pub scrollback: Seq<Seq<CellView>>,
    pub max_scrollback: usize,
    pub events: Seq<EventView>,
    pub attrs: CellAttributes,
    pub fg: [u8; 4],
    pub bg: [u8; 4],
}

/// The largest number of rows or columns: moving the cursor by a parameter
/// must stay within `usize`.
pub const MAX_DIMENSION: usize = 0xffff_0000;

/// The grid has the terminal's size, the cursor is on a row (the first,
/// when there are none) and at most one past the last column, and the
/// scrollback is within its limit.
pub open spec fn state_wf(v: StateView) -> bool {
    &&& v.grid.len() == v.size.rows
    &&& forall|r: int| 0 <= r < v.grid.len() ==> (#[trigger] v.grid[r]).len() == v.size.cols
    &&& (v.size.rows == 0 ==> v.cursor.0 == 0)
    &&& (v.size.rows > 0 ==> v.cursor.0 < v.size.rows)
    &&& v.cursor.1 <= v.size.cols
    &&& v.scrollback.len() <= v.max_scrollback
    &&& v.size.rows <= MAX_DIMENSION
    &&& v.size.cols <= MAX_DIMENSION
}

/// The last `max` of `lines`.
pub open spec fn trimmed(lines: Seq<Seq<CellView>>, max: usize) -> Seq<Seq<CellView>> {
    if lines.len() > max {
        lines.skip(lines.len() - max)
    } else {
        lines
    }
}

/// The top row moves to the scrollback (keeping its last
/// `max_scrollback` rows) and a blank row comes in at the bottom.
pub open spec fn spec_scroll_up(v: StateView) -> StateView {
    if v.grid.len() == 0 {
        v
    } else {
        StateView {
            grid: v.grid.drop_first().push(blank_row(v.size.cols as nat)),
            scrollback: trimmed(v.scrollback.push(v.grid[0]), v.max_scrollback),
            ..v
        }
    }
}

/// To the start of the next row, scrolling at the bottom.
pub open spec fn spec_newline(v: StateView) -> StateView {
    if v.cursor.0 + 1 >= v.size.rows {
        spec_scroll_up(StateView { cursor: (v.cursor.0, 0), ..v })
    } else {
        StateView { cursor: ((v.cursor.0 + 1) as usize, 0), ..v }
    }
}

/// Writes `c` in the current colors and attributes at the cursor and moves
/// right; past the last column it first goes to the next row.
pub open spec fn spec_put_char(v: StateView, c: char) -> StateView {
    let v1 = if v.cursor.1 >= v.size.cols {
        spec_newline(v)
    } else {
        v
    };
    if v1.cursor.0 < v1.size.rows && v1.cursor.1 < v1.size.cols {
        let r = v1.cursor.0 as int;
        let col = v1.cursor.1 as int;
        StateView {
            grid: v1.grid.update(
                r,
                v1.grid[r].update(col, CellView { content: seq![c], fg: v1.fg, bg: v1.bg, attrs: v1.attrs }),
            ),
            cursor: (v1.cursor.0, (v1.cursor.1 + 1) as usize),
            ..v1
        }
    } else {
        v1
    }
}

/// A C0 control: backspace, tab (to the next multiple of 8, at most the
/// last column), line feed (LF, VT, FF), carriage return, bell.
pub open spec fn spec_execute(v: StateView, byte: u8) -> StateView {
    if byte == 0x08 {
        if v.cursor.1 > 0 {
            StateView { cursor: (v.cursor.0, (v.cursor.1 - 1) as usize), ..v }
        } else {
            v
        }
    } else if byte == 0x09 {
        let next = (v.cursor.1 / 8 + 1) * 8;
        StateView {
            cursor: (v.cursor.0, vstd::math::min(next, if v.size.cols == 0 {
                0
            } else {
                v.size.cols - 1
            }) as usize),
            ..v
        }
    } else if byte == 0x0a || byte == 0x0b || byte == 0x0c {
        spec_newline(v)
    } else if byte == 0x0d {
        StateView { cursor: (v.cursor.0, 0), ..v }
    } else if byte == 0x07 {
        StateView { events: v.events.push(EventView::Bell), ..v }
    } else {
        v
    }
}

/// An OSC sequence: 0 and 2 set the title to the UTF-8 text of the second
/// parameter, when it is valid, and announce it.
pub open spec fn spec_osc(v: StateView, params: Seq<Seq<u8>>) -> StateView {
    if params.len() >= 2 && (params[0] == seq![48u8] || params[0] == seq![50u8]) && vstd::utf8::valid_utf8(
        params[1],
    ) {
        let title = vstd::utf8::decode_utf8(params[1]);
        StateView { title, events: v.events.push(EventView::TitleChanged(title)), ..v }
    } else {
        v
    }
}

/// `params[idx]`, or `default` past the end.
pub open spec fn param_or(params: Seq<u16>, idx: int, default: u16) -> u16 {
    if 0 <= idx < params.len() {
        params[idx]
    } else {
        default
    }
}

/// `n - 1`, or 0 when `n` is 0.
pub open spec fn less_one(n: int) -> int {
    if n == 0 {
        0
    } else {
        n - 1
    }
}

/// The grid with the given rows cleared from `from` to `to` columns:
/// `before` rows fully, row `at` partially, the rest kept.
pub open spec fn erase_display(v: StateView, mode: u16) -> Seq<Seq<CellView>> {
    let cols = v.size.cols as int;
    let cr = v.cursor.0 as int;
    let cc = v.cursor.1 as int;
    if mode == 0 {
        Seq::new(
            v.grid.len(),
            |r: int|
                if r == cr {
                    cleared(v.grid[r], cc, cols)
                } else if r > cr {
                    cleared(v.grid[r], 0, cols)
                } else {
                    v.grid[r]
                },
        )
    } else if mode == 1 {
        Seq::new(
            v.grid.len(),
            |r: int|
                if r < cr {
                    cleared(v.grid[r], 0, cols)
                } else if r == cr {
                    cleared(v.grid[r], 0, cc + 1)
                } else {
                    v.grid[r]
                },
        )
    } else if mode == 2 || mode == 3 {
        Seq::new(v.grid.len(), |r: int| cleared(v.grid[r], 0, cols))
    } else {
        v.grid
    }
}

/// The grid with the cursor's row erased: from the cursor (mode 0), up to
/// it (1) or whole (2).
pub open spec fn erase_line(v: StateView, mode: u16) -> Seq<Seq<CellView>> {
    let cols = v.size.cols as int;
    let cr = v.cursor.0 as int;
    let cc = v.cursor.1 as int;
    if mode == 0 && cc < cols {
        v.grid.update(cr, cleared(v.grid[cr], cc, cols))
    } else if mode == 1 {
        v.grid.update(cr, cleared(v.grid[cr], 0, cc + 1))
    } else if mode == 2 && cols > 0 {
        v.grid.update(cr, cleared(v.grid[cr], 0, cols))
    } else {
        v.grid
    }
}

/// A CSI sequence, given the first value of each parameter: cursor up,
/// down, right, left and position (`H`, `f`), erase in display (`J`) and in
/// line (`K`), and SGR (`m`, resetting when given no parameter).
pub open spec fn spec_csi(v: StateView, params: Seq<u16>, c: char) -> StateView {
    let n = param_or(params, 0, 1) as int;
    let rows = v.size.rows as int;
    let cols = v.size.cols as int;
    if c == 'A' {
        StateView { cursor: (if v.cursor.0 >= n { (v.cursor.0 - n) as usize } else { 0 }, v.cursor.1), ..v }
    } else if c == 'B' {
        StateView { cursor: (vstd::math::min(v.cursor.0 + n, rows - 1) as usize, v.cursor.1), ..v }
    } else if c == 'C' {
        StateView { cursor: (v.cursor.0, vstd::math::min(v.cursor.1 + n, cols - 1) as usize), ..v }
    } else if c == 'D' {
        StateView { cursor: (v.cursor.0, if v.cursor.1 >= n { (v.cursor.1 - n) as usize } else { 0 }), ..v }
    } else if c == 'H' || c == 'f' {
        let row = less_one(param_or(params, 0, 1) as int);
        let col = less_one(param_or(params, 1, 1) as int);
        StateView {
            cursor: (vstd::math::min(row, rows - 1) as usize, vstd::math::min(col, cols - 1) as usize),
            ..v
        }
    } else if c == 'J' {
        StateView { grid: erase_display(v, param_or(params, 0, 0)), ..v }
    } else if c == 'K' {
        StateView { grid: erase_line(v, param_or(params, 0, 0)), ..v }
    } else if c == 'm' {
        let p = if params.len() == 0 {
            seq![0u16]
        } else {
            params
        };
        let s = sgr_from((v.attrs, v.fg, v.bg), p, 0);
        StateView { attrs: s.0, fg: s.1, bg: s.2, ..v }
    } else {
        v
    }
}

/// Whether a CSI sequence can be carried out: moving down or to a position
/// needs a row, moving right or to a position a column, and erasing needs
/// the cursor's row (and, up to the cursor, its column) to be in the grid.
pub open spec fn csi_ok(v: StateView, params: Seq<u16>, c: char) -> bool {
    let mode = param_or(params, 0, 0);
    let rows = v.size.rows;
    let cols = v.size.cols;
    let cr = v.cursor.0;
    let cc = v.cursor.1;
    &&& (c == 'B' || c == 'H' || c == 'f') ==> rows > 0
    &&& (c == 'C' || c == 'H' || c == 'f') ==> cols > 0
    &&& (c == 'J' && mode == 0 && cc < cols) ==> cr < rows
    &&& (c == 'J' && mode == 1) ==> cr < rows && cc < cols
    &&& (c == 'K' && mode == 0 && cc < cols) ==> cr < rows
    &&& (c == 'K' && mode == 1) ==> cr < rows && cc < cols
    &&& (c == 'K' && mode == 2 && cols > 0) ==> cr < rows
}

/// The color of ANSI palette entry `i` (0 to 15).
pub open spec fn ansi_color(i: int) -> [u8; 4] {
    if i == 0 {
        [30, 27, 22, 255]
    } else if i == 1 {
        [204, 87, 82, 255]
    } else if i == 2 {
        [146, 180, 114, 255]
    } else if i == 3 {
        [229, 168, 75, 255]
    } else if i == 4 {
        [119, 146, 179, 255]
    } else if i == 5 {
        [177, 126, 160, 255]
    } else if i == 6 {
        [135, 172, 175, 255]
    } else if i == 7 {
        [232, 219, 196, 255]
    } else if i == 8 {
        [100, 95, 88, 255]
    } else if i == 9 {
        [229, 127, 119, 255]
    } else if i == 10 {
        [182, 209, 152, 255]
    } else if i == 11 {
        [242, 202, 122, 255]
    } else if i == 12 {
        [160, 183, 212, 255]
    } else if i == 13 {
        [210, 166, 198, 255]
    } else if i == 14 {
        [171, 206, 208, 255]
    } else {
        [247, 241, 232, 255]
    }
}

/// A level of the color cube: 0, or 55 plus 40 per step.
pub open spec fn cube_level(v: int) -> u8 {
    if v == 0 {
        0
    } else {
        (55 + v * 40) as u8
    }
}

/// The color of entry `idx` of the 256-color palette: the 16 ANSI colors,
/// the 6x6x6 cube, then 24 grays.
pub open spec fn color_256(idx: u8) -> [u8; 4] {
    if idx < 16 {
        ansi_color(idx as int)
    } else if idx < 232 {
        let k = idx - 16;
        [cube_level((k / 36) % 6), cube_level((k / 6) % 6), cube_level(k % 6), 255]
    } else {
        let level = (8 + (idx - 232) * 10) as u8;
        [level, level, level, 255]
    }
}

/// Attributes, foreground and background.
pub type Pen = (CellAttributes, [u8; 4], [u8; 4]);

/// The pen after the SGR parameter at `i`, with the index of the last
/// parameter it used.
#[verifier::opaque]
pub open spec fn sgr_step(s: Pen, params: Seq<u16>, i: int) -> (Pen, int) {
    let p = params[i];
    let a = s.0;
    if p == 0 {
        ((no_attributes(), DEFAULT_FG, DEFAULT_BG), i)
    } else if p == 1 {
        ((CellAttributes { bold: true, ..a }, s.1, s.2), i)
    } else if p == 2 {
        ((CellAttributes { dim: true, ..a }, s.1, s.2), i)
    } else if p == 3 {
        ((CellAttributes { italic: true, ..a }, s.1, s.2), i)
    } else if p == 4 {
        ((CellAttributes { underline: true, ..a }, s.1, s.2), i)
    } else if p == 5 || p == 6 {
        ((CellAttributes { blink: true, ..a }, s.1, s.2), i)
    } else if p == 7 {
        ((CellAttributes { inverse: true, ..a }, s.1, s.2), i)
    } else if p == 8 {
        ((CellAttributes { hidden: true, ..a }, s.1, s.2), i)
    } else if p == 9 {
        ((CellAttributes { strikethrough: true, ..a }, s.1, s.2), i)
    } else if p == 21 || p == 22 {
        ((CellAttributes { bold: false, dim: false, ..a }, s.1, s.2), i)
    } else if p == 23 {
        ((CellAttributes { italic: false, ..a }, s.1, s.2), i)
    } else if p == 24 {
        ((CellAttributes { underline: false, ..a }, s.1, s.2), i)
    } else if p == 25 {
        ((CellAttributes { blink: false, ..a }, s.1, s.2), i)
    } else if p == 27 {
        ((CellAttributes { inverse: false, ..a }, s.1, s.2), i)
    } else if p == 28 {
        ((CellAttributes { hidden: false, ..a }, s.1, s.2), i)
    } else if p == 29 {
        ((CellAttributes { strikethrough: false, ..a }, s.1, s.2), i)
    } else if 30 <= p <= 37 {
        ((a, ansi_color(p - 30), s.2), i)
    } else if p == 39 {
        ((a, DEFAULT_FG, s.2), i)
    } else if 40 <= p <= 47 {
        ((a, s.1, ansi_color(p - 40)), i)
    } else if p == 49 {
        ((a, s.1, DEFAULT_BG), i)
    } else if 90 <= p <= 97 {
        ((a, ansi_color(p - 90 + 8), s.2), i)
    } else if 100 <= p <= 107 {
        ((a, s.1, ansi_color(p - 100 + 8)), i)
    } else if p == 38 || p == 48 {
        let c = if i + 2 < params.len() && params[i + 1] == 5 {
            Some((color_256(params[i + 2] as u8), i + 2))
        } else if i + 4 < params.len() && params[i + 1] == 2 {
            Some(([params[i + 2] as u8, params[i + 3] as u8, params[i + 4] as u8, 255], i + 4))
        } else {
            None
        };
        match c {
            Some((color, j)) => if p == 38 {
                ((a, color, s.2), j)
            } else {
                ((a, s.1, color), j)
            },
            None => (s, i),
        }
    } else {
        (s, i)
    }
}

/// An SGR parameter uses itself and maybe some that follow it.
pub proof fn lemma_sgr_step_index(s: Pen, params: Seq<u16>, i: int)
    requires
        0 <= i < params.len(),
    ensures
        i <= sgr_step(s, params, i).1 < params.len(),
{
    reveal(sgr_step);
}

/// The pen after the SGR parameters from `i` on.
pub open spec fn sgr_from(s: Pen, params: Seq<u16>, i: int) -> Pen
    decreases params.len() - i,
{
    if i < 0 || i >= params.len() {
        s
    } else {
        let (s2, j) = sgr_step(s, params, i);
        if j < i || j >= params.len() {
            s2
        } else {
            sgr_from(s2, params, j + 1)
        }
    }
}

/// The rows of `g` cut or padded with blank rows of `cols` cells to `n`.
pub open spec fn resized_grid(g: Seq<Seq<CellView>>, n: int, cols: int) -> Seq<Seq<CellView>> {
    let rows = if n <= g.len() {
        g.take(n)
    } else {
        g + Seq::new((n - g.len()) as nat, |i: int| blank_row(cols as nat))
    };
    Seq::new(rows.len(), |r: int| resized_row(rows[r], cols))
}

/// A row cut or padded with blank cells to `n`.
pub open spec fn resized_row(row: Seq<CellView>, n: int) -> Seq<CellView> {
    if n <= row.len() {
        row.take(n)
    } else {
        row + blank_row((n - row.len()) as nat)
    }
}

/// The state after a resize: rows added or removed at the bottom, each row
/// cut or padded, the cursor brought inside.
pub open spec fn spec_resize(v: StateView, size: TerminalSize) -> StateView {
    StateView {
        grid: resized_grid(v.grid, size.rows as int, size.cols as int),
        size,
        cursor: (
            vstd::math::min(v.cursor.0 as int, less_one(size.rows as int)) as usize,
            vstd::math::min(v.cursor.1 as int, less_one(size.cols as int)) as usize,
        ),
        ..v
    }
}

/// Calls `std::str::from_utf8` and copies the text out. Claimed, as std
/// documents: there is a text exactly when the bytes are valid UTF-8, and it
/// is the text they encode.
#[verifier::external_body]
fn utf8_text(bytes: &[u8]) -> (r: Option<String>)
    ensures
        r is Some <==> vstd::utf8::valid_utf8(bytes@),
        r matches Some(s) ==> s@ == vstd::utf8::decode_utf8(bytes@),
{
    match std::str::from_utf8(bytes) {
        Ok(s) => Some(s.to_string()),
        Err(_) => None,
    }
}

/// The color of ANSI palette entry `i`.
fn ansi_color_of(i: u16) -> (c: [u8; 4])
    requires
        i < 16,
    ensures
        c == ansi_color(i as int),
{
    match i {
        0 => [30, 27, 22, 255],
        1 => [204, 87, 82, 255],
        2 => [146, 180, 114, 255],
        3 => [229, 168, 75, 255],
        4 => [119, 146, 179, 255],
        5 => [177, 126, 160, 255],
        6 => [135, 172, 175, 255],
        7 => [232, 219, 196, 255],
        8 => [100, 95, 88, 255],
        9 => [229, 127, 119, 255],
        10 => [182, 209, 152, 255],
        11 => [242, 202, 122, 255],
        12 => [160, 183, 212, 255],
        13 => [210, 166, 198, 255],
        14 => [171, 206, 208, 255],
        _ => [247, 241, 232, 255],
    }
}

fn cube_level_of(v: u8) -> (l: u8)
    requires
        v < 6,
    ensures
        l == cube_level(v as int),
{
    if v == 0 {
        0
    } else {
        55 + v * 40
    }
}

/// The color of entry `idx` of the 256-color palette.
pub fn color_from_256(idx: u8) -> (c: [u8; 4])
    ensures
        c == color_256(idx),
{
    if idx < 16 {
        ansi_color_of(idx as u16)
    } else if idx < 232 {
        let k = idx - 16;
        [cube_level_of((k / 36) % 6), cube_level_of((k / 6) % 6), cube_level_of(k % 6), 255]
    } else {
        let level = 8 + (idx - 232) * 10;
        [level, level, level, 255]
    }
}

/// A row of `n` blank cells.
fn blank_cells(n: usize) -> (r: Vec<Cell>)
    ensures
        row_view(r@) == blank_row(n as nat),
{
    let mut r: Vec<Cell> = Vec::new();
    let mut i: usize = 0;
    while i < n
        invariant
            i <= n,
            r@.len() == i,
            row_view(r@) == blank_row(i as nat),
        decreases n - i,
    {
        let c = Cell::default();
        let ghost before = r@;
        r.push(c);
        i = i + 1;
        assert forall|j: int| 0 <= j < i implies cell_view(#[trigger] r@[j]) == blank_view() by {
            if j < i - 1 {
                assert(r@[j] == before[j]);
                assert(row_view(before)[j] == cell_view(before[j]));
            }
        }
        assert(row_view(r@) =~= blank_row(i as nat));
    }
    r
}

/// The terminal model.
pub struct TerminalState {
    grid: Vec<Vec<Cell>>,
    size: TerminalSize,
    cursor: (usize, usize),
    title: String,
    scrollback: Vec<Vec<Cell>>,
    max_scrollback: usize,
    pending_events: Vec<TerminalEvent>,
    current_attrs: CellAttributes,
    current_fg: [u8; 4],
    current_bg: [u8; 4],
}

/// A fresh terminal of `size`: blank, cursor home, no title, no
/// scrollback (at most 10000 lines), default pen.
pub open spec fn spec_new_state(size: TerminalSize) -> StateView {
    StateView {
        grid: Seq::new(size.rows as nat, |r: int| blank_row(size.cols as nat)),
        size,
        cursor: (0, 0),
        title: Seq::empty(),
        scrollback: Seq::empty(),
        max_scrollback: 10000,
        events: Seq::empty(),
        attrs: no_attributes(),
        fg: DEFAULT_FG,
        bg: DEFAULT_BG,
    }
}

proof fn lemma_rows_view_update(g: Seq<Vec<Cell>>, r: int, row: Vec<Cell>)
    requires
        0 <= r < g.len(),
    ensures
        rows_view(g.update(r, row)) == rows_view(g).update(r, row_view(row@)),
{
    assert(rows_view(g.update(r, row)) =~= rows_view(g).update(r, row_view(row@)));
}

proof fn lemma_rows_view_push(g: Seq<Vec<Cell>>, row: Vec<Cell>)
    ensures
        rows_view(g.push(row)) == rows_view(g).push(row_view(row@)),
{
    assert(rows_view(g.push(row)) =~= rows_view(g).push(row_view(row@)));
}

proof fn lemma_set_cell(g: Seq<Vec<Cell>>, g2: Seq<Vec<Cell>>, r: int, c: int, cell: Cell)
    requires
        0 <= r < g.len(),
        0 <= c < g[r]@.len(),
        g2.len() == g.len(),
        g2[r]@ == g[r]@.update(c, cell),
        forall|i: int| 0 <= i < g.len() && i != r ==> g2[i] == g[i],
    ensures
        rows_view(g2) == rows_view(g).update(r, rows_view(g)[r].update(c, cell_view(cell))),
{
    assert(row_view(g2[r]@) =~= row_view(g[r]@).update(c, cell_view(cell)));
    assert(rows_view(g2) =~= rows_view(g).update(r, rows_view(g)[r].update(c, cell_view(cell))));
}

impl TerminalState {
    /// A blank terminal of `size`.
    pub fn new(size: TerminalSize) -> (t: Self)
        requires
            size.rows <= MAX_DIMENSION,
            size.cols <= MAX_DIMENSION,
        ensures
            t@ == spec_new_state(size),
            state_wf(t@),
    {
        let mut grid: Vec<Vec<Cell>> = Vec::new();
        let mut i: usize = 0;
        while i < size.rows
            invariant
                i <= size.rows,
                grid@.len() == i,
                rows_view(grid@) == Seq::new(i as nat, |r: int| blank_row(size.cols as nat)),
            decreases size.rows - i,
        {
            let row = blank_cells(size.cols);
            let ghost before = grid@;
            grid.push(row);
            i = i + 1;
            assert forall|r: int| 0 <= r < i implies row_view((#[trigger] grid@[r])@) == blank_row(size.cols as nat) by {
                if r < i - 1 {
                    assert(grid@[r] == before[r]);
                    assert(rows_view(before)[r] == row_view(before[r]@));
                }
            }
            assert(rows_view(grid@) =~= Seq::new(i as nat, |r: int| blank_row(size.cols as nat)));
        }
        let t = TerminalState {
            grid,
            size,
            cursor: (0, 0),
            title: String::new(),
            scrollback: Vec::new(),
            max_scrollback: 10000,
            pending_events: Vec::new(),
            current_attrs: CellAttributes::default(),
            current_fg: DEFAULT_FG,
            current_bg: DEFAULT_BG,
        };
        assert(t@.scrollback =~= Seq::<Seq<CellView>>::empty());
        assert(t@.events =~= Seq::<EventView>::empty());
        t
    }

    /// Puts `cell` at row `r`, column `c`.
    fn set_cell(&mut self, r: usize, c: usize, cell: Cell)
        requires
            r < old(self)@.grid.len(),
            c < old(self)@.grid[r as int].len(),
        ensures
            final(self)@ == (StateView {
                grid: old(self)@.grid.update(r as int, old(self)@.grid[r as int].update(c as int, cell_view(cell))),
                ..old(self)@
            }),
            final(self).grid@.len() == old(self).grid@.len(),
            forall|i: int| 0 <= i < old(self).grid@.len() ==> (#[trigger] final(self).grid@[i])@.len() == old(
                self,
            ).grid@[i]@.len(),
    {
        let ghost g = self.grid@;
        assert(self@.grid[r as int] == row_view(g[r as int]@));
        self.grid[r].set(c, cell);
        proof {
            lemma_set_cell(g, self.grid@, r as int, c as int, cell);
        }
    }

    /// Blanks the cells of row `r` from `from` up to `to`.
    fn clear_cells(&mut self, r: usize, from: usize, to: usize)
        requires
            r < old(self)@.grid.len(),
            from <= to <= old(self)@.grid[r as int].len(),
        ensures
            final(self)@ == (StateView {
                grid: old(self)@.grid.update(r as int, cleared(old(self)@.grid[r as int], from as int, to as int)),
                ..old(self)@
            }),
            final(self).grid@.len() == old(self).grid@.len(),
            forall|i: int| 0 <= i < old(self).grid@.len() ==> (#[trigger] final(self).grid@[i])@.len() == old(
                self,
            ).grid@[i]@.len(),
    {
        let ghost v = self@;
        let mut j = from;
        assert(self@.grid[r as int] == row_view(self.grid@[r as int]@));
        assert(cleared(v.grid[r as int], from as int, from as int) =~= v.grid[r as int]);
        assert(v.grid.update(r as int, cleared(v.grid[r as int], from as int, from as int)) =~= v.grid);
        while j < to
            invariant
                from <= j <= to <= v.grid[r as int].len(),
                r < v.grid.len(),
                self.grid@.len() == old(self).grid@.len(),
                forall|i: int| 0 <= i < old(self).grid@.len() ==> (#[trigger] self.grid@[i])@.len() == old(
                    self,
                ).grid@[i]@.len(),
                v == old(self)@,
                self@ == (StateView {
                    grid: v.grid.update(r as int, cleared(v.grid[r as int], from as int, j as int)),
                    ..v
                }),
            decreases to - j,
        {
            let ghost before = self@;
            self.set_cell(r, j, Cell::default());
            j = j + 1;
            assert(cleared(v.grid[r as int], from as int, j as int) =~= cleared(
                v.grid[r as int],
                from as int,
                (j - 1) as int,
            ).update((j - 1) as int, blank_view()));
            assert(self@.grid =~= v.grid.update(r as int, cleared(v.grid[r as int], from as int, j as int)));
        }
    }
}

/// Drops the oldest lines until at most `max` are left.
fn trim_front(lines: &mut Vec<Vec<Cell>>, max: usize)
    ensures
        rows_view(final(lines)@) == trimmed(rows_view(old(lines)@), max),
{
    let ghost orig = lines@;
    while lines.len() > max
        invariant
            lines@.len() <= orig.len(),
            lines@ == orig.skip(orig.len() - lines@.len()),
            lines@.len() >= max || lines@.len() == orig.len(),
        decreases lines@.len(),
    {
        lines.remove(0);
        assert(lines@ =~= orig.skip(orig.len() - lines@.len()));
    }
    proof {
        let k = orig.len() - lines@.len();
        assert(rows_view(orig.skip(k)) =~= rows_view(orig).skip(k));
        if orig.len() <= max {
            assert(orig.skip(0) =~= orig);
        }
    }
}

/// Cuts or pads a row with blank cells to `n` cells.
fn resize_row(row: &mut Vec<Cell>, n: usize)
    ensures
        row_view(final(row)@) == resized_row(row_view(old(row)@), n as int),
        final(row)@.len() == n,
{
    let ghost orig = row@;
    if n <= row.len() {
        row.truncate(n);
        assert(row_view(row@) =~= row_view(orig).take(n as int));
    } else {
        while row.len() < n
            invariant
                orig.len() <= row@.len() <= n,
                row_view(row@) == row_view(orig) + blank_row((row@.len() - orig.len()) as nat),
            decreases n - row@.len(),
        {
            let c = Cell::default();
            let ghost before = row@;
            row.push(c);
            assert(row_view(row@) =~= row_view(before).push(blank_view()));
            assert(row_view(orig) + blank_row((row@.len() - orig.len()) as nat) =~= (row_view(orig) + blank_row(
                (before.len() - orig.len()) as nat,
            )).push(blank_view()));
        }
    }
}

/// The pen after the SGR parameter at `i`, with the index of the last
/// parameter used.
fn sgr_step_of(s: Pen, params: &[u16], i: usize) -> (r: (Pen, usize))
    requires
        i < params@.len(),
    ensures
        r.0 == sgr_step(s, params@, i as int).0,
        r.1 == sgr_step(s, params@, i as int).1,
{
    reveal(sgr_step);
    let p = params[i];
    let a = s.0;
    if p == 0 {
        ((CellAttributes::default(), DEFAULT_FG, DEFAULT_BG), i)
    } else if p == 1 {
        ((CellAttributes { bold: true, ..a }, s.1, s.2), i)
    } else if p == 2 {
        ((CellAttributes { dim: true, ..a }, s.1, s.2), i)
    } else if p == 3 {
        ((CellAttributes { italic: true, ..a }, s.1, s.2), i)
    } else if p == 4 {
        ((CellAttributes { underline: true, ..a }, s.1, s.2), i)
    } else if p == 5 || p == 6 {
        ((CellAttributes { blink: true, ..a }, s.1, s.2), i)
    } else if p == 7 {
        ((CellAttributes { inverse: true, ..a }, s.1, s.2), i)
    } else if p == 8 {
        ((CellAttributes { hidden: true, ..a }, s.1, s.2), i)
    } else if p == 9 {
        ((CellAttributes { strikethrough: true, ..a }, s.1, s.2), i)
    } else if p == 21 || p == 22 {
        ((CellAttributes { bold: false, dim: false, ..a }, s.1, s.2), i)
    } else if p == 23 {
        ((CellAttributes { italic: false, ..a }, s.1, s.2), i)
    } else if p == 24 {
        ((CellAttributes { underline: false, ..a }, s.1, s.2), i)
    } else if p == 25 {
        ((CellAttributes { blink: false, ..a }, s.1, s.2), i)
    } else if p == 27 {
        ((CellAttributes { inverse: false, ..a }, s.1, s.2), i)
    } else if p == 28 {
        ((CellAttributes { hidden: false, ..a }, s.1, s.2), i)
    } else if p == 29 {
        ((CellAttributes { strikethrough: false, ..a }, s.1, s.2), i)
    } else if 30 <= p && p <= 37 {
        ((a, ansi_color_of(p - 30), s.2), i)
    } else if p == 39 {
        ((a, DEFAULT_FG, s.2), i)
    } else if 40 <= p && p <= 47 {
        ((a, s.1, ansi_color_of(p - 40)), i)
    } else if p == 49 {
        ((a, s.1, DEFAULT_BG), i)
    } else if 90 <= p && p <= 97 {
        ((a, ansi_color_of(p - 90 + 8), s.2), i)
    } else if 100 <= p && p <= 107 {
        ((a, s.1, ansi_color_of(p - 100 + 8)), i)
    } else if p == 38 || p == 48 {
        let len = params.len();
        let c: Option<([u8; 4], usize)> = if len - i > 2 && params[i + 1] == 5 {
            Some((color_from_256(params[i + 2] as u8), i + 2))
        } else if len - i > 4 && params[i + 1] == 2 {
            Some(([params[i + 2] as u8, params[i + 3] as u8, params[i + 4] as u8, 255], i + 4))
        } else {
            None
        };
        match c {
            Some((color, j)) => if p == 38 {
                ((a, color, s.2), j)
            } else {
                ((a, s.1, color), j)
            },
            None => (s, i),
        }
    } else {
        (s, i)
    }
}

impl TerminalState {
    /// The top row goes to the scrollback and a blank row comes in.
    fn scroll_up(&mut self)
        requires
            state_wf(old(self)@),
        ensures
            final(self)@ == spec_scroll_up(old(self)@),
            state_wf(final(self)@),
    {
        if self.grid.len() > 0 {
            let ghost v = self@;
            let ghost g = self.grid@;
            let line = self.grid.remove(0);
            assert(rows_view(self.grid@) =~= v.grid.drop_first());
            let ghost sb = self.scrollback@;
            self.scrollback.push(line);
            assert(rows_view(self.scrollback@) =~= v.scrollback.push(v.grid[0]));
            trim_front(&mut self.scrollback, self.max_scrollback);
            let row = blank_cells(self.size.cols);
            let ghost g1 = self.grid@;
            self.grid.push(row);
            assert(rows_view(self.grid@) =~= rows_view(g1).push(blank_row(self.size.cols as nat)));
            assert(self@.grid =~= spec_scroll_up(v).grid);
        }
    }

    /// To the start of the next row, scrolling at the bottom.
    fn newline(&mut self)
        requires
            state_wf(old(self)@),
        ensures
            final(self)@ == spec_newline(old(self)@),
            state_wf(final(self)@),
    {
        self.cursor.1 = 0;
        if self.cursor.0 + 1 >= self.size.rows {
            self.scroll_up();
        } else {
            self.cursor.0 = self.cursor.0 + 1;
        }
    }

    /// Prints `c` at the cursor in the current pen and moves right.
    pub fn print(&mut self, c: char)
        requires
            state_wf(old(self)@),
        ensures
            final(self)@ == spec_put_char(old(self)@, c),
            state_wf(final(self)@),
    {
        if self.cursor.1 >= self.size.cols {
            self.newline();
        }
        if self.cursor.0 < self.size.rows && self.cursor.1 < self.size.cols {
            let mut content = String::new();
            push_char(&mut content, c);
            assert(content@ =~= seq![c]);
            let cell = Cell { content, fg: self.current_fg, bg: self.current_bg, attrs: self.current_attrs };
            let (r, col) = self.cursor;
            self.set_cell(r, col, cell);
            self.cursor.1 = col + 1;
            assert(forall|i: int| 0 <= i < self@.grid.len() ==> (#[trigger] self@.grid[i]).len() == self.grid@[i]@.len());
        }
    }

    /// Carries out a C0 control character.
    pub fn execute(&mut self, byte: u8)
        requires
            state_wf(old(self)@),
        ensures
            final(self)@ == spec_execute(old(self)@, byte),
            state_wf(final(self)@),
    {
        if byte == 0x08 {
            if self.cursor.1 > 0 {
                self.cursor.1 = self.cursor.1 - 1;
            }
        } else if byte == 0x09 {
            let next = (self.cursor.1 / 8 + 1) * 8;
            let last = if self.size.cols == 0 {
                0
            } else {
                self.size.cols - 1
            };
            self.cursor.1 = if next < last {
                next
            } else {
                last
            };
        } else if byte == 0x0a || byte == 0x0b || byte == 0x0c {
            self.newline();
        } else if byte == 0x0d {
            self.cursor.1 = 0;
        } else if byte == 0x07 {
            let ghost e = self.pending_events@;
            self.pending_events.push(TerminalEvent::Bell);
            assert(self@.events =~= e.map_values(|e: TerminalEvent| event_view(e)).push(EventView::Bell));
        }
    }

    /// Carries out an OSC sequence: 0 and 2 set the title.
    pub fn osc_dispatch(&mut self, params: &[Vec<u8>])
        ensures
            final(self)@ == spec_osc(old(self)@, params@.map_values(|p: Vec<u8>| p@)),
            state_wf(old(self)@) ==> state_wf(final(self)@),
    {
        let ghost ps = params@.map_values(|p: Vec<u8>| p@);
        if params.len() >= 2 {
            let first = &params[0];
            let kind = first.len() == 1 && (first[0] == 48 || first[0] == 50);
            assert(kind <==> (ps[0] == seq![48u8] || ps[0] == seq![50u8])) by {
                if first@.len() == 1 {
                    assert(first@ =~= seq![first@[0]]);
                }
            }
            if kind {
                match utf8_text(params[1].as_slice()) {
                    Some(title) => {
                        let event_title = title.clone();
                        let ghost e = self.pending_events@;
                        self.title = title;
                        self.pending_events.push(TerminalEvent::TitleChanged(event_title));
                        assert(self@.events =~= e.map_values(|e: TerminalEvent| event_view(e)).push(
                            EventView::TitleChanged(self.title@),
                        ));
                    },
                    None => {},
                }
            }
        }
    }

    /// Applies SGR parameters to the pen.
    fn apply_sgr(&mut self, params: &[u16])
        ensures
            final(self)@ == (StateView {
                attrs: sgr_from((old(self)@.attrs, old(self)@.fg, old(self)@.bg), params@, 0).0,
                fg: sgr_from((old(self)@.attrs, old(self)@.fg, old(self)@.bg), params@, 0).1,
                bg: sgr_from((old(self)@.attrs, old(self)@.fg, old(self)@.bg), params@, 0).2,
                ..old(self)@
            }),
    {
        let ghost target = sgr_from((self@.attrs, self@.fg, self@.bg), params@, 0);
        let mut i: usize = 0;
        while i < params.len()
            invariant
                i <= params@.len(),
                sgr_from((self.current_attrs, self.current_fg, self.current_bg), params@, i as int) == target,
                self.grid == old(self).grid,
                self.size == old(self).size,
                self.cursor == old(self).cursor,
                self.title == old(self).title,
                self.scrollback == old(self).scrollback,
                self.max_scrollback == old(self).max_scrollback,
                self.pending_events == old(self).pending_events,
            decreases params@.len() - i,
        {
            let ghost s0 = (self.current_attrs, self.current_fg, self.current_bg);
            proof {
                lemma_sgr_step_index(s0, params@, i as int);
            }
            let (pen, j) = sgr_step_of((self.current_attrs, self.current_fg, self.current_bg), params, i);
            self.current_attrs = pen.0;
            self.current_fg = pen.1;
            self.current_bg = pen.2;
            i = j + 1;
        }
    }

    /// Moves the cursor for a CSI sequence.
    fn csi_move(&mut self, params: &[u16], c: char)
        requires
            state_wf(old(self)@),
            csi_ok(old(self)@, params@, c),
            c == 'A' || c == 'B' || c == 'C' || c == 'D' || c == 'H' || c == 'f',
        ensures
            final(self)@ == spec_csi(old(self)@, params@, c),
            state_wf(final(self)@),
    {
        let n: usize = if params.len() > 0 {
            params[0] as usize
        } else {
            1
        };
        let rows = self.size.rows;
        let cols = self.size.cols;
        if c == 'A' {
            self.cursor.0 = if self.cursor.0 >= n {
                self.cursor.0 - n
            } else {
                0
            };
        } else if c == 'B' {
            let down = self.cursor.0 + n;
            self.cursor.0 = if down < rows - 1 {
                down
            } else {
                rows - 1
            };
        } else if c == 'C' {
            let right = self.cursor.1 + n;
            self.cursor.1 = if right < cols - 1 {
                right
            } else {
                cols - 1
            };
        } else if c == 'D' {
            self.cursor.1 = if self.cursor.1 >= n {
                self.cursor.1 - n
            } else {
                0
            };
        } else {
            let p0: u16 = if params.len() > 0 {
                params[0]
            } else {
                1
            };
            let p1: u16 = if params.len() > 1 {
                params[1]
            } else {
                1
            };
            let row: usize = if p0 == 0 {
                0
            } else {
                (p0 - 1) as usize
            };
            let col: usize = if p1 == 0 {
                0
            } else {
                (p1 - 1) as usize
            };
            self.cursor = (
                if row < rows - 1 {
                    row
                } else {
                    rows - 1
                },
                if col < cols - 1 {
                    col
                } else {
                    cols - 1
                },
            );
        }
    }

    /// Carries out a CSI sequence, given the first value of each parameter.
    pub fn csi_dispatch(&mut self, params: &[u16], c: char)
        requires
            state_wf(old(self)@),
            csi_ok(old(self)@, params@, c),
        ensures
            final(self)@ == spec_csi(old(self)@, params@, c),
            state_wf(final(self)@),
    {
        let mode: u16 = if params.len() > 0 {
            params[0]
        } else {
            0
        };
        if c == 'A' || c == 'B' || c == 'C' || c == 'D' || c == 'H' || c == 'f' {
            self.csi_move(params, c);
        } else if c == 'J' {
            self.erase_display(mode);
        } else if c == 'K' {
            self.erase_line(mode);
        } else if c == 'm' {
            if params.len() == 0 {
                let reset: [u16; 1] = [0];
                assert(reset@ =~= seq![0u16]);
                self.apply_sgr(&reset);
            } else {
                self.apply_sgr(params);
            }
        }
    }

    /// Erase in display.
    fn erase_display(&mut self, mode: u16)
        requires
            state_wf(old(self)@),
            mode == 0 && old(self)@.cursor.1 < old(self)@.size.cols ==> old(self)@.cursor.0 < old(self)@.size.rows,
            mode == 1 ==> old(self)@.cursor.0 < old(self)@.size.rows && old(self)@.cursor.1 < old(self)@.size.cols,
        ensures
            final(self)@ == (StateView { grid: erase_display(old(self)@, mode), ..old(self)@ }),
            state_wf(final(self)@),
    {
        let ghost v = self@;
        let rows = self.size.rows;
        let cols = self.size.cols;
        let (cr, cc) = self.cursor;
        if mode == 0 {
            if cc < cols {
                self.clear_cells(cr, cc, cols);
            }
            let ghost g0 = self@.grid;
            let mut r = cr + 1;
            while r < rows
                invariant
                    cr + 1 <= r || rows == 0,
                    r <= rows || rows == 0,
                    rows == v.size.rows && cols == v.size.cols && cr == v.cursor.0 && cc == v.cursor.1,
                    state_wf(self@),
                    self@ == (StateView { grid: self@.grid, ..v }),
                    self@.grid == Seq::new(
                        rows as nat,
                        |i: int|
                            if i == cr {
                                if cc < cols { cleared(v.grid[i], cc as int, cols as int) } else { v.grid[i] }
                            } else if cr < i < r {
                                cleared(v.grid[i], 0, cols as int)
                            } else {
                                v.grid[i]
                            },
                    ),
                decreases rows - r,
            {
                self.clear_cells(r, 0, cols);
                r = r + 1;
            }
            assert forall|i: int| 0 <= i < rows && i == cr && cc >= cols implies v.grid[i] == cleared(v.grid[i], cc as int, cols as int) by {
                assert(v.grid[i] =~= cleared(v.grid[i], cc as int, cols as int));
            }
            assert(self@.grid =~= erase_display(v, mode));
        } else if mode == 1 {
            let mut r: usize = 0;
            while r < cr
                invariant
                    r <= cr < rows,
                    rows == v.size.rows && cols == v.size.cols && cr == v.cursor.0 && cc == v.cursor.1,
                    state_wf(self@),
                    self@ == (StateView { grid: self@.grid, ..v }),
                    self@.grid == Seq::new(
                        rows as nat,
                        |i: int| if i < r { cleared(v.grid[i], 0, cols as int) } else { v.grid[i] },
                    ),
                decreases cr - r,
            {
                self.clear_cells(r, 0, cols);
                r = r + 1;
            }
            self.clear_cells(cr, 0, cc + 1);
            assert(self@.grid =~= erase_display(v, mode));
        } else if mode == 2 || mode == 3 {
            let mut r: usize = 0;
            while r < rows
                invariant
                    r <= rows,
                    rows == v.size.rows && cols == v.size.cols,
                    state_wf(self@),
                    self@ == (StateView { grid: self@.grid, ..v }),
                    self@.grid == Seq::new(
                        rows as nat,
                        |i: int| if i < r { cleared(v.grid[i], 0, cols as int) } else { v.grid[i] },
                    ),
                decreases rows - r,
            {
                self.clear_cells(r, 0, cols);
                r = r + 1;
            }
            assert(self@.grid =~= erase_display(v, mode));
        } else {
            assert(self@.grid =~= erase_display(v, mode));
        }
    }

    /// Erase in line.
    fn erase_line(&mut self, mode: u16)
        requires
            state_wf(old(self)@),
            mode == 0 && old(self)@.cursor.1 < old(self)@.size.cols ==> old(self)@.cursor.0 < old(self)@.size.rows,
            mode == 1 ==> old(self)@.cursor.0 < old(self)@.size.rows && old(self)@.cursor.1 < old(self)@.size.cols,
            mode == 2 && old(self)@.size.cols > 0 ==> old(self)@.cursor.0 < old(self)@.size.rows,
        ensures
            final(self)@ == (StateView { grid: erase_line(old(self)@, mode), ..old(self)@ }),
            state_wf(final(self)@),
    {
        let cols = self.size.cols;
        let (cr, cc) = self.cursor;
        if mode == 0 {
            if cc < cols {
                self.clear_cells(cr, cc, cols);
            }
        } else if mode == 1 {
            self.clear_cells(cr, 0, cc + 1);
        } else if mode == 2 {
            if cols > 0 {
                self.clear_cells(cr, 0, cols);
            }
        }
    }
}

impl TerminalState {
    /// Whether a CSI sequence can be carried out here (see `csi_ok`).
    pub fn can_csi(&self, params: &[u16], c: char) -> (b: bool)
        ensures
            b == csi_ok(self@, params@, c),
    {
        let mode: u16 = if params.len() > 0 {
            params[0]
        } else {
            0
        };
        let rows = self.size.rows;
        let cols = self.size.cols;
        let (cr, cc) = self.cursor;
        (!(c == 'B' || c == 'H' || c == 'f') || rows > 0) && (!(c == 'C' || c == 'H' || c == 'f') || cols > 0) && (!(c
            == 'J' && mode == 0 && cc < cols) || cr < rows) && (!(c == 'J' && mode == 1) || (cr < rows && cc < cols))
            && (!(c == 'K' && mode == 0 && cc < cols) || cr < rows) && (!(c == 'K' && mode == 1) || (cr < rows && cc
            < cols)) && (!(c == 'K' && mode == 2 && cols > 0) || cr < rows)
    }

    /// The current size.
    pub fn size(&self) -> (s: TerminalSize)
        ensures
            s == self@.size,
    {
        self.size
    }

    /// The cursor as (row, column).
    pub fn cursor(&self) -> (c: (usize, usize))
        ensures
            c == self@.cursor,
    {
        self.cursor
    }

    /// The title.
    pub fn title(&self) -> (t: &str)
        ensures
            t@ == self@.title,
    {
        self.title.as_str()
    }

    /// The visible rows.
    pub fn grid(&self) -> (g: &[Vec<Cell>])
        ensures
            rows_view(g@) == self@.grid,
    {
        self.grid.as_slice()
    }

    /// The rows scrolled off the top, oldest first.
    pub fn scrollback(&self) -> (s: &[Vec<Cell>])
        ensures
            rows_view(s@) == self@.scrollback,
    {
        self.scrollback.as_slice()
    }

    /// The cell at (`row`, `col`), if there is one.
    pub fn cell(&self, row: usize, col: usize) -> (c: Option<&Cell>)
        ensures
            match c {
                Some(cell) => row < self@.grid.len() && col < self@.grid[row as int].len() && cell_view(*cell)
                    == self@.grid[row as int][col as int],
                None => !(row < self@.grid.len() && col < self@.grid[row as int].len()),
            },
    {
        if row < self.grid.len() {
            assert(self@.grid[row as int] == row_view(self.grid@[row as int]@));
            if col < self.grid[row].len() {
                Some(&self.grid[row][col])
            } else {
                None
            }
        } else {
            None
        }
    }

    /// The events not yet handed out, oldest first; none are left.
    pub fn take_events(&mut self) -> (events: Vec<TerminalEvent>)
        ensures
            events@.map_values(|e: TerminalEvent| event_view(e)) == old(self)@.events,
            final(self)@ == (StateView { events: Seq::empty(), ..old(self)@ }),
    {
        let mut events: Vec<TerminalEvent> = Vec::new();
        std::mem::swap(&mut events, &mut self.pending_events);
        assert(self@.events =~= Seq::<EventView>::empty());
        events
    }

    /// Keeps at most `lines` rows of scrollback, dropping the oldest.
    pub fn set_max_scrollback(&mut self, lines: usize)
        ensures
            final(self)@ == (StateView {
                max_scrollback: lines,
                scrollback: trimmed(old(self)@.scrollback, lines),
                ..old(self)@
            }),
            state_wf(old(self)@) ==> state_wf(final(self)@),
    {
        self.max_scrollback = lines;
        trim_front(&mut self.scrollback, lines);
    }

    /// Blanks the visible grid and puts the cursor home.
    pub fn clear_screen(&mut self)
        requires
            state_wf(old(self)@),
        ensures
            final(self)@ == (StateView {
                grid: Seq::new(old(self)@.grid.len(), |r: int| blank_row(old(self)@.size.cols as nat)),
                cursor: (0, 0),
                ..old(self)@
            }),
            state_wf(final(self)@),
    {
        let ghost v = self@;
        let cols = self.size.cols;
        let n = self.grid.len();
        let mut r: usize = 0;
        while r < n
            invariant
                r <= n == self.grid@.len() == v.grid.len(),
                cols == v.size.cols,
                self@ == (StateView { grid: self@.grid, ..v }),
                self@.grid == Seq::new(
                    n as nat,
                    |i: int| if i < r { blank_row(cols as nat) } else { v.grid[i] },
                ),
            decreases n - r,
        {
            let row = blank_cells(cols);
            let ghost g = self.grid@;
            proof {
                lemma_rows_view_update(g, r as int, row);
            }
            self.grid.set(r, row);
            r = r + 1;
            assert(rows_view(self.grid@) =~= Seq::new(
                n as nat,
                |i: int| if i < r { blank_row(cols as nat) } else { v.grid[i] },
            ));
        }
        self.cursor = (0, 0);
        assert(self@.grid =~= Seq::new(v.grid.len(), |i: int| blank_row(cols as nat)));
    }

    /// Resizes: rows are cut or added (blank) at the bottom, every row is
    /// cut or padded to the new width, and the cursor is brought inside.
    pub fn resize(&mut self, size: TerminalSize)
        requires
            state_wf(old(self)@),
            size.rows <= MAX_DIMENSION,
            size.cols <= MAX_DIMENSION,
        ensures
            final(self)@ == spec_resize(old(self)@, size),
            state_wf(final(self)@),
    {
        let ghost v = self@;
        let old_rows = self.size.rows;
        let ghost padded = if size.rows as int <= v.grid.len() {
            v.grid.take(size.rows as int)
        } else {
            v.grid + Seq::new((size.rows - v.grid.len()) as nat, |i: int| blank_row(size.cols as nat))
        };
        if size.rows < old_rows {
            self.grid.truncate(size.rows);
            assert(rows_view(self.grid@) =~= padded);
        } else {
            let mut k = old_rows;
            while k < size.rows
                invariant
                    old_rows <= k <= size.rows,
                    old_rows == v.grid.len(),
                    self@ == (StateView { grid: self@.grid, ..v }),
                    self.grid@.len() == k,
                    rows_view(self.grid@) == v.grid + Seq::new(
                        (k - old_rows) as nat,
                        |i: int| blank_row(size.cols as nat),
                    ),
                decreases size.rows - k,
            {
                let row = blank_cells(size.cols);
                let ghost g = self.grid@;
                proof {
                    lemma_rows_view_push(g, row);
                }
                self.grid.push(row);
                k = k + 1;
                assert(rows_view(self.grid@) =~= v.grid + Seq::new(
                    (k - old_rows) as nat,
                    |i: int| blank_row(size.cols as nat),
                ));
            }
            assert(rows_view(self.grid@) =~= padded);
        }
        let n = self.grid.len();
        let mut r: usize = 0;
        while r < n
            invariant
                r <= n == self.grid@.len() == padded.len(),
                self@ == (StateView { grid: self@.grid, ..v }),
                rows_view(self.grid@) == Seq::new(
                    n as nat,
                    |i: int| if i < r { resized_row(padded[i], size.cols as int) } else { padded[i] },
                ),
                forall|i: int| 0 <= i < r ==> (#[trigger] self.grid@[i])@.len() == size.cols,
            decreases n - r,
        {
            let ghost g = self.grid@;
            assert(rows_view(g)[r as int] == row_view(g[r as int]@));
            resize_row(&mut self.grid[r], size.cols);
            proof {
                lemma_rows_view_update(g, r as int, self.grid@[r as int]);
                assert(self.grid@ =~= g.update(r as int, self.grid@[r as int]));
            }
            r = r + 1;
            assert(rows_view(self.grid@) =~= Seq::new(
                n as nat,
                |i: int| if i < r { resized_row(padded[i], size.cols as int) } else { padded[i] },
            ));
        }
        self.size = size;
        let last_row = if size.rows == 0 {
            0
        } else {
            size.rows - 1
        };
        let last_col = if size.cols == 0 {
            0
        } else {
            size.cols - 1
        };
        if self.cursor.0 > last_row {
            self.cursor.0 = last_row;
        }
        if self.cursor.1 > last_col {
            self.cursor.1 = last_col;
        }
        assert(self@.grid =~= resized_grid(v.grid, size.rows as int, size.cols as int));
        assert forall|i: int| 0 <= i < self@.grid.len() implies (#[trigger] self@.grid[i]).len() == size.cols by {
            assert(self@.grid[i] == row_view(self.grid@[i]@));
        }
    }
}

impl View for TerminalState {
    type V = StateView;

    closed spec fn view(&self) -> StateView {
        StateView {
            grid: rows_view(self.grid@),
            size: self.size,
            cursor: self.cursor,
            title: self.title@,
            scrollback: rows_view(self.scrollback@),
            max_scrollback: self.max_scrollback,
            events: self.pending_events@.map_values(|e: TerminalEvent| event_view(e)),
            attrs: self.current_attrs,
            fg: self.current_fg,
            bg: self.current_bg,
        }
    }
}

} // verus!
