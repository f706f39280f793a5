//! The terminal grid: rows of cells, the cursor, the scrollback buffer,
//! the current graphics attributes and the alternate screen.
//!
//! Each operation is specified as a function on `GridView`, the abstract
//! state of a grid.

use crate::cell::{blank_cell, Cell, CellFlags, Color};
use vstd::prelude::*;

verus! {

/// Cursor shape.
#[derive(Debug, Clone, Copy, PartialEq, Eq, Structural)]
pub enum CursorShape {
    Block,
    Underline,
    Beam,
    Hidden,
}

impl Default for CursorShape {
    fn default() -> (s: Self)
        ensures
            s == CursorShape::Block,
    {
        CursorShape::Block
    }
}

/// Cursor state.
#[derive(Debug, Clone, Copy, PartialEq, Eq, Structural)]
pub struct Cursor {
    pub col: usize,
    pub row: usize,
    pub shape: CursorShape,
    pub visible: bool,
    pub blinking: bool,
}

impl Cursor {
    /// A visible, blinking block cursor at the origin.
    pub fn new() -> (c: Self)
        ensures
            c == (Cursor { col: 0, row: 0, shape: CursorShape::Block, visible: true, blinking: true }),
    {
        Cursor { col: 0, row: 0, shape: CursorShape::Block, visible: true, blinking: true }
    }
}

impl Default for Cursor {
    fn default() -> (c: Self)
        ensures
            c == (Cursor {
                col: 0,
                row: 0,
                shape: CursorShape::Block,
                visible: false,
                blinking: false,
            }),
    {
        Cursor { col: 0, row: 0, shape: CursorShape::Block, visible: false, blinking: false }
    }
}

/// The abstract state of a row.
pub struct RowView {
    pub cells: Seq<Cell>,
    pub dirty: bool,
    pub wrapped: bool,
}

/// `n` blank cells.
pub open spec fn blank_cells(n: int) -> Seq<Cell> {
    Seq::new(n as nat, |i: int| blank_cell())
}

/// A freshly made row of `n` columns.
pub open spec fn fresh_row(n: int) -> RowView {
    RowView { cells: blank_cells(n), dirty: true, wrapped: false }
}

/// A row of the grid.
#[derive(Debug, Clone)]
pub struct GridRow {
    cells: Vec<Cell>,
    dirty: bool,
    wrapped: bool,
}

impl View for GridRow {
    type V = RowView;

    closed spec fn view(&self) -> RowView {
        RowView { cells: self.cells@, dirty: self.dirty, wrapped: self.wrapped }
    }
}

/// The cells of `cells` from `from` (inclusive) to `to` (exclusive) made blank.
pub open spec fn blank_range(cells: Seq<Cell>, from: int, to: int) -> Seq<Cell> {
    Seq::new(cells.len(), |i: int| if from <= i < to { blank_cell() } else { cells[i] })
}

/// `cells` cut or padded with blanks to `n` cells.
pub open spec fn resized_cells(cells: Seq<Cell>, n: int) -> Seq<Cell> {
    if n <= cells.len() {
        cells.subrange(0, n)
    } else {
        cells + blank_cells(n - cells.len())
    }
}

impl GridRow {
    /// A blank, dirty row of `cols` cells.
    pub fn new(cols: usize) -> (r: Self)
        ensures
            r@ == fresh_row(cols as int),
    {
        let mut cells: Vec<Cell> = Vec::new();
        let mut i: usize = 0;
        while i < cols
            invariant
                i <= cols,
                cells@ =~= blank_cells(i as int),
            decreases cols - i,
        {
            cells.push(Cell::default());
            i = i + 1;
        }
        GridRow { cells, dirty: true, wrapped: false }
    }

    /// The cell at `col`, if there is one.
    pub fn cell(&self, col: usize) -> (c: Option<&Cell>)
        ensures
            col < self@.cells.len() ==> c == Some(&self@.cells[col as int]),
            col >= self@.cells.len() ==> c is None,
    {
        if col < self.cells.len() {
            Some(&self.cells[col])
        } else {
            None
        }
    }

    /// The cell at `col` for writing, if there is one; the row is marked
    /// dirty in any case.
    pub fn cell_mut(&mut self, col: usize) -> (c: Option<&mut Cell>)
        ensures
            col < old(self)@.cells.len() ==> c is Some && *c->0 == old(self)@.cells[col as int]
                && final(self)@ == (RowView {
                cells: old(self)@.cells.update(col as int, *final(c->0)),
                dirty: true,
                ..old(self)@
            }),
            col >= old(self)@.cells.len() ==> c is None && final(self)@ == (RowView {
                dirty: true,
                ..old(self)@
            }),
    {
        self.dirty = true;
        if col < self.cells.len() {
            Some(&mut self.cells[col])
        } else {
            None
        }
    }

    /// Replace the cell at `col` when it exists.
    pub fn set_cell(&mut self, col: usize, cell: Cell)
        ensures
            col < old(self)@.cells.len() ==> final(self)@ == (RowView {
                cells: old(self)@.cells.update(col as int, cell),
                dirty: true,
                ..old(self)@
            }),
            col >= old(self)@.cells.len() ==> final(self)@ == old(self)@,
    {
        if col < self.cells.len() {
            self.cells[col] = cell;
            self.dirty = true;
        }
    }

    fn blank_from_to(&mut self, from: usize, to: usize)
        requires
            from <= to <= old(self)@.cells.len(),
        ensures
            final(self)@ == (RowView {
                cells: blank_range(old(self)@.cells, from as int, to as int),
                ..old(self)@
            }),
    {
        let mut i = from;
        while i < to
            invariant
                from <= i <= to <= self.cells@.len(),
                self.cells@.len() == old(self).cells@.len(),
                self.dirty == old(self).dirty,
                self.wrapped == old(self).wrapped,
                self.cells@ =~= blank_range(old(self).cells@, from as int, i as int),
            decreases to - i,
        {
            self.cells[i] = Cell::default();
            i = i + 1;
        }
    }

    /// Blank every cell and drop the wrap mark.
    pub fn clear(&mut self)
        ensures
            final(self)@ == (RowView {
                cells: blank_cells(old(self)@.cells.len() as int),
                dirty: true,
                wrapped: false,
            }),
    {
        let n = self.cells.len();
        self.blank_from_to(0, n);
        self.dirty = true;
        self.wrapped = false;
        assert(self@.cells =~= blank_cells(n as int));
    }

    /// Blank the cells from `col` to the end.
    pub fn clear_from(&mut self, col: usize)
        ensures
            final(self)@ == (RowView {
                cells: blank_range(old(self)@.cells, col as int, old(self)@.cells.len() as int),
                dirty: true,
                ..old(self)@
            }),
    {
        let n = self.cells.len();
        if col < n {
            self.blank_from_to(col, n);
        } else {
            assert(blank_range(self@.cells, col as int, n as int) =~= self@.cells);
        }
        self.dirty = true;
    }

    /// Blank the cells from the start up to and including `col`.
    pub fn clear_to(&mut self, col: usize)
        requires
            col < usize::MAX,
        ensures
            final(self)@ == (RowView {
                cells: blank_range(old(self)@.cells, 0, col + 1),
                dirty: true,
                ..old(self)@
            }),
    {
        let n = self.cells.len();
        let end = if col + 1 < n {
            col + 1
        } else {
            n
        };
        self.blank_from_to(0, end);
        assert(blank_range(old(self)@.cells, 0, end as int) =~= blank_range(
            old(self)@.cells,
            0,
            col + 1,
        ));
        self.dirty = true;
    }

    /// Cut or pad the row to `cols` cells.
    pub fn resize(&mut self, cols: usize)
        ensures
            final(self)@ == (RowView {
                cells: resized_cells(old(self)@.cells, cols as int),
                dirty: true,
                ..old(self)@
            }),
    {
        if cols <= self.cells.len() {
            self.cells.truncate(cols);
        } else {
            let ghost start = self.cells@;
            while self.cells.len() < cols
                invariant
                    start.len() <= self.cells@.len() <= cols,
                    self.cells@ =~= start + blank_cells(self.cells@.len() - start.len()),
                    self.dirty == old(self).dirty,
                    self.wrapped == old(self).wrapped,
                    start == old(self).cells@,
                decreases cols - self.cells@.len(),
            {
                self.cells.push(Cell::default());
            }
        }
        self.dirty = true;
    }

    /// All cells of the row.
    pub fn cells(&self) -> (s: &[Cell])
        ensures
            s@ == self@.cells,
    {
        self.cells.as_slice()
    }

    pub fn is_dirty(&self) -> (b: bool)
        ensures
            b == self@.dirty,
    {
        self.dirty
    }

    pub fn clear_dirty(&mut self)
        ensures
            final(self)@ == (RowView { dirty: false, ..old(self)@ }),
    {
        self.dirty = false;
    }

    pub fn len(&self) -> (n: usize)
        ensures
            n == self@.cells.len(),
    {
        self.cells.len()
    }

    pub fn is_empty(&self) -> (b: bool)
        ensures
            b == (self@.cells.len() == 0),
    {
        self.cells.len() == 0
    }
}

/// The attributes given to characters as they are written.
#[derive(Debug, Clone, Copy, PartialEq, Eq, Structural)]
pub struct GraphicsState {
    pub fg: Color,
    pub bg: Color,
    pub flags: CellFlags,
    pub underline_color: Option<Color>,
}

/// Default colors, no flags.
pub open spec fn default_graphics() -> GraphicsState {
    GraphicsState {
        fg: Color::Foreground,
        bg: Color::Background,
        flags: CellFlags { bits: 0 },
        underline_color: None,
    }
}

impl Default for GraphicsState {
    fn default() -> (g: Self)
        ensures
            g == default_graphics(),
    {
        GraphicsState {
            fg: Color::Foreground,
            bg: Color::Background,
            flags: CellFlags { bits: 0 },
            underline_color: None,
        }
    }
}

/// The abstract state of a grid.
pub struct GridView {
    pub rows: Seq<RowView>,
    pub scrollback: Seq<RowView>,
    pub max_scrollback: usize,
    pub cols: usize,
    pub num_rows: usize,
    pub cursor: Cursor,
    pub saved_cursor: Option<Cursor>,
    pub graphics: GraphicsState,
    pub saved_graphics: Option<GraphicsState>,
    pub scroll_bottom: usize,
    pub auto_wrap: bool,
    pub alternate: Option<Seq<RowView>>,
}

/// The terminal grid.
pub struct Grid {
    rows: Vec<GridRow>,
    scrollback: Vec<GridRow>,
    max_scrollback: usize,
    cols: usize,
    num_rows: usize,
    cursor: Cursor,
    saved_cursor: Option<Cursor>,
    graphics: GraphicsState,
    saved_graphics: Option<GraphicsState>,
    scroll_bottom: usize,
    origin_mode: bool,
    auto_wrap: bool,
    insert_mode: bool,
    alternate_screen: Option<Vec<GridRow>>,
}

/// The views of a sequence of rows.
pub open spec fn row_views(rows: Seq<GridRow>) -> Seq<RowView> {
    rows.map_values(|r: GridRow| r@)
}

/// `n` fresh rows of `cols` columns.
pub open spec fn fresh_rows(n: int, cols: int) -> Seq<RowView> {
    Seq::new(n as nat, |i: int| fresh_row(cols))
}

/// `n - 1`, or 0 when `n` is 0.
pub open spec fn last_index(n: usize) -> usize {
    if n == 0 {
        0
    } else {
        (n - 1) as usize
    }
}

/// A new grid of `cols` by `rows`.
pub open spec fn spec_new_grid(cols: usize, rows: usize) -> GridView {
    GridView {
        rows: fresh_rows(rows as int, cols as int),
        scrollback: Seq::empty(),
        max_scrollback: 10000,
        cols,
        num_rows: rows,
        cursor: Cursor { col: 0, row: 0, shape: CursorShape::Block, visible: true, blinking: true },
        saved_cursor: None,
        graphics: default_graphics(),
        saved_graphics: None,
        scroll_bottom: last_index(rows),
        auto_wrap: true,
        alternate: None,
    }
}

/// One step of scrolling up: the top row of the scroll region moves to the
/// scrollback (dropping the oldest line when the scrollback is full) and a
/// fresh row enters at the bottom of the region.
pub open spec fn scroll_up_once(v: GridView) -> GridView {
    if 0 < v.rows.len() {
        let removed = v.rows.remove(0);
        let sb = if v.scrollback.len() >= v.max_scrollback && v.scrollback.len() > 0 {
            v.scrollback.drop_first()
        } else {
            v.scrollback
        };
        let pos = if v.scroll_bottom < removed.len() {
            v.scroll_bottom as int
        } else {
            removed.len() as int
        };
        GridView {
            rows: removed.insert(pos, fresh_row(v.cols as int)),
            scrollback: sb.push(v.rows[0]),
            ..v
        }
    } else {
        v
    }
}

/// `n` steps of scrolling up.
pub open spec fn scroll_up_n(v: GridView, n: nat) -> GridView
    decreases n,
{
    if n == 0 {
        v
    } else {
        scroll_up_once(scroll_up_n(v, (n - 1) as nat))
    }
}

/// One step of scrolling down: the row at the bottom of the scroll region
/// is dropped and a fresh row enters at its top.
pub open spec fn scroll_down_once(v: GridView) -> GridView {
    if v.scroll_bottom < v.rows.len() {
        GridView {
            rows: v.rows.remove(v.scroll_bottom as int).insert(
                0,
                fresh_row(v.cols as int),
            ),
            ..v
        }
    } else {
        v
    }
}

/// `n` steps of scrolling down.
pub open spec fn scroll_down_n(v: GridView, n: nat) -> GridView
    decreases n,
{
    if n == 0 {
        v
    } else {
        scroll_down_once(scroll_down_n(v, (n - 1) as nat))
    }
}

/// Line feed: the cursor moves down, or the region scrolls when the cursor
/// is on or below its bottom row.
pub open spec fn spec_linefeed(v: GridView) -> GridView {
    if v.cursor.row >= v.scroll_bottom {
        scroll_up_once(v)
    } else {
        GridView { cursor: Cursor { row: (v.cursor.row + 1) as usize, ..v.cursor }, ..v }
    }
}

/// A row with every cell blank, dirty and unwrapped.
pub open spec fn cleared_row(r: RowView) -> RowView {
    RowView { cells: blank_cells(r.cells.len() as int), dirty: true, wrapped: false }
}

/// A row with its cells from `col` on blank, and dirty.
pub open spec fn row_cleared_from(r: RowView, col: int) -> RowView {
    RowView { cells: blank_range(r.cells, col, r.cells.len() as int), dirty: true, ..r }
}

/// A row with its cells up to and including `col` blank, and dirty.
pub open spec fn row_cleared_to(r: RowView, col: int) -> RowView {
    RowView { cells: blank_range(r.cells, 0, col + 1), dirty: true, ..r }
}

/// `x` clamped to `n - 1` (to 0 when `n` is 0).
pub open spec fn clamp_to(x: usize, n: usize) -> usize {
    if x < last_index(n) {
        x
    } else {
        last_index(n)
    }
}

/// The grid with the cursor placed at (`col`, `row`), clamped to the grid.
pub open spec fn spec_move_cursor(v: GridView, col: usize, row: usize) -> GridView {
    GridView {
        cursor: Cursor { col: clamp_to(col, v.cols), row: clamp_to(row, v.num_rows), ..v.cursor },
        ..v
    }
}

/// `x + d`, or 0 when that is negative.
pub open spec fn offset_or_zero(x: usize, d: isize) -> int {
    if x + d < 0 {
        0
    } else {
        x + d
    }
}

/// The grid resized to `cols` by `nrows`: every row is cut or padded, rows
/// are added at the bottom or taken from the top (into the scrollback while
/// it has room), and the cursor is clamped.
pub open spec fn resized_rows(rows: Seq<RowView>, cols: int) -> Seq<RowView> {
    rows.map_values(|r: RowView| RowView { cells: resized_cells(r.cells, cols), dirty: true, ..r })
}

/// The rows taken from the top when a grid of `len` rows shrinks to `n`.
pub open spec fn excess(len: int, n: int) -> int {
    if len > n {
        len - n
    } else {
        0
    }
}

/// The rows of the grid after a resize.
pub open spec fn rows_after_resize(rows: Seq<RowView>, cols: int, n: int) -> Seq<RowView> {
    let r = resized_rows(rows, cols);
    if r.len() < n {
        r + fresh_rows(n - r.len(), cols)
    } else {
        r.subrange(r.len() - n, r.len() as int)
    }
}

/// The scrollback after rows `moved` (oldest first) are offered to it.
pub open spec fn offer_scrollback(sb: Seq<RowView>, moved: Seq<RowView>, max: int) -> Seq<RowView>
    decreases moved.len(),
{
    if moved.len() == 0 {
        sb
    } else {
        let sb1 = if sb.len() < max {
            sb.push(moved[0])
        } else {
            sb
        };
        offer_scrollback(sb1, moved.drop_first(), max)
    }
}

pub open spec fn spec_resize(v: GridView, cols: usize, nrows: usize) -> GridView {
    let r = resized_rows(v.rows, cols as int);
    GridView {
        rows: rows_after_resize(v.rows, cols as int, nrows as int),
        scrollback: offer_scrollback(
            v.scrollback,
            r.subrange(0, excess(r.len() as int, nrows as int)),
            v.max_scrollback as int,
        ),
        cols,
        num_rows: nrows,
        scroll_bottom: last_index(nrows),
        cursor: Cursor { col: clamp_to(v.cursor.col, cols), row: clamp_to(v.cursor.row, nrows), ..v.cursor },
        ..v
    }
}

/// The grid with the cursor and the graphics attributes saved.
pub open spec fn spec_save_cursor(v: GridView) -> GridView {
    GridView { saved_cursor: Some(v.cursor), saved_graphics: Some(v.graphics), ..v }
}

/// The grid with the saved cursor and graphics attributes (each when
/// present) put back.
pub open spec fn spec_restore_cursor(v: GridView) -> GridView {
    GridView {
        cursor: match v.saved_cursor {
            Some(c) => c,
            None => v.cursor,
        },
        graphics: match v.saved_graphics {
            Some(g) => g,
            None => v.graphics,
        },
        ..v
    }
}

/// The grid after entering the alternate screen.
pub open spec fn spec_enter_alternate(v: GridView) -> GridView {
    if v.alternate is None {
        GridView {
            rows: fresh_rows(v.num_rows as int, v.cols as int),
            alternate: Some(v.rows),
            ..v
        }
    } else {
        v
    }
}

/// The grid after leaving the alternate screen.
pub open spec fn spec_exit_alternate(v: GridView) -> GridView {
    match v.alternate {
        Some(main) => GridView { rows: main, alternate: None, ..v },
        None => v,
    }
}

/// The width that `UnicodeWidthChar::width` gives a character.
pub uninterp spec fn unicode_char_width(c: char) -> Option<usize>;

/// Calls `UnicodeWidthChar::width` of unicode-width. Claimed: the result is
/// the named value; printable ASCII is one column wide, C0 and C1 controls
/// have no width, and a width fits in a byte (the crate's tables hold `u8`
/// widths).
#[verifier::external_body]
fn char_width(c: char) -> (w: Option<usize>)
    ensures
        w == unicode_char_width(c),
        (' ' <= c <= '~') ==> w == Some(1usize),
        (c < ' ' || ('\u{7f}' <= c < '\u{a0}')) ==> w is None,
        w matches Some(n) ==> n <= 255,
{
    unicode_width::UnicodeWidthChar::width(c)
}

/// The columns a written character advances the cursor by.
pub open spec fn advance_of(c: char) -> usize {
    match unicode_char_width(c) {
        Some(w) => w,
        None => 1,
    }
}

/// The cell that a written character takes, given the attributes in force.
pub open spec fn written_cell(c: char, g: GraphicsState, width: usize) -> Cell {
    Cell {
        c,
        fg: g.fg,
        bg: g.bg,
        flags: CellFlags { bits: if width > 1 { g.flags.bits | 0x0400 } else { g.flags.bits } },
        underline_color: g.underline_color,
    }
}

/// Row `row` marked dirty, with cell `col` (when it exists) set by `f`.
pub open spec fn touch_cell(rows: Seq<RowView>, row: int, col: int, cell: Cell) -> Seq<RowView> {
    if 0 <= row < rows.len() {
        let r = rows[row];
        let cells = if 0 <= col < r.cells.len() {
            r.cells.update(col, cell)
        } else {
            r.cells
        };
        rows.update(row, RowView { cells, dirty: true, ..r })
    } else {
        rows
    }
}

/// The cell that the second column of a wide character becomes.
pub open spec fn spacer_of(old: Cell) -> Cell {
    Cell { c: ' ', flags: CellFlags { bits: 0x0800 }, ..old }
}

/// The grid after writing `c` at the cursor.
pub open spec fn spec_write_char(v: GridView, c: char) -> GridView {
    let w = advance_of(c);
    let col = v.cursor.col;
    let row = v.cursor.row;
    let rows1 = touch_cell(v.rows, row as int, col as int, written_cell(c, v.graphics, w));
    let rows2 = if w > 1 && col + 1 < v.cols && (row as int) < rows1.len() && col + 1
        < rows1[row as int].cells.len() {
        touch_cell(rows1, row as int, col + 1, spacer_of(rows1[row as int].cells[col + 1]))
    } else if w > 1 && col + 1 < v.cols {
        touch_cell(rows1, row as int, col + 1, blank_cell())
    } else {
        rows1
    };
    let v1 = GridView { rows: rows2, cursor: Cursor { col: (col + w) as usize, ..v.cursor }, ..v };
    if col + w >= v.cols && v.auto_wrap {
        spec_linefeed(GridView { cursor: Cursor { col: 0, ..v1.cursor }, ..v1 })
    } else {
        v1
    }
}

proof fn lemma_touch_rows(rows: Seq<GridRow>, row: int, col: int, nr: GridRow, cell: Cell)
    requires
        0 <= row < rows.len(),
        nr@.dirty,
        nr@.wrapped == rows[row]@.wrapped,
        nr@.cells == (if 0 <= col < rows[row]@.cells.len() {
            rows[row]@.cells.update(col, cell)
        } else {
            rows[row]@.cells
        }),
    ensures
        row_views(rows.update(row, nr)) == touch_cell(row_views(rows), row, col, cell),
{
    let a = row_views(rows.update(row, nr));
    let b = touch_cell(row_views(rows), row, col, cell);
    assert(a.len() == b.len());
    assert forall|i: int| 0 <= i < a.len() implies a[i] == b[i] by {
        if i == row {
            assert(a[i].cells =~= b[i].cells);
        }
    }
    assert(a =~= b);
}

proof fn lemma_touch_rows_all(rows: Seq<GridRow>, row: int, col: int)
    requires
        0 <= row < rows.len(),
    ensures
        forall|nr: GridRow, cell: Cell|
            #![trigger rows.update(row, nr), touch_cell(row_views(rows), row, col, cell)]
            nr@.dirty && nr@.wrapped == rows[row]@.wrapped && nr@.cells == (if 0 <= col
                < rows[row]@.cells.len() {
                rows[row]@.cells.update(col, cell)
            } else {
                rows[row]@.cells
            }) ==> row_views(rows.update(row, nr)) == touch_cell(row_views(rows), row, col, cell),
{
    assert forall|nr: GridRow, cell: Cell|
        nr@.dirty && nr@.wrapped == rows[row]@.wrapped && nr@.cells == (if 0 <= col
            < rows[row]@.cells.len() {
            rows[row]@.cells.update(col, cell)
        } else {
            rows[row]@.cells
        }) implies row_views(rows.update(row, nr)) == touch_cell(row_views(rows), row, col, cell) by {
        lemma_touch_rows(rows, row, col, nr, cell);
    }
}

impl View for Grid {
    type V = GridView;

    closed spec fn view(&self) -> GridView {
        GridView {
            rows: row_views(self.rows@),
            scrollback: row_views(self.scrollback@),
            max_scrollback: self.max_scrollback,
            cols: self.cols,
            num_rows: self.num_rows,
            cursor: self.cursor,
            saved_cursor: self.saved_cursor,
            graphics: self.graphics,
            saved_graphics: self.saved_graphics,
            scroll_bottom: self.scroll_bottom,
            auto_wrap: self.auto_wrap,
            alternate: match self.alternate_screen {
                Some(a) => Some(row_views(a@)),
                None => None,
            },
        }
    }
}

impl Grid {
    /// A blank grid of `cols` columns and `rows` rows.
    pub fn new(cols: usize, rows: usize) -> (g: Self)
        ensures
            g@ == spec_new_grid(cols, rows),
    {
        let mut grid_rows: Vec<GridRow> = Vec::new();
        let mut i: usize = 0;
        while i < rows
            invariant
                i <= rows,
                grid_rows@.len() == i,
                forall|j: int| 0 <= j < i ==> #[trigger] grid_rows@[j]@ == fresh_row(cols as int),
            decreases rows - i,
        {
            grid_rows.push(GridRow::new(cols));
            i = i + 1;
        }
        assert(row_views(grid_rows@) =~= fresh_rows(rows as int, cols as int));
        let g = Grid {
            rows: grid_rows,
            scrollback: Vec::new(),
            max_scrollback: 10000,
            cols,
            num_rows: rows,
            cursor: Cursor::new(),
            saved_cursor: None,
            graphics: GraphicsState::default(),
            saved_graphics: None,
                scroll_bottom: if rows == 0 {
                0
            } else {
                rows - 1
            },
            origin_mode: false,
            auto_wrap: true,
            insert_mode: false,
            alternate_screen: None,
        };
        assert(row_views(g.scrollback@) =~= Seq::<RowView>::empty());
        g
    }

    /// The cell at (`col`, `row`), if there is one.
    pub fn cell(&self, col: usize, row: usize) -> (c: Option<&Cell>)
        ensures
            (row < self@.rows.len() && col < self@.rows[row as int].cells.len()) ==> c == Some(
                &self@.rows[row as int].cells[col as int],
            ),
            !(row < self@.rows.len() && col < self@.rows[row as int].cells.len()) ==> c is None,
    {
        if row < self.rows.len() {
            self.rows[row].cell(col)
        } else {
            None
        }
    }

    /// The cell at (`col`, `row`) for writing; its row, when it exists, is
    /// marked dirty.
    pub fn cell_mut(&mut self, col: usize, row: usize) -> (c: Option<&mut Cell>)
        ensures
            final(self)@ == grid_step(old(self)@, GridOp::SetCell(col, row, if c is Some { *final(c->0) } else { blank_cell() })),
            (row < old(self)@.rows.len() && col < old(self)@.rows[row as int].cells.len()) ==> c is Some
                && *c->0 == old(self)@.rows[row as int].cells[col as int] && final(self)@ == (
            GridView {
                rows: touch_cell(old(self)@.rows, row as int, col as int, *final(c->0)),
                ..old(self)@
            }),
            !(row < old(self)@.rows.len() && col < old(self)@.rows[row as int].cells.len()) ==> c is None
                && final(self)@ == (GridView {
                rows: touch_cell(
                    old(self)@.rows,
                    row as int,
                    col as int,
                    blank_cell(),
                ),
                ..old(self)@
            }),
    {
        if row < self.rows.len() {
            let ghost old_rows = self.rows@;
            let r = &mut self.rows[row];
            proof {
                lemma_touch_rows_all(old_rows, row as int, col as int);
            }
            r.cell_mut(col)
        } else {
            assert(touch_cell(self@.rows, row as int, col as int, blank_cell()) =~= self@.rows);
            None
        }
    }
}


/// The indices of the dirty rows among the first `n`, in order.
pub open spec fn dirty_indices(rows: Seq<RowView>, n: int) -> Seq<usize>
    decreases n,
{
    if n <= 0 {
        Seq::empty()
    } else if rows[n - 1].dirty {
        dirty_indices(rows, n - 1).push((n - 1) as usize)
    } else {
        dirty_indices(rows, n - 1)
    }
}

/// The grid with every row cleared and the cursor at the origin.
pub open spec fn spec_clear(v: GridView) -> GridView {
    GridView {
        rows: v.rows.map_values(|r: RowView| cleared_row(r)),
        cursor: Cursor { col: 0, row: 0, ..v.cursor },
        ..v
    }
}

/// The rows with row `i` replaced by `f(rows[i])` when it exists.
pub open spec fn map_row(rows: Seq<RowView>, i: int, r: RowView) -> Seq<RowView> {
    if 0 <= i < rows.len() {
        rows.update(i, r)
    } else {
        rows
    }
}

/// Erase from the cursor to the end of the screen.
pub open spec fn spec_clear_below(v: GridView) -> GridView {
    let row = v.cursor.row as int;
    GridView {
        rows: Seq::new(
            v.rows.len(),
            |i: int|
                if i == row {
                    row_cleared_from(v.rows[i], v.cursor.col as int)
                } else if i > row {
                    cleared_row(v.rows[i])
                } else {
                    v.rows[i]
                },
        ),
        ..v
    }
}

/// Erase from the start of the screen to the cursor.
pub open spec fn spec_clear_above(v: GridView) -> GridView {
    let row = v.cursor.row as int;
    GridView {
        rows: Seq::new(
            v.rows.len(),
            |i: int|
                if i == row {
                    row_cleared_to(v.rows[i], v.cursor.col as int)
                } else if i < row {
                    cleared_row(v.rows[i])
                } else {
                    v.rows[i]
                },
        ),
        ..v
    }
}

proof fn lemma_views_remove(s: Seq<GridRow>, i: int)
    requires
        0 <= i < s.len(),
    ensures
        row_views(s.remove(i)) == row_views(s).remove(i),
{
    assert(row_views(s.remove(i)) =~= row_views(s).remove(i));
}

proof fn lemma_views_insert(s: Seq<GridRow>, i: int, x: GridRow)
    requires
        0 <= i <= s.len(),
    ensures
        row_views(s.insert(i, x)) == row_views(s).insert(i, x@),
{
    assert(row_views(s.insert(i, x)) =~= row_views(s).insert(i, x@));
}

proof fn lemma_views_push(s: Seq<GridRow>, x: GridRow)
    ensures
        row_views(s.push(x)) == row_views(s).push(x@),
{
    assert(row_views(s.push(x)) =~= row_views(s).push(x@));
}

proof fn lemma_views_update(s: Seq<GridRow>, i: int, x: GridRow)
    requires
        0 <= i < s.len(),
    ensures
        row_views(s.update(i, x)) == row_views(s).update(i, x@),
{
    assert(row_views(s.update(i, x)) =~= row_views(s).update(i, x@));
}

impl Grid {
    /// The row at `row`, if there is one.
    pub fn row(&self, row: usize) -> (r: Option<&GridRow>)
        ensures
            row < self@.rows.len() ==> r is Some && r->0@ == self@.rows[row as int],
            row >= self@.rows.len() ==> r is None,
    {
        if row < self.rows.len() {
            Some(&self.rows[row])
        } else {
            None
        }
    }

    /// The row at `row` for writing, if there is one.
    pub fn row_mut(&mut self, row: usize) -> (r: Option<&mut GridRow>)
        ensures
            final(self)@ == grid_step(old(self)@, GridOp::SetRow(row, if r is Some { (*final(r->0))@ } else { old(self)@.rows[row as int] })),
            row < old(self)@.rows.len() ==> r is Some && (*r->0)@ == old(self)@.rows[row as int]
                && final(self)@ == (GridView {
                rows: old(self)@.rows.update(row as int, (*final(r->0))@),
                ..old(self)@
            }),
            row >= old(self)@.rows.len() ==> r is None && final(self)@ == old(self)@,
    {
        if row < self.rows.len() {
            let ghost old_rows = self.rows@;
            proof {
                assert forall|x: GridRow|
                    #[trigger] old_rows.update(row as int, x) == old_rows.update(row as int, x)
                    implies row_views(old_rows.update(row as int, x)) == row_views(old_rows).update(
                    row as int,
                    x@,
                ) by {
                    lemma_views_update(old_rows, row as int, x);
                }
            }
            Some(&mut self.rows[row])
        } else {
            None
        }
    }

    /// All rows.
    pub fn rows(&self) -> (r: &[GridRow])
        ensures
            row_views(r@) == self@.rows,
    {
        self.rows.as_slice()
    }

    pub fn cursor(&self) -> (c: &Cursor)
        ensures
            *c == self@.cursor,
    {
        &self.cursor
    }

    pub fn cursor_mut(&mut self) -> (c: &mut Cursor)
        ensures
            final(self)@ == grid_step(old(self)@, GridOp::SetCursor(*final(c))),
            *c == old(self)@.cursor,
            final(self)@ == (GridView { cursor: *final(c), ..old(self)@ }),
    {
        &mut self.cursor
    }

    /// (columns, rows).
    pub fn dims(&self) -> (d: (usize, usize))
        ensures
            d == (self@.cols, self@.num_rows),
    {
        (self.cols, self.num_rows)
    }

    fn scroll_up_step(&mut self)
        ensures
            final(self)@ == scroll_up_once(old(self)@),
    {
        if 0 < self.rows.len() {
            let ghost v = self@;
            let ghost r0 = self.rows@;
            let ghost s0 = self.scrollback@;
            let row = self.rows.remove(0);
            proof {
                lemma_views_remove(r0, 0);
            }
            if self.scrollback.len() >= self.max_scrollback && self.scrollback.len() > 0 {
                self.scrollback.remove(0);
                proof {
                    lemma_views_remove(s0, 0);
                    assert(row_views(s0).remove(0) =~= row_views(s0).drop_first());
                }
            }
            let ghost s1 = self.scrollback@;
            self.scrollback.push(row);
            proof {
                lemma_views_push(s1, row);
            }
            let insert_pos = if self.scroll_bottom < self.rows.len() {
                self.scroll_bottom
            } else {
                self.rows.len()
            };
            let ghost r1 = self.rows@;
            self.rows.insert(insert_pos, GridRow::new(self.cols));
            proof {
                lemma_views_insert(r1, insert_pos as int, self.rows@[insert_pos as int]);
                assert(self@.rows =~= scroll_up_once(v).rows);
                assert(self@.scrollback =~= scroll_up_once(v).scrollback);
            }
        }
    }

    /// Scroll the region up by `n` lines.
    pub fn scroll_up(&mut self, n: usize)
        ensures
            final(self)@ == grid_step(old(self)@, GridOp::ScrollUp(n)),
            final(self)@ == scroll_up_n(old(self)@, n as nat),
    {
        let mut i: usize = 0;
        while i < n
            invariant
                i <= n,
                self@ == scroll_up_n(old(self)@, i as nat),
            decreases n - i,
        {
            self.scroll_up_step();
            i = i + 1;
        }
    }

    fn scroll_down_step(&mut self)
        ensures
            final(self)@ == scroll_down_once(old(self)@),
    {
        if self.scroll_bottom < self.rows.len() {
            let ghost v = self@;
            let ghost r0 = self.rows@;
            self.rows.remove(self.scroll_bottom);
            proof {
                lemma_views_remove(r0, self.scroll_bottom as int);
            }
            let ghost r1 = self.rows@;
            self.rows.insert(0, GridRow::new(self.cols));
            proof {
                lemma_views_insert(r1, 0, self.rows@[0]);
                assert(self@.rows =~= scroll_down_once(v).rows);
            }
        }
    }

    /// Scroll the region down by `n` lines.
    pub fn scroll_down(&mut self, n: usize)
        ensures
            final(self)@ == grid_step(old(self)@, GridOp::ScrollDown(n)),
            final(self)@ == scroll_down_n(old(self)@, n as nat),
    {
        let mut i: usize = 0;
        while i < n
            invariant
                i <= n,
                self@ == scroll_down_n(old(self)@, i as nat),
            decreases n - i,
        {
            self.scroll_down_step();
            i = i + 1;
        }
    }

    /// Line feed.
    pub fn linefeed(&mut self)
        ensures
            final(self)@ == grid_step(old(self)@, GridOp::Linefeed),
            final(self)@ == spec_linefeed(old(self)@),
    {
        if self.cursor.row >= self.scroll_bottom {
            self.scroll_up_step();
        } else {
            self.cursor.row = self.cursor.row + 1;
        }
    }

    pub fn carriage_return(&mut self)
        ensures
            final(self)@ == grid_step(old(self)@, GridOp::CarriageReturn),
            final(self)@ == (GridView { cursor: Cursor { col: 0, ..old(self)@.cursor }, ..old(self)@ }),
    {
        self.cursor.col = 0;
    }

    pub fn backspace(&mut self)
        ensures
            final(self)@ == grid_step(old(self)@, GridOp::Backspace),
            final(self)@ == (GridView {
                cursor: Cursor {
                    col: if old(self)@.cursor.col > 0 {
                        (old(self)@.cursor.col - 1) as usize
                    } else {
                        0
                    },
                    ..old(self)@.cursor
                },
                ..old(self)@
            }),
    {
        if self.cursor.col > 0 {
            self.cursor.col = self.cursor.col - 1;
        }
    }

    /// Move to the next multiple of 8, at most to the last column.
    pub fn tab(&mut self)
        ensures
            final(self)@ == grid_step(old(self)@, GridOp::Tab),
            final(self)@ == (GridView { cursor: Cursor { col: tab_stop(old(self)@), ..old(self)@.cursor }, ..old(self)@ }),
    {
        let q = self.cursor.col / 8 + 1;
        let next_tab = if q <= usize::MAX / 8 {
            q * 8
        } else {
            usize::MAX
        };
        let last = if self.cols == 0 {
            0
        } else {
            self.cols - 1
        };
        self.cursor.col = if next_tab < last {
            next_tab
        } else {
            last
        };
        proof {
            if q > usize::MAX / 8 {
                assert(q * 8 > usize::MAX) by (nonlinear_arith)
                    requires
                        q > usize::MAX / 8,
                ;
            }
        }
    }
}

impl Grid {
    /// Clear the screen and move the cursor to the origin.
    pub fn clear(&mut self)
        ensures
            final(self)@ == grid_step(old(self)@, GridOp::Clear),
            final(self)@ == spec_clear(old(self)@),
    {
        let ghost v = self@;
        let n = self.rows.len();
        let mut i: usize = 0;
        assert(v.rows =~= Seq::new(
            n as nat,
            |j: int|
                if j < 0 {
                    cleared_row(v.rows[j])
                } else {
                    v.rows[j]
                },
        ));
        while i < n
            invariant
                i <= n == self.rows@.len(),
                v.rows.len() == n,
                self@ == (GridView {
                    rows: Seq::new(
                        n as nat,
                        |j: int|
                            if j < i {
                                cleared_row(v.rows[j])
                            } else {
                                v.rows[j]
                            },
                    ),
                    ..v
                }),
            decreases n - i,
        {
            let ghost r0 = self.rows@;
            self.rows[i].clear();
            proof {
                lemma_views_update(r0, i as int, self.rows@[i as int]);
                assert(self.rows@ == r0.update(i as int, self.rows@[i as int]));
                assert(row_views(r0)[i as int] == r0[i as int]@);
                assert(row_views(r0)[i as int] == v.rows[i as int]);
                assert(self.rows@[i as int]@ == cleared_row(v.rows[i as int]));
                assert(self@.rows == row_views(r0).update(i as int, cleared_row(v.rows[i as int])));
            }
            i = i + 1;
            proof {
                assert(self@.rows =~= Seq::new(
                    n as nat,
                    |j: int|
                        if j < i {
                            cleared_row(v.rows[j])
                        } else {
                            v.rows[j]
                        },
                ));
            }
        }
        self.cursor.col = 0;
        self.cursor.row = 0;
        assert(self@.rows =~= spec_clear(v).rows);
    }

    /// Clear the rows whose index `j` satisfies `lo <= j < hi`.
    fn clear_rows(&mut self, lo: usize, hi: usize)
        requires
            lo <= hi <= old(self)@.rows.len(),
        ensures
            final(self)@ == (GridView {
                rows: Seq::new(
                    old(self)@.rows.len(),
                    |j: int|
                        if lo <= j < hi {
                            cleared_row(old(self)@.rows[j])
                        } else {
                            old(self)@.rows[j]
                        },
                ),
                ..old(self)@
            }),
    {
        let ghost v = self@;
        let n = self.rows.len();
        let mut i = lo;
        assert(v.rows =~= Seq::new(
            n as nat,
            |j: int|
                if lo <= j < lo {
                    cleared_row(v.rows[j])
                } else {
                    v.rows[j]
                },
        ));
        while i < hi
            invariant
                lo <= i <= hi <= n == self.rows@.len(),
                v.rows.len() == n,
                self@ == (GridView {
                    rows: Seq::new(
                        n as nat,
                        |j: int|
                            if lo <= j < i {
                                cleared_row(v.rows[j])
                            } else {
                                v.rows[j]
                            },
                    ),
                    ..v
                }),
            decreases hi - i,
        {
            let ghost r0 = self.rows@;
            self.rows[i].clear();
            proof {
                lemma_views_update(r0, i as int, self.rows@[i as int]);
                assert(row_views(r0)[i as int] == r0[i as int]@);
                assert(self@.rows == row_views(r0).update(i as int, cleared_row(v.rows[i as int])));
            }
            i = i + 1;
            proof {
                assert(self@.rows =~= Seq::new(
                    n as nat,
                    |j: int|
                        if lo <= j < i {
                            cleared_row(v.rows[j])
                        } else {
                            v.rows[j]
                        },
                ));
            }
        }
    }

    /// Erase from the cursor to the end of the screen.
    pub fn clear_below(&mut self)
        requires
            old(self)@.cursor.row < usize::MAX,
        ensures
            final(self)@ == grid_step(old(self)@, GridOp::ClearBelow),
            final(self)@ == spec_clear_below(old(self)@),
    {
        let ghost v = self@;
        let row = self.cursor.row;
        let col = self.cursor.col;
        if row < self.rows.len() {
            let ghost r0 = self.rows@;
            self.rows[row].clear_from(col);
            proof {
                lemma_views_update(r0, row as int, self.rows@[row as int]);
            }
        }
        let n = self.rows.len();
        let lo = if row + 1 < n {
            row + 1
        } else {
            n
        };
        self.clear_rows(lo, n);
        assert(self@.rows =~= spec_clear_below(v).rows);
    }

    /// Erase from the start of the screen to the cursor.
    pub fn clear_above(&mut self)
        requires
            old(self)@.cursor.col < usize::MAX,
        ensures
            final(self)@ == grid_step(old(self)@, GridOp::ClearAbove),
            final(self)@ == spec_clear_above(old(self)@),
    {
        let ghost v = self@;
        let row = self.cursor.row;
        let col = self.cursor.col;
        if row < self.rows.len() {
            let ghost r0 = self.rows@;
            self.rows[row].clear_to(col);
            proof {
                lemma_views_update(r0, row as int, self.rows@[row as int]);
            }
        }
        let n = self.rows.len();
        let hi = if row < n {
            row
        } else {
            n
        };
        self.clear_rows(0, hi);
        assert(self@.rows =~= spec_clear_above(v).rows);
    }

    /// Erase the cursor's line.
    pub fn clear_line(&mut self)
        ensures
            final(self)@ == grid_step(old(self)@, GridOp::ClearLine),
            final(self)@ == (GridView {
                rows: map_row(
                    old(self)@.rows,
                    old(self)@.cursor.row as int,
                    cleared_row(old(self)@.rows[old(self)@.cursor.row as int]),
                ),
                ..old(self)@
            }),
    {
        let row = self.cursor.row;
        if row < self.rows.len() {
            let ghost r0 = self.rows@;
            self.rows[row].clear();
            proof {
                lemma_views_update(r0, row as int, self.rows@[row as int]);
            }
        }
    }

    /// Erase from the cursor to the end of its line.
    pub fn clear_line_right(&mut self)
        ensures
            final(self)@ == grid_step(old(self)@, GridOp::ClearLineRight),
            final(self)@ == (GridView {
                rows: map_row(
                    old(self)@.rows,
                    old(self)@.cursor.row as int,
                    row_cleared_from(
                        old(self)@.rows[old(self)@.cursor.row as int],
                        old(self)@.cursor.col as int,
                    ),
                ),
                ..old(self)@
            }),
    {
        let row = self.cursor.row;
        let col = self.cursor.col;
        if row < self.rows.len() {
            let ghost r0 = self.rows@;
            self.rows[row].clear_from(col);
            proof {
                lemma_views_update(r0, row as int, self.rows@[row as int]);
            }
        }
    }

    /// Erase from the start of the cursor's line to the cursor.
    pub fn clear_line_left(&mut self)
        requires
            old(self)@.cursor.col < usize::MAX,
        ensures
            final(self)@ == grid_step(old(self)@, GridOp::ClearLineLeft),
            final(self)@ == (GridView {
                rows: map_row(
                    old(self)@.rows,
                    old(self)@.cursor.row as int,
                    row_cleared_to(
                        old(self)@.rows[old(self)@.cursor.row as int],
                        old(self)@.cursor.col as int,
                    ),
                ),
                ..old(self)@
            }),
    {
        let row = self.cursor.row;
        let col = self.cursor.col;
        if row < self.rows.len() {
            let ghost r0 = self.rows@;
            self.rows[row].clear_to(col);
            proof {
                lemma_views_update(r0, row as int, self.rows@[row as int]);
            }
        }
    }

    /// Move the cursor to (`col`, `row`), clamped to the grid.
    pub fn move_cursor(&mut self, col: usize, row: usize)
        ensures
            final(self)@ == grid_step(old(self)@, GridOp::MoveCursor(col, row)),
            final(self)@ == spec_move_cursor(old(self)@, col, row),
    {
        let last_col = if self.cols == 0 {
            0
        } else {
            self.cols - 1
        };
        let last_row = if self.num_rows == 0 {
            0
        } else {
            self.num_rows - 1
        };
        self.cursor.col = if col < last_col {
            col
        } else {
            last_col
        };
        self.cursor.row = if row < last_row {
            row
        } else {
            last_row
        };
    }

    /// Move the cursor by (`dcol`, `drow`), stopping at 0 and clamped to the grid.
    pub fn move_cursor_relative(&mut self, dcol: isize, drow: isize)
        requires
            old(self)@.cursor.col + dcol <= isize::MAX,
            old(self)@.cursor.row + drow <= isize::MAX,
            old(self)@.cursor.col <= isize::MAX,
            old(self)@.cursor.row <= isize::MAX,
        ensures
            final(self)@ == grid_step(old(self)@, GridOp::MoveCursor(offset_or_zero(old(self)@.cursor.col, dcol) as usize, offset_or_zero(old(self)@.cursor.row, drow) as usize)),
            final(self)@ == spec_move_cursor(
                old(self)@,
                offset_or_zero(old(self)@.cursor.col, dcol) as usize,
                offset_or_zero(old(self)@.cursor.row, drow) as usize,
            ),
    {
        let c = self.cursor.col as isize + dcol;
        let r = self.cursor.row as isize + drow;
        let new_col: usize = if c < 0 {
            0
        } else {
            c as usize
        };
        let new_row: usize = if r < 0 {
            0
        } else {
            r as usize
        };
        self.move_cursor(new_col, new_row);
    }

    /// Save the cursor and the graphics attributes.
    pub fn save_cursor(&mut self)
        ensures
            final(self)@ == grid_step(old(self)@, GridOp::SaveCursor),
            final(self)@ == spec_save_cursor(old(self)@),
    {
        self.saved_cursor = Some(self.cursor);
        self.saved_graphics = Some(self.graphics);
    }

    /// Restore what `save_cursor` saved, each part when it was saved.
    pub fn restore_cursor(&mut self)
        ensures
            final(self)@ == grid_step(old(self)@, GridOp::RestoreCursor),
            final(self)@ == spec_restore_cursor(old(self)@),
    {
        if let Some(cursor) = self.saved_cursor {
            self.cursor = cursor;
        }
        if let Some(graphics) = self.saved_graphics {
            self.graphics = graphics;
        }
    }

    pub fn graphics(&self) -> (g: &GraphicsState)
        ensures
            *g == self@.graphics,
    {
        &self.graphics
    }

    pub fn graphics_mut(&mut self) -> (g: &mut GraphicsState)
        ensures
            final(self)@ == grid_step(old(self)@, GridOp::SetGraphics(*final(g))),
            *g == old(self)@.graphics,
            final(self)@ == (GridView { graphics: *final(g), ..old(self)@ }),
    {
        &mut self.graphics
    }

    pub fn reset_graphics(&mut self)
        ensures
            final(self)@ == grid_step(old(self)@, GridOp::ResetGraphics),
            final(self)@ == (GridView { graphics: default_graphics(), ..old(self)@ }),
    {
        self.graphics = GraphicsState::default();
    }

    fn fresh_screen(cols: usize, n: usize) -> (rows: Vec<GridRow>)
        ensures
            row_views(rows@) == fresh_rows(n as int, cols as int),
    {
        let mut rows: Vec<GridRow> = Vec::new();
        let mut i: usize = 0;
        while i < n
            invariant
                i <= n,
                rows@.len() == i,
                forall|j: int| 0 <= j < i ==> #[trigger] rows@[j]@ == fresh_row(cols as int),
            decreases n - i,
        {
            rows.push(GridRow::new(cols));
            i = i + 1;
        }
        assert(row_views(rows@) =~= fresh_rows(n as int, cols as int));
        rows
    }

    /// Switch to a fresh alternate screen, keeping the main screen aside.
    pub fn enter_alternate_screen(&mut self)
        ensures
            final(self)@ == grid_step(old(self)@, GridOp::EnterAlternate),
            final(self)@ == spec_enter_alternate(old(self)@),
    {
        if self.alternate_screen.is_none() {
            let mut screen = Grid::fresh_screen(self.cols, self.num_rows);
            std::mem::swap(&mut screen, &mut self.rows);
            self.alternate_screen = Some(screen);
        }
    }

    /// Switch back to the main screen.
    pub fn exit_alternate_screen(&mut self)
        ensures
            final(self)@ == grid_step(old(self)@, GridOp::ExitAlternate),
            final(self)@ == spec_exit_alternate(old(self)@),
    {
        if let Some(main_screen) = self.alternate_screen.take() {
            self.rows = main_screen;
        }
    }

    /// The dirty rows with their indices, top to bottom.
    pub fn dirty_rows(&self) -> (d: Vec<(usize, &GridRow)>)
        ensures
            d@.map_values(|p: (usize, &GridRow)| p.0) == dirty_indices(
                self@.rows,
                self@.rows.len() as int,
            ),
            forall|k: int| 0 <= k < d@.len() ==> (#[trigger] d@[k]).1@ == self@.rows[d@[k].0 as int],
    {
        let mut d: Vec<(usize, &GridRow)> = Vec::new();
        let n = self.rows.len();
        let mut i: usize = 0;
        while i < n
            invariant
                i <= n == self.rows@.len(),
                d@.map_values(|p: (usize, &GridRow)| p.0) == dirty_indices(self@.rows, i as int),
                forall|k: int| 0 <= k < d@.len() ==> (#[trigger] d@[k]).1@ == self@.rows[d@[k].0 as int],
            decreases n - i,
        {
            let ghost d0 = d@;
            assert(self@.rows[i as int] == self.rows@[i as int]@);
            if self.rows[i].is_dirty() {
                d.push((i, &self.rows[i]));
                assert(d@.map_values(|p: (usize, &GridRow)| p.0) =~= d0.map_values(
                    |p: (usize, &GridRow)| p.0,
                ).push(i));
            }
            i = i + 1;
        }
        d
    }

    /// Mark every row clean.
    pub fn clear_dirty(&mut self)
        ensures
            final(self)@ == grid_step(old(self)@, GridOp::ClearDirty),
            final(self)@ == (GridView {
                rows: old(self)@.rows.map_values(|r: RowView| RowView { dirty: false, ..r }),
                ..old(self)@
            }),
    {
        let ghost v = self@;
        let n = self.rows.len();
        let mut i: usize = 0;
        assert(v.rows =~= Seq::new(
            n as nat,
            |j: int|
                if j < 0 {
                    RowView { dirty: false, ..v.rows[j] }
                } else {
                    v.rows[j]
                },
        ));
        while i < n
            invariant
                i <= n == self.rows@.len(),
                v.rows.len() == n,
                self@ == (GridView {
                    rows: Seq::new(
                        n as nat,
                        |j: int|
                            if j < i {
                                RowView { dirty: false, ..v.rows[j] }
                            } else {
                                v.rows[j]
                            },
                    ),
                    ..v
                }),
            decreases n - i,
        {
            let ghost r0 = self.rows@;
            self.rows[i].clear_dirty();
            proof {
                lemma_views_update(r0, i as int, self.rows@[i as int]);
                assert(row_views(r0)[i as int] == r0[i as int]@);
                assert(self@.rows == row_views(r0).update(i as int, RowView { dirty: false, ..v.rows[i as int] }));
            }
            i = i + 1;
            proof {
                assert(self@.rows =~= Seq::new(
                    n as nat,
                    |j: int|
                        if j < i {
                            RowView { dirty: false, ..v.rows[j] }
                        } else {
                            v.rows[j]
                        },
                ));
            }
        }
        assert(self@.rows =~= v.rows.map_values(|r: RowView| RowView { dirty: false, ..r }));
    }
}

/// One row offered to the scrollback: kept while the scrollback has room.
pub open spec fn offer_one(sb: Seq<RowView>, r: RowView, max: int) -> Seq<RowView> {
    if sb.len() < max {
        sb.push(r)
    } else {
        sb
    }
}

proof fn lemma_offer_push(sb: Seq<RowView>, moved: Seq<RowView>, r: RowView, max: int)
    ensures
        offer_scrollback(sb, moved.push(r), max) == offer_one(offer_scrollback(sb, moved, max), r, max),
    decreases moved.len(),
{
    if moved.len() == 0 {
        assert(moved.push(r).drop_first() =~= Seq::<RowView>::empty());
        assert(offer_scrollback(offer_one(sb, r, max), Seq::<RowView>::empty(), max) == offer_one(
            sb,
            r,
            max,
        ));
    } else {
        let sb1 = offer_one(sb, moved[0], max);
        assert(moved.push(r).drop_first() =~= moved.drop_first().push(r));
        lemma_offer_push(sb1, moved.drop_first(), r, max);
    }
}

impl Grid {
    /// Resize to `cols` columns and `rows` rows.
    pub fn resize(&mut self, cols: usize, rows: usize)
        ensures
            final(self)@ == grid_step(old(self)@, GridOp::Resize(cols, rows)),
            final(self)@ == spec_resize(old(self)@, cols, rows),
    {
        let ghost v = self@;
        let ghost r = resized_rows(v.rows, cols as int);
        let n0 = self.rows.len();
        let mut i: usize = 0;
        assert(v.rows =~= Seq::new(n0 as nat, |j: int| if j < 0 { r[j] } else { v.rows[j] }));
        while i < n0
            invariant
                i <= n0 == self.rows@.len(),
                v.rows.len() == n0,
                r == resized_rows(v.rows, cols as int),
                self@ == (GridView {
                    rows: Seq::new(n0 as nat, |j: int| if j < i { r[j] } else { v.rows[j] }),
                    ..v
                }),
            decreases n0 - i,
        {
            let ghost r0 = self.rows@;
            self.rows[i].resize(cols);
            proof {
                lemma_views_update(r0, i as int, self.rows@[i as int]);
                assert(row_views(r0)[i as int] == r0[i as int]@);
                assert(self@.rows == row_views(r0).update(i as int, r[i as int]));
            }
            i = i + 1;
            proof {
                assert(self@.rows =~= Seq::new(
                    n0 as nat,
                    |j: int|
                        if j < i {
                            r[j]
                        } else {
                            v.rows[j]
                        },
                ));
            }
        }
        assert(self@.rows =~= r);
        while self.rows.len() < rows
            invariant
                r.len() <= self.rows@.len() <= rows || (self.rows@.len() == r.len() && r.len() > rows),
                self@ == (GridView {
                    rows: r + fresh_rows(self.rows@.len() - r.len(), cols as int),
                    ..v
                }),
            decreases rows - self.rows@.len(),
        {
            let ghost r0 = self.rows@;
            let row = GridRow::new(cols);
            self.rows.push(row);
            proof {
                lemma_views_push(r0, row);
                assert(self@.rows =~= r + fresh_rows(self.rows@.len() - r.len(), cols as int));
            }
        }
        let ghost mid = self@;
        let ghost k0 = self.rows@.len();
        assert(mid.rows.subrange(0, 0) =~= Seq::<RowView>::empty());
        assert(mid.rows.subrange(0, k0 as int) =~= mid.rows);
        while self.rows.len() > rows
            invariant
                k0 == mid.rows.len(),
                rows <= self.rows@.len() <= k0,
                self@ == (GridView {
                    rows: mid.rows.subrange(k0 - self.rows@.len(), k0 as int),
                    scrollback: offer_scrollback(
                        v.scrollback,
                        mid.rows.subrange(0, k0 - self.rows@.len()),
                        v.max_scrollback as int,
                    ),
                    ..mid
                }),
                mid.scrollback == v.scrollback,
                mid.max_scrollback == v.max_scrollback,
            decreases self.rows@.len(),
        {
            let ghost r0 = self.rows@;
            let ghost s0 = self.scrollback@;
            let ghost k = k0 - self.rows@.len();
            let row = self.rows.remove(0);
            proof {
                lemma_views_remove(r0, 0);
                assert(self@.rows =~= mid.rows.subrange(k + 1, k0 as int));
                assert(row_views(r0)[0] == r0[0]@);
                assert(row_views(r0)[0] == mid.rows[k]);
                assert(mid.rows.subrange(0, k + 1) =~= mid.rows.subrange(0, k).push(r0[0]@));
                lemma_offer_push(
                    v.scrollback,
                    mid.rows.subrange(0, k),
                    r0[0]@,
                    v.max_scrollback as int,
                );
            }
            if self.scrollback.len() < self.max_scrollback {
                self.scrollback.push(row);
                proof {
                    lemma_views_push(s0, row);
                }
            }
        }
        self.cols = cols;
        self.num_rows = rows;
        self.scroll_bottom = if rows == 0 {
            0
        } else {
            rows - 1
        };
        let last_col = if cols == 0 {
            0
        } else {
            cols - 1
        };
        let last_row = if rows == 0 {
            0
        } else {
            rows - 1
        };
        if self.cursor.col > last_col {
            self.cursor.col = last_col;
        }
        if self.cursor.row > last_row {
            self.cursor.row = last_row;
        }
        proof {
            let t = spec_resize(v, cols, rows);
            if r.len() < rows {
                assert(t.rows =~= self@.rows);
                assert(r.subrange(0, excess(r.len() as int, rows as int)) =~= Seq::<RowView>::empty());
            } else {
                assert(mid.rows =~= r);
                assert(t.rows =~= self@.rows);
            }
            assert(t.scrollback =~= self@.scrollback);
        }
    }

    /// Write `c` at the cursor with the current attributes and advance the
    /// cursor, wrapping to the next line at the right margin.
    pub fn write_char(&mut self, c: char)
        requires
            old(self)@.cursor.col + 256 <= usize::MAX,
        ensures
            final(self)@ == grid_step(old(self)@, GridOp::WriteChar(c)),
            final(self)@ == spec_write_char(old(self)@, c),
            (' ' <= c <= '~') ==> advance_of(c) == 1,
            (c < ' ' || ('\u{7f}' <= c < '\u{a0}')) ==> advance_of(c) == 1,
    {
        let ghost v = self@;
        let col = self.cursor.col;
        let row = self.cursor.row;
        let char_width = match char_width(c) {
            Some(w) => w,
            None => 1,
        };
        let fg = self.graphics.fg;
        let bg = self.graphics.bg;
        let flags = self.graphics.flags;
        let underline_color = self.graphics.underline_color;
        if let Some(cell) = self.cell_mut(col, row) {
            cell.c = c;
            cell.fg = fg;
            cell.bg = bg;
            cell.flags = flags;
            cell.underline_color = underline_color;
            if char_width > 1 {
                cell.flags.insert(CellFlags::WIDE);
            }
        }
        let ghost v1 = self@;
        if char_width > 1 && col + 1 < self.cols {
            if let Some(spacer) = self.cell_mut(col + 1, row) {
                spacer.c = ' ';
                spacer.flags = CellFlags { bits: CellFlags::WIDE_SPACER };
            }
        }
        self.cursor.col = self.cursor.col + char_width;
        if self.cursor.col >= self.cols && self.auto_wrap {
            self.cursor.col = 0;
            self.linefeed();
        }
    }
}

/// After a resize the grid has exactly the requested dimensions: that many
/// rows, each that many cells wide, and the cursor inside them.
pub proof fn law_resize_dimensions(v: GridView, cols: usize, rows: usize)
    ensures
        spec_resize(v, cols, rows).cols == cols,
        spec_resize(v, cols, rows).num_rows == rows,
        spec_resize(v, cols, rows).rows.len() == rows,
        forall|i: int|
            0 <= i < rows ==> (#[trigger] spec_resize(v, cols, rows).rows[i]).cells.len() == cols,
        cols > 0 ==> spec_resize(v, cols, rows).cursor.col < cols,
        rows > 0 ==> spec_resize(v, cols, rows).cursor.row < rows,
{
    let r = resized_rows(v.rows, cols as int);
    let t = spec_resize(v, cols, rows);
    assert forall|i: int| 0 <= i < rows implies (#[trigger] t.rows[i]).cells.len() == cols by {
        if r.len() < rows {
            if i >= r.len() {
                assert(t.rows[i] == fresh_rows(rows - r.len(), cols as int)[i - r.len()]);
            }
        }
    }
}

/// The column a tab moves the cursor to: the next multiple of 8, but no
/// further than the last column (column 0 on a grid without columns).
pub open spec fn tab_stop(v: GridView) -> usize {
    let next = (v.cursor.col / 8 + 1) * 8;
    let last: int = if v.cols == 0 {
        0
    } else {
        v.cols - 1
    };
    (if next < last {
        next
    } else {
        last
    }) as usize
}

/// A call that changes a grid, with what it is given; for the calls that
/// hand out a part of the grid to change, the value left there.
pub enum GridOp {
    SetCell(usize, usize, Cell),
    SetRow(usize, RowView),
    SetCursor(Cursor),
    SetGraphics(GraphicsState),
    ScrollUp(usize),
    ScrollDown(usize),
    Linefeed,
    CarriageReturn,
    Backspace,
    Tab,
    Clear,
    ClearBelow,
    ClearAbove,
    ClearLine,
    ClearLineRight,
    ClearLineLeft,
    MoveCursor(usize, usize),
    SaveCursor,
    RestoreCursor,
    ResetGraphics,
    EnterAlternate,
    ExitAlternate,
    ClearDirty,
    Resize(usize, usize),
    WriteChar(char),
}

/// The grid after one call, as that call's contract states it.
pub open spec fn grid_step(v: GridView, op: GridOp) -> GridView {
    match op {
        GridOp::SetCell(col, row, cell) => GridView { rows: touch_cell(v.rows, row as int, col as int, cell), ..v },
        GridOp::SetRow(row, r) => if row < v.rows.len() {
            GridView { rows: v.rows.update(row as int, r), ..v }
        } else {
            v
        },
        GridOp::SetCursor(c) => GridView { cursor: c, ..v },
        GridOp::SetGraphics(g) => GridView { graphics: g, ..v },
        GridOp::ScrollUp(n) => scroll_up_n(v, n as nat),
        GridOp::ScrollDown(n) => scroll_down_n(v, n as nat),
        GridOp::Linefeed => spec_linefeed(v),
        GridOp::CarriageReturn => GridView { cursor: Cursor { col: 0, ..v.cursor }, ..v },
        GridOp::Backspace => GridView {
            cursor: Cursor {
                col: if v.cursor.col > 0 {
                    (v.cursor.col - 1) as usize
                } else {
                    0
                },
                ..v.cursor
            },
            ..v
        },
        GridOp::Tab => GridView { cursor: Cursor { col: tab_stop(v), ..v.cursor }, ..v },
        GridOp::Clear => spec_clear(v),
        GridOp::ClearBelow => spec_clear_below(v),
        GridOp::ClearAbove => spec_clear_above(v),
        GridOp::ClearLine => GridView {
            rows: map_row(v.rows, v.cursor.row as int, cleared_row(v.rows[v.cursor.row as int])),
            ..v
        },
        GridOp::ClearLineRight => GridView {
            rows: map_row(v.rows, v.cursor.row as int, row_cleared_from(v.rows[v.cursor.row as int], v.cursor.col as int)),
            ..v
        },
        GridOp::ClearLineLeft => GridView {
            rows: map_row(v.rows, v.cursor.row as int, row_cleared_to(v.rows[v.cursor.row as int], v.cursor.col as int)),
            ..v
        },
        GridOp::MoveCursor(col, row) => spec_move_cursor(v, col, row),
        GridOp::SaveCursor => spec_save_cursor(v),
        GridOp::RestoreCursor => spec_restore_cursor(v),
        GridOp::ResetGraphics => GridView { graphics: default_graphics(), ..v },
        GridOp::EnterAlternate => spec_enter_alternate(v),
        GridOp::ExitAlternate => spec_exit_alternate(v),
        GridOp::ClearDirty => GridView { rows: v.rows.map_values(|r: RowView| RowView { dirty: false, ..r }), ..v },
        GridOp::Resize(cols, rows) => spec_resize(v, cols, rows),
        GridOp::WriteChar(c) => spec_write_char(v, c),
    }
}

/// The grid after a sequence of calls, one after the other.
pub open spec fn run_ops(v: GridView, ops: Seq<GridOp>) -> GridView
    decreases ops.len(),
{
    if ops.len() == 0 {
        v
    } else {
        grid_step(run_ops(v, ops.drop_last()), ops.last())
    }
}

proof fn lemma_scroll_keeps_saved(v: GridView, n: nat)
    ensures
        scroll_up_n(v, n).alternate == v.alternate,
        scroll_up_n(v, n).saved_cursor == v.saved_cursor,
        scroll_up_n(v, n).saved_graphics == v.saved_graphics,
        scroll_down_n(v, n).alternate == v.alternate,
        scroll_down_n(v, n).saved_cursor == v.saved_cursor,
        scroll_down_n(v, n).saved_graphics == v.saved_graphics,
    decreases n,
{
    if n > 0 {
        lemma_scroll_keeps_saved(v, (n - 1) as nat);
    }
}

/// Every call but entering and leaving the alternate screen keeps the
/// saved primary screen, and every call but saving keeps the saved cursor
/// and attributes.
proof fn lemma_step_keeps_saved(v: GridView, op: GridOp)
    ensures
        !(op is EnterAlternate) && !(op is ExitAlternate) ==> grid_step(v, op).alternate == v.alternate,
        op is EnterAlternate && v.alternate is Some ==> grid_step(v, op) == v,
        !(op is SaveCursor) ==> grid_step(v, op).saved_cursor == v.saved_cursor && grid_step(v, op).saved_graphics
            == v.saved_graphics,
{
    lemma_scroll_keeps_saved(v, 1);
    match op {
        GridOp::ScrollUp(n) => lemma_scroll_keeps_saved(v, n as nat),
        GridOp::ScrollDown(n) => lemma_scroll_keeps_saved(v, n as nat),
        GridOp::WriteChar(c) => {
            let w = advance_of(c);
            let col = v.cursor.col;
            let row = v.cursor.row;
            let rows1 = touch_cell(v.rows, row as int, col as int, written_cell(c, v.graphics, w));
            let rows2 = if w > 1 && col + 1 < v.cols && (row as int) < rows1.len() && col + 1
                < rows1[row as int].cells.len() {
                touch_cell(rows1, row as int, col + 1, spacer_of(rows1[row as int].cells[col + 1]))
            } else if w > 1 && col + 1 < v.cols {
                touch_cell(rows1, row as int, col + 1, blank_cell())
            } else {
                rows1
            };
            let v1 = GridView { rows: rows2, cursor: Cursor { col: (col + w) as usize, ..v.cursor }, ..v };
            lemma_scroll_keeps_saved(GridView { cursor: Cursor { col: 0, ..v1.cursor }, ..v1 }, 1);
        },
        GridOp::Linefeed => {},
        _ => {},
    }
}

/// However many calls come between, as long as none leaves the alternate
/// screen, leaving it gives back the screen that was shown when it was
/// entered (entering again while in it changes nothing); leaving it when
/// not in it changes nothing.
pub proof fn law_alternate_screen_restored(v: GridView, ops: Seq<GridOp>)
    requires
        v.alternate is None,
        forall|i: int| 0 <= i < ops.len() ==> !(#[trigger] ops[i] is ExitAlternate),
    ensures
        run_ops(spec_enter_alternate(v), ops).alternate == Some(v.rows),
        spec_exit_alternate(run_ops(spec_enter_alternate(v), ops)).rows == v.rows,
        spec_exit_alternate(run_ops(spec_enter_alternate(v), ops)).alternate is None,
        spec_exit_alternate(v) == v,
    decreases ops.len(),
{
    if ops.len() > 0 {
        assert forall|i: int| 0 <= i < ops.drop_last().len() implies !(#[trigger] ops.drop_last()[i] is ExitAlternate) by {
            assert(ops.drop_last()[i] == ops[i]);
        }
        law_alternate_screen_restored(v, ops.drop_last());
        assert(!(ops[ops.len() - 1] is ExitAlternate));
        lemma_step_keeps_saved(run_ops(spec_enter_alternate(v), ops.drop_last()), ops.last());
    }
}

/// However many calls come between, as long as none saves again,
/// restoring puts back the cursor and the graphics attributes of the
/// save; with nothing saved, restoring changes nothing.
pub proof fn law_restore_cursor_after(v: GridView, ops: Seq<GridOp>)
    requires
        forall|i: int| 0 <= i < ops.len() ==> !(#[trigger] ops[i] is SaveCursor),
    ensures
        run_ops(spec_save_cursor(v), ops).saved_cursor == Some(v.cursor),
        run_ops(spec_save_cursor(v), ops).saved_graphics == Some(v.graphics),
        spec_restore_cursor(run_ops(spec_save_cursor(v), ops)).cursor == v.cursor,
        spec_restore_cursor(run_ops(spec_save_cursor(v), ops)).graphics == v.graphics,
        spec_restore_cursor(run_ops(spec_save_cursor(v), ops)).rows == run_ops(spec_save_cursor(v), ops).rows,
        v.saved_cursor is None && v.saved_graphics is None ==> spec_restore_cursor(v) == v,
    decreases ops.len(),
{
    if ops.len() > 0 {
        assert forall|i: int| 0 <= i < ops.drop_last().len() implies !(#[trigger] ops.drop_last()[i] is SaveCursor) by {
            assert(ops.drop_last()[i] == ops[i]);
        }
        law_restore_cursor_after(v, ops.drop_last());
        assert(!(ops[ops.len() - 1] is SaveCursor));
        lemma_step_keeps_saved(run_ops(spec_save_cursor(v), ops.drop_last()), ops.last());
    }
}

/// Leaving the alternate screen gives back the screen that was shown when
/// it was entered.
pub proof fn law_alternate_screen_round_trip(v: GridView)
    requires
        v.alternate is None,
    ensures
        spec_exit_alternate(spec_enter_alternate(v)) == v,
{
}

/// Restoring right after saving leaves the grid as it was, save slots
/// included.
pub proof fn law_save_restore_round_trip(v: GridView)
    ensures
        spec_restore_cursor(spec_save_cursor(v)) == spec_save_cursor(v),
        spec_restore_cursor(spec_save_cursor(v)).cursor == v.cursor,
        spec_restore_cursor(spec_save_cursor(v)).graphics == v.graphics,
{
}

/// Scrolling never changes the number of rows on screen.
pub proof fn law_scroll_keeps_row_count(v: GridView, n: nat)
    ensures
        scroll_up_n(v, n).rows.len() == v.rows.len(),
        scroll_down_n(v, n).rows.len() == v.rows.len(),
    decreases n,
{
    if n > 0 {
        law_scroll_keeps_row_count(v, (n - 1) as nat);
    }
}

/// Clearing blanks every cell, keeps every row's width and homes the cursor.
pub proof fn law_clear_blanks_screen(v: GridView)
    ensures
        spec_clear(v).rows.len() == v.rows.len(),
        forall|i: int, j: int|
            0 <= i < v.rows.len() && 0 <= j < v.rows[i].cells.len() ==> (
            #[trigger] spec_clear(v).rows[i].cells[j]) == blank_cell(),
        forall|i: int|
            0 <= i < v.rows.len() ==> (#[trigger] spec_clear(v).rows[i]).cells.len() == v.rows[i].cells.len(),
        spec_clear(v).cursor.col == 0 && spec_clear(v).cursor.row == 0,
{
}

/// Absolute cursor moves always land inside a non-empty grid.
pub proof fn law_move_cursor_in_bounds(v: GridView, col: usize, row: usize)
    requires
        v.cols > 0,
        v.num_rows > 0,
    ensures
        spec_move_cursor(v, col, row).cursor.col < v.cols,
        spec_move_cursor(v, col, row).cursor.row < v.num_rows,
        col < v.cols ==> spec_move_cursor(v, col, row).cursor.col == col,
        row < v.num_rows ==> spec_move_cursor(v, col, row).cursor.row == row,
{
}

/// A character written where it fits lands under the cursor with the
/// current attributes, and the cursor advances by its width.
pub proof fn law_written_char_lands_at_cursor(v: GridView, c: char)
    requires
        v.cursor.row < v.rows.len(),
        v.cursor.col < v.rows[v.cursor.row as int].cells.len(),
        v.cursor.col + advance_of(c) < v.cols,
    ensures
        spec_write_char(v, c).rows[v.cursor.row as int].cells[v.cursor.col as int] == written_cell(
            c,
            v.graphics,
            advance_of(c),
        ),
        spec_write_char(v, c).cursor.col == v.cursor.col + advance_of(c),
        spec_write_char(v, c).cursor.row == v.cursor.row,
{
}
} // verus!
