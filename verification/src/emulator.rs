//! The terminal: a grid driven by the escape-sequence parser, with damage
//! tracking and recovery from an invalid state (a soft reset first, a hard
//! reset after too many errors in a row).

use vstd::prelude::*;
use crate::grid::{default_graphics, spec_new_grid, spec_resize, Cursor, CursorShape, Grid, GridView};
use crate::text::{append_str, decimal, u64_to_decimal};

verus! {

/// The errors of the terminal.
#[derive(Debug, Clone, PartialEq, Eq)]
pub enum TerminalError {
    RendererInit(String),
    FontLoad(String),
    Gpu(String),
    Parse { position: usize, message: String },
    /// An I/O error (its message)
    Io(String),
    InvalidState(String),
    RecoveryFailed { attempts: u32, reason: String },
}

/// The message of a terminal error.
pub open spec fn terminal_error_message(e: TerminalError) -> Seq<char> {
    match e {
        TerminalError::RendererInit(s) => "Renderer initialization failed: "@ + s@,
        TerminalError::FontLoad(s) => "Font loading failed: "@ + s@,
        TerminalError::Gpu(s) => "GPU error: "@ + s@,
        TerminalError::Parse { position, message } => "Parse error at position "@ + decimal(position as nat) + ": "@
            + message@,
        TerminalError::Io(s) => "IO error: "@ + s@,
        TerminalError::InvalidState(s) => "Terminal state invalid: "@ + s@,
        TerminalError::RecoveryFailed { attempts, reason } => "Recovery failed after "@ + decimal(attempts as nat)
            + " attempts: "@ + reason@,
    }
}

impl TerminalError {
    /// The message shown for this error.
    pub fn message(&self) -> (m: String)
        ensures
            m@ == terminal_error_message(*self),
    {
        match self {
            TerminalError::RendererInit(s) => {
                let mut m = "Renderer initialization failed: ".to_owned();
                append_str(&mut m, s.as_str());
                m
            },
            TerminalError::FontLoad(s) => {
                let mut m = "Font loading failed: ".to_owned();
                append_str(&mut m, s.as_str());
                m
            },
            TerminalError::Gpu(s) => {
                let mut m = "GPU error: ".to_owned();
                append_str(&mut m, s.as_str());
                m
            },
            TerminalError::Parse { position, message } => {
                let mut m = "Parse error at position ".to_owned();
                let p = u64_to_decimal(*position as u64);
                append_str(&mut m, p.as_str());
                append_str(&mut m, ": ");
                append_str(&mut m, message.as_str());
                m
            },
            TerminalError::Io(s) => {
                let mut m = "IO error: ".to_owned();
                append_str(&mut m, s.as_str());
                m
            },
            TerminalError::InvalidState(s) => {
                let mut m = "Terminal state invalid: ".to_owned();
                append_str(&mut m, s.as_str());
                m
            },
            TerminalError::RecoveryFailed { attempts, reason } => {
                let mut m = "Recovery failed after ".to_owned();
                let a = u64_to_decimal(*attempts as u64);
                append_str(&mut m, a.as_str());
                append_str(&mut m, " attempts: ");
                append_str(&mut m, reason.as_str());
                m
            },
        }
    }
}

/// The health of the terminal.
#[derive(Debug, Clone, Copy, PartialEq, Eq, Structural)]
pub enum TerminalHealth {
    /// Operating normally
    Healthy,
    /// Recovered from an error
    Recovered,
    /// Degraded but working
    Degraded,
    /// Needs a reset
    NeedsReset,
}

/// Terminal size in cells, and the size of a cell in pixels.
#[derive(Debug, Clone, Copy, PartialEq, Eq, Structural)]
pub struct TerminalSize {
    pub cols: u16,
    pub rows: u16,
    pub cell_width: u16,
    pub cell_height: u16,
}

impl TerminalSize {
    pub fn new(cols: u16, rows: u16, cell_width: u16, cell_height: u16) -> (s: Self)
        ensures
            s == (TerminalSize { cols, rows, cell_width, cell_height }),
    {
        TerminalSize { cols, rows, cell_width, cell_height }
    }

    /// Width in pixels.
    pub fn width_px(&self) -> (w: u32)
        ensures
            w == self.cols * self.cell_width,
    {
        proof {
            vstd::arithmetic::mul::lemma_mul_upper_bound(
                self.cols as int,
                0xffff,
                self.cell_width as int,
                0xffff,
            );
        }
        self.cols as u32 * self.cell_width as u32
    }

    /// Height in pixels.
    pub fn height_px(&self) -> (h: u32)
        ensures
            h == self.rows * self.cell_height,
    {
        proof {
            vstd::arithmetic::mul::lemma_mul_upper_bound(
                self.rows as int,
                0xffff,
                self.cell_height as int,
                0xffff,
            );
        }
        self.rows as u32 * self.cell_height as u32
    }
}

impl Default for TerminalSize {
    /// 80 columns by 24 rows of 10 by 20 pixel cells.
    fn default() -> (s: Self)
        ensures
            s == (TerminalSize { cols: 80, rows: 24, cell_width: 10, cell_height: 20 }),
    {
        TerminalSize { cols: 80, rows: 24, cell_width: 10, cell_height: 20 }
    }
}

/// A damaged region, in cells.
#[derive(Debug, Clone, Copy, PartialEq, Eq, Structural)]
pub struct DamageRect {
    pub x: u16,
    pub y: u16,
    pub width: u16,
    pub height: u16,
}

/// How many errors in a row the terminal takes before a hard reset.
pub const MAX_ERRORS: u32 = 10;

/// What is wrong with a grid for a terminal of `size`, if anything: the
/// cursor out of the grid, or the grid not of the terminal's size.
pub open spec fn state_problem(v: GridView, size: TerminalSize) -> Option<Seq<char>> {
    if v.cursor.col >= v.cols {
        Some(
            "Cursor column "@ + decimal(v.cursor.col as nat) + " out of bounds (max "@ + decimal(max_index(v.cols) as nat)
                + ")"@,
        )
    } else if v.cursor.row >= v.num_rows {
        Some(
            "Cursor row "@ + decimal(v.cursor.row as nat) + " out of bounds (max "@ + decimal(max_index(v.num_rows) as nat)
                + ")"@,
        )
    } else if size.cols != v.cols || size.rows != v.num_rows {
        Some("Grid dimensions don't match terminal size"@)
    } else {
        None
    }
}

/// The largest index below `n`, as a subtraction of one that wraps around
/// gives it: the largest `usize` for no index at all.
pub open spec fn max_index(n: usize) -> usize {
    if n == 0 {
        usize::MAX
    } else {
        (n - 1) as usize
    }
}

/// The largest index below `n` (the largest `usize` for no index at all).
fn max_index_of(n: usize) -> (r: usize)
    ensures
        r == max_index(n),
{
    if n == 0 {
        usize::MAX
    } else {
        n - 1
    }
}

/// The cursor after a soft reset: shown, a blinking block, brought back
/// into the grid.
pub open spec fn soft_reset_cursor(c: Cursor, cols: usize, rows: usize) -> Cursor {
    Cursor {
        col: if c.col >= cols {
            if cols == 0 {
                0
            } else {
                (cols - 1) as usize
            }
        } else {
            c.col
        },
        row: if c.row >= rows {
            if rows == 0 {
                0
            } else {
                (rows - 1) as usize
            }
        } else {
            c.row
        },
        shape: CursorShape::Block,
        visible: true,
        blinking: true,
    }
}

/// The terminal: its grid, size, damage and health.
pub struct Terminal {
    grid: Grid,
    size: TerminalSize,
    damage: Vec<DamageRect>,
    full_damage: bool,
    health: TerminalHealth,
    error_count: u32,
    max_errors: u32,
}

impl Terminal {
    pub closed spec fn grid_view(self) -> GridView {
        self.grid@
    }

    pub closed spec fn size_of(self) -> TerminalSize {
        self.size
    }

    pub closed spec fn damage_of(self) -> Seq<DamageRect> {
        self.damage@
    }

    pub closed spec fn fully_damaged(self) -> bool {
        self.full_damage
    }

    pub closed spec fn health_of(self) -> TerminalHealth {
        self.health
    }

    pub closed spec fn errors(self) -> u32 {
        self.error_count
    }

    /// How many errors in a row cause a hard reset.
    pub closed spec fn error_limit(self) -> u32 {
        self.max_errors
    }

    /// The error count stays below the limit: reaching it resets.
    pub closed spec fn well_formed(self) -> bool {
        self.max_errors == MAX_ERRORS && self.error_count < self.max_errors
    }

    /// A healthy terminal of `size` with a blank grid, all of it to draw.
    pub fn new(size: TerminalSize) -> (t: Self)
        ensures
            t.well_formed(),
            t.grid_view() == spec_new_grid(size.cols as usize, size.rows as usize),
            t.size_of() == size,
            t.damage_of().len() == 0,
            t.fully_damaged(),
            t.health_of() == TerminalHealth::Healthy,
            t.errors() == 0,
    {
        Terminal {
            grid: Grid::new(size.cols as usize, size.rows as usize),
            size,
            damage: Vec::new(),
            full_damage: true,
            health: TerminalHealth::Healthy,
            error_count: 0,
            max_errors: MAX_ERRORS,
        }
    }

    /// The bookkeeping after bytes were processed: everything is to be
    /// drawn, and a run of errors ends, a degraded terminal counting as
    /// recovered.
    pub fn processed(&mut self)
        requires
            old(self).well_formed(),
        ensures
            final(self).well_formed(),
            final(self).grid_view() == old(self).grid_view(),
            final(self).size_of() == old(self).size_of(),
            final(self).damage_of() == old(self).damage_of(),
            final(self).fully_damaged(),
            final(self).errors() == 0,
            final(self).health_of() == if old(self).errors() > 0 && old(self).health_of()
                == TerminalHealth::Degraded {
                TerminalHealth::Recovered
            } else {
                old(self).health_of()
            },
    {
        self.full_damage = true;
        if self.error_count > 0 {
            self.error_count = 0;
            if self.health == TerminalHealth::Degraded {
                self.health = TerminalHealth::Recovered;
            }
        }
    }

    /// Checks the state before processing: when it is invalid, counts the
    /// error and resets, hard (a fresh grid) once the errors in a row reach
    /// the limit, else soft. Whether a hard reset took place.
    pub fn recover_if_invalid(&mut self) -> (hard: bool)
        requires
            old(self).well_formed(),
        ensures
            final(self).well_formed(),
            final(self).size_of() == old(self).size_of(),
            state_problem(old(self).grid_view(), old(self).size_of()) is None ==> !hard && *final(self) == *old(self),
            state_problem(old(self).grid_view(), old(self).size_of()) is Some ==> {
                if old(self).errors() + 1 >= MAX_ERRORS {
                    &&& hard
                    &&& final(self).grid_view() == spec_new_grid(
                        old(self).size_of().cols as usize,
                        old(self).size_of().rows as usize,
                    )
                    &&& final(self).damage_of().len() == 0
                    &&& final(self).fully_damaged()
                    &&& final(self).errors() == 0
                    &&& final(self).health_of() == TerminalHealth::Recovered
                } else {
                    &&& !hard
                    &&& final(self).grid_view() == soft_reset_view(old(self).grid_view())
                    &&& final(self).damage_of() == old(self).damage_of()
                    &&& final(self).fully_damaged()
                    &&& final(self).errors() == old(self).errors() + 1
                    &&& final(self).health_of() == TerminalHealth::Degraded
                }
            },
    {
        if self.validate_state().is_err() {
            self.error_count = self.error_count + 1;
            if self.error_count >= self.max_errors {
                self.hard_reset();
                self.health = TerminalHealth::Recovered;
                true
            } else {
                self.soft_reset();
                self.health = TerminalHealth::Degraded;
                false
            }
        } else {
            false
        }
    }

    /// `Ok` when the cursor is inside the grid and the grid has the
    /// terminal's size, else the problem.
    pub fn validate_state(&self) -> (r: Result<(), TerminalError>)
        ensures
            match state_problem(self.grid_view(), self.size_of()) {
                None => r is Ok,
                Some(p) => match r {
                    Err(TerminalError::InvalidState(m)) => m@ == p,
                    _ => false,
                },
            },
    {
        let (cols, rows) = self.grid.dims();
        let cursor = self.grid.cursor();
        if cursor.col >= cols {
            let mut m = "Cursor column ".to_owned();
            append_str(&mut m, u64_to_decimal(cursor.col as u64).as_str());
            append_str(&mut m, " out of bounds (max ");
            append_str(&mut m, u64_to_decimal(max_index_of(cols) as u64).as_str());
            append_str(&mut m, ")");
            return Err(TerminalError::InvalidState(m));
        }
        if cursor.row >= rows {
            let mut m = "Cursor row ".to_owned();
            append_str(&mut m, u64_to_decimal(cursor.row as u64).as_str());
            append_str(&mut m, " out of bounds (max ");
            append_str(&mut m, u64_to_decimal(max_index_of(rows) as u64).as_str());
            append_str(&mut m, ")");
            return Err(TerminalError::InvalidState(m));
        }
        if self.size.cols as usize != cols || self.size.rows as usize != rows {
            return Err(TerminalError::InvalidState("Grid dimensions don't match terminal size".to_owned()));
        }
        Ok(())
    }

    /// Resets the graphics state and brings the cursor back, shown as a
    /// blinking block, inside the grid.
    pub fn soft_reset(&mut self)
        ensures
            final(self).grid_view() == soft_reset_view(old(self).grid_view()),
            final(self).size_of() == old(self).size_of(),
            final(self).damage_of() == old(self).damage_of(),
            final(self).fully_damaged(),
            final(self).health_of() == old(self).health_of(),
            final(self).errors() == old(self).errors(),
            final(self).well_formed() == old(self).well_formed(),
    {
        self.grid.reset_graphics();
        let (cols, rows) = self.grid.dims();
        let cursor = self.grid.cursor_mut();
        cursor.visible = true;
        cursor.shape = CursorShape::Block;
        cursor.blinking = true;
        if cursor.col >= cols {
            cursor.col = if cols == 0 {
                0
            } else {
                cols - 1
            };
        }
        if cursor.row >= rows {
            cursor.row = if rows == 0 {
                0
            } else {
                rows - 1
            };
        }
        self.full_damage = true;
    }

    /// A fresh grid of the terminal's size, no damage but all of it to
    /// draw, no errors, healthy.
    pub fn hard_reset(&mut self)
        ensures
            final(self).grid_view() == spec_new_grid(old(self).size_of().cols as usize, old(self).size_of().rows as usize),
            final(self).size_of() == old(self).size_of(),
            final(self).damage_of().len() == 0,
            final(self).fully_damaged(),
            final(self).errors() == 0,
            final(self).health_of() == TerminalHealth::Healthy,
            old(self).error_limit() == MAX_ERRORS ==> final(self).well_formed(),
    {
        self.grid = Grid::new(self.size.cols as usize, self.size.rows as usize);
        self.damage.clear();
        self.full_damage = true;
        self.error_count = 0;
        self.health = TerminalHealth::Healthy;
    }

    pub fn health(&self) -> (h: TerminalHealth)
        ensures
            h == self.health_of(),
    {
        self.health
    }

    /// Whether the terminal asks for a reset.
    pub fn needs_reset(&self) -> (b: bool)
        ensures
            b == (self.health_of() == TerminalHealth::NeedsReset),
    {
        self.health == TerminalHealth::NeedsReset
    }

    /// Takes the new size and resizes the grid to it; all of it is to be
    /// drawn.
    pub fn resize(&mut self, size: TerminalSize)
        ensures
            final(self).size_of() == size,
            final(self).grid_view() == spec_resize(old(self).grid_view(), size.cols as usize, size.rows as usize),
            final(self).damage_of() == old(self).damage_of(),
            final(self).fully_damaged(),
            final(self).health_of() == old(self).health_of(),
            final(self).errors() == old(self).errors(),
            final(self).well_formed() == old(self).well_formed(),
    {
        self.size = size;
        self.grid.resize(size.cols as usize, size.rows as usize);
        self.full_damage = true;
    }

    pub fn grid(&self) -> (g: &Grid)
        ensures
            g@ == self.grid_view(),
    {
        &self.grid
    }

    pub fn grid_mut(&mut self) -> (g: &mut Grid)
        ensures
            (*g)@ == old(self).grid_view(),
            final(self).grid_view() == (*final(g))@,
            final(self).size_of() == old(self).size_of(),
            final(self).damage_of() == old(self).damage_of(),
            final(self).fully_damaged() == old(self).fully_damaged(),
            final(self).health_of() == old(self).health_of(),
            final(self).errors() == old(self).errors(),
            final(self).well_formed() == old(self).well_formed(),
    {
        &mut self.grid
    }

    pub fn size(&self) -> (s: TerminalSize)
        ensures
            s == self.size_of(),
    {
        self.size
    }

    /// Whether anything is to be drawn.
    pub fn needs_redraw(&self) -> (b: bool)
        ensures
            b == (self.fully_damaged() || self.damage_of().len() > 0),
    {
        self.full_damage || self.damage.len() > 0
    }

    /// Nothing is left to draw.
    pub fn clear_damage(&mut self)
        ensures
            final(self).damage_of().len() == 0,
            !final(self).fully_damaged(),
            final(self).grid_view() == old(self).grid_view(),
            final(self).size_of() == old(self).size_of(),
            final(self).health_of() == old(self).health_of(),
            final(self).errors() == old(self).errors(),
            final(self).well_formed() == old(self).well_formed(),
    {
        self.damage.clear();
        self.full_damage = false;
    }

    pub fn cursor(&self) -> (c: &Cursor)
        ensures
            *c == self.grid_view().cursor,
    {
        self.grid.cursor()
    }

    pub fn error_count(&self) -> (n: u32)
        ensures
            n == self.errors(),
    {
        self.error_count
    }
}

/// The grid after a soft reset.
pub open spec fn soft_reset_view(v: GridView) -> GridView {
    GridView { graphics: default_graphics(), cursor: soft_reset_cursor(v.cursor, v.cols, v.num_rows), ..v }
}

/// A terminal never counts as many errors in a row as its limit: the error
/// that reaches the limit resets the count with a hard reset.
pub proof fn law_errors_stay_below_limit(t: Terminal)
    requires
        t.well_formed(),
    ensures
        t.errors() < MAX_ERRORS,
{
}

} // verus!
