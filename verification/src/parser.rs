//! What the escape-sequence parser's callbacks do to the grid: printing,
//! C0 controls, CSI, ESC and SGR handling. The byte-level state machine
//! that recognises the sequences drives these functions.

use crate::cell::{CellFlags, Color, Rgb};
use crate::grid::{
    cleared_row, default_graphics, map_row, row_cleared_from, row_cleared_to, scroll_down_n, scroll_up_n,
    spec_clear, spec_clear_above, spec_clear_below, spec_enter_alternate, spec_exit_alternate,
    spec_linefeed, spec_move_cursor, spec_restore_cursor, spec_save_cursor, spec_write_char, Cursor,
    GraphicsState, Grid, GridView,
};
use vstd::prelude::*;

verus! {

/// `params[idx]`, or `default` past the end.
pub open spec fn param_or(params: Seq<u16>, idx: int, default: u16) -> u16 {
    if 0 <= idx < params.len() {
        params[idx]
    } else {
        default
    }
}

/// A count parameter: `params[0]` (default 1), at least 1.
pub open spec fn count_param(params: Seq<u16>) -> u16 {
    let p = param_or(params, 0, 1);
    if p < 1 {
        1
    } else {
        p
    }
}

/// A one-based position parameter made zero-based.
pub open spec fn position_param(params: Seq<u16>, idx: int) -> usize {
    let p = param_or(params, idx, 1);
    if p == 0 {
        0
    } else {
        (p - 1) as usize
    }
}

/// The color of an extended-color SGR (38 or 48) at `i`, with the index of
/// its last parameter.
pub open spec fn extended_color(params: Seq<u16>, i: int) -> Option<(Color, int)> {
    if i + 1 >= params.len() {
        None
    } else if params[i + 1] == 5 {
        if i + 2 < params.len() {
            Some((Color::Indexed(params[i + 2] as u8), i + 2))
        } else {
            None
        }
    } else if params[i + 1] == 2 {
        if i + 4 < params.len() {
            Some(
                (
                    Color::Rgb(
                        Rgb { r: params[i + 2] as u8, g: params[i + 3] as u8, b: params[i + 4] as u8 },
                    ),
                    i + 4,
                ),
            )
        } else {
            None
        }
    } else {
        None
    }
}

/// Flags with `mask` set.
pub open spec fn with_flag(g: GraphicsState, mask: u16) -> GraphicsState {
    GraphicsState { flags: CellFlags { bits: g.flags.bits | mask }, ..g }
}

/// Flags with `mask` cleared.
pub open spec fn without_flag(g: GraphicsState, mask: u16) -> GraphicsState {
    GraphicsState { flags: CellFlags { bits: g.flags.bits & !mask }, ..g }
}

/// The effect of the SGR parameter at `i` on the attributes, with the
/// index of the last parameter it used.
pub open spec fn sgr_step(g: GraphicsState, params: Seq<u16>, i: int) -> (GraphicsState, int) {
    let p = params[i];
    if p == 0 {
        (default_graphics(), i)
    } else if p == 1 {
        (with_flag(g, 0x0001), i)
    } else if p == 2 {
        (with_flag(g, 0x0002), i)
    } else if p == 3 {
        (with_flag(g, 0x0004), i)
    } else if p == 4 {
        let u = with_flag(g, 0x0008);
        if i + 1 < params.len() {
            let q = params[i + 1];
            if q == 0 {
                (without_flag(u, 0x0008), i)
            } else if q == 2 {
                (with_flag(u, 0x0100), i)
            } else if q == 3 {
                (with_flag(u, 0x0200), i)
            } else {
                (u, i)
            }
        } else {
            (u, i)
        }
    } else if p == 5 || p == 6 {
        (with_flag(g, 0x0010), i)
    } else if p == 7 {
        (with_flag(g, 0x0020), i)
    } else if p == 8 {
        (with_flag(g, 0x0040), i)
    } else if p == 9 {
        (with_flag(g, 0x0080), i)
    } else if p == 22 {
        (without_flag(without_flag(g, 0x0001), 0x0002), i)
    } else if p == 23 {
        (without_flag(g, 0x0004), i)
    } else if p == 24 {
        (without_flag(without_flag(without_flag(g, 0x0008), 0x0100), 0x0200), i)
    } else if p == 25 {
        (without_flag(g, 0x0010), i)
    } else if p == 27 {
        (without_flag(g, 0x0020), i)
    } else if p == 28 {
        (without_flag(g, 0x0040), i)
    } else if p == 29 {
        (without_flag(g, 0x0080), i)
    } else if 30 <= p <= 37 {
        (GraphicsState { fg: Color::Indexed((p - 30) as u8), ..g }, i)
    } else if p == 38 {
        match extended_color(params, i) {
            Some((c, j)) => (GraphicsState { fg: c, ..g }, j),
            None => (g, i),
        }
    } else if p == 39 {
        (GraphicsState { fg: Color::Foreground, ..g }, i)
    } else if 40 <= p <= 47 {
        (GraphicsState { bg: Color::Indexed((p - 40) as u8), ..g }, i)
    } else if p == 48 {
        match extended_color(params, i) {
            Some((c, j)) => (GraphicsState { bg: c, ..g }, j),
            None => (g, i),
        }
    } else if p == 49 {
        (GraphicsState { bg: Color::Background, ..g }, i)
    } else if 90 <= p <= 97 {
        (GraphicsState { fg: Color::Indexed((p - 90 + 8) as u8), ..g }, i)
    } else if 100 <= p <= 107 {
        (GraphicsState { bg: Color::Indexed((p - 100 + 8) as u8), ..g }, i)
    } else {
        (g, i)
    }
}

/// The attributes after the SGR parameters from index `i` on.
pub open spec fn sgr_from(g: GraphicsState, params: Seq<u16>, i: int) -> GraphicsState
    decreases params.len() - i,
{
    if i < 0 || i >= params.len() {
        g
    } else {
        let (g1, j) = sgr_step(g, params, i);
        if j < i {
            g1
        } else {
            sgr_from(g1, params, j + 1)
        }
    }
}

/// The grid after an SGR sequence.
pub open spec fn spec_sgr(v: GridView, params: Seq<u16>) -> GridView {
    GridView { graphics: sgr_from(v.graphics, params, 0), ..v }
}

/// The grid after the DEC private modes `params` are set or reset.
pub open spec fn dec_modes_from(v: GridView, params: Seq<u16>, set: bool, i: int) -> GridView
    decreases params.len() - i,
{
    if i < 0 || i >= params.len() {
        v
    } else {
        let m = params[i];
        let v1 = if m == 25 {
            GridView { cursor: Cursor { visible: set, ..v.cursor }, ..v }
        } else if m == 1049 {
            if set {
                spec_enter_alternate(v)
            } else {
                spec_exit_alternate(v)
            }
        } else {
            v
        };
        dec_modes_from(v1, params, set, i + 1)
    }
}

/// The grid after a C0 control character.
pub open spec fn spec_execute(v: GridView, byte: u8) -> GridView {
    if byte == 0x08 {
        GridView {
            cursor: Cursor {
                col: if v.cursor.col > 0 {
                    (v.cursor.col - 1) as usize
                } else {
                    0
                },
                ..v.cursor
            },
            ..v
        }
    } else if byte == 0x09 {
        GridView { cursor: Cursor { col: crate::grid::tab_stop(v), ..v.cursor }, ..v }
    } else if byte == 0x0A || byte == 0x0B || byte == 0x0C {
        spec_linefeed(v)
    } else if byte == 0x0D {
        GridView { cursor: Cursor { col: 0, ..v.cursor }, ..v }
    } else {
        v
    }
}

/// Cursor movement by (`dc`, `dr`) as `move_cursor_relative` does it.
pub open spec fn spec_move_relative(v: GridView, dc: int, dr: int) -> GridView {
    spec_move_cursor(
        v,
        (if v.cursor.col + dc < 0 {
            0
        } else {
            v.cursor.col + dc
        }) as usize,
        (if v.cursor.row + dr < 0 {
            0
        } else {
            v.cursor.row + dr
        }) as usize,
    )
}

/// The grid after a CSI sequence with final character `action`.
pub open spec fn spec_csi(v: GridView, params: Seq<u16>, intermediates: Seq<u8>, action: char) -> GridView {
    let n = count_param(params) as int;
    if action == 'A' {
        spec_move_relative(v, 0, -n)
    } else if action == 'B' {
        spec_move_relative(v, 0, n)
    } else if action == 'C' {
        spec_move_relative(v, n, 0)
    } else if action == 'D' {
        spec_move_relative(v, -n, 0)
    } else if action == 'E' {
        spec_move_relative(GridView { cursor: Cursor { col: 0, ..v.cursor }, ..v }, 0, n)
    } else if action == 'F' {
        spec_move_relative(GridView { cursor: Cursor { col: 0, ..v.cursor }, ..v }, 0, -n)
    } else if action == 'G' {
        spec_move_cursor(v, position_param(params, 0), v.cursor.row)
    } else if action == 'H' || action == 'f' {
        spec_move_cursor(v, position_param(params, 1), position_param(params, 0))
    } else if action == 'J' {
        let p = param_or(params, 0, 0);
        if p == 0 {
            spec_clear_below(v)
        } else if p == 1 {
            spec_clear_above(v)
        } else if p == 2 || p == 3 {
            spec_clear(v)
        } else {
            v
        }
    } else if action == 'K' {
        let p = param_or(params, 0, 0);
        let row = v.cursor.row as int;
        if p == 0 {
            GridView {
                rows: map_row(v.rows, row, row_cleared_from(v.rows[row], v.cursor.col as int)),
                ..v
            }
        } else if p == 1 {
            GridView {
                rows: map_row(v.rows, row, row_cleared_to(v.rows[row], v.cursor.col as int)),
                ..v
            }
        } else if p == 2 {
            GridView { rows: map_row(v.rows, row, cleared_row(v.rows[row])), ..v }
        } else {
            v
        }
    } else if action == 'L' || action == 'T' {
        scroll_down_n(v, n as nat)
    } else if action == 'M' || action == 'S' {
        scroll_up_n(v, n as nat)
    } else if action == 'm' {
        spec_sgr(v, params)
    } else if action == 's' {
        spec_save_cursor(v)
    } else if action == 'u' {
        spec_restore_cursor(v)
    } else if action == 'h' || action == 'l' {
        if intermediates.len() > 0 && intermediates[0] == 63 {
            dec_modes_from(v, params, action == 'h', 0)
        } else {
            v
        }
    } else {
        v
    }
}

/// The grid after an ESC sequence with final byte `byte`.
pub open spec fn spec_esc(v: GridView, intermediates: Seq<u8>, byte: u8) -> GridView {
    if intermediates.len() > 0 {
        v
    } else if byte == 0x37 {
        spec_save_cursor(v)
    } else if byte == 0x38 {
        spec_restore_cursor(v)
    } else if byte == 0x63 {
        GridView { graphics: default_graphics(), ..spec_clear(v) }
    } else if byte == 0x44 {
        spec_linefeed(v)
    } else if byte == 0x4D {
        if v.cursor.row == 0 {
            scroll_down_n(v, 1)
        } else {
            spec_move_relative(v, 0, -1)
        }
    } else if byte == 0x45 {
        spec_linefeed(GridView { cursor: Cursor { col: 0, ..v.cursor }, ..v })
    } else {
        v
    }
}

/// Cursor coordinates small enough for relative moves.
pub open spec fn cursor_movable(v: GridView) -> bool {
    v.cursor.col + 0x10000 <= isize::MAX && v.cursor.row + 0x10000 <= isize::MAX
}

fn param(params: &[u16], idx: usize, default: u16) -> (p: u16)
    ensures
        p == param_or(params@, idx as int, default),
{
    if idx < params.len() {
        params[idx]
    } else {
        default
    }
}

fn count(params: &[u16]) -> (n: u16)
    ensures
        n == count_param(params@),
        n >= 1,
{
    let p = param(params, 0, 1);
    if p < 1 {
        1
    } else {
        p
    }
}

fn position(params: &[u16], idx: usize) -> (p: usize)
    ensures
        p == position_param(params@, idx as int),
{
    let p = param(params, idx, 1);
    if p == 0 {
        0
    } else {
        (p - 1) as usize
    }
}

/// Print a character.
pub fn print(grid: &mut Grid, c: char)
    requires
        old(grid)@.cursor.col + 256 <= usize::MAX,
    ensures
        final(grid)@ == spec_write_char(old(grid)@, c),
{
    grid.write_char(c);
}

/// Carry out a C0 control character: backspace, tab, line feed (LF, VT,
/// FF) or carriage return; others are ignored.
pub fn execute(grid: &mut Grid, byte: u8)
    ensures
        final(grid)@ == spec_execute(old(grid)@, byte),
{
    if byte == 0x08 {
        grid.backspace();
    } else if byte == 0x09 {
        grid.tab();
    } else if byte == 0x0A || byte == 0x0B || byte == 0x0C {
        grid.linefeed();
    } else if byte == 0x0D {
        grid.carriage_return();
    }
}

/// The extended color (256-color or true color) whose `38`/`48` code is at
/// `*i`; on success `*i` moves to its last parameter.
fn parse_extended_color(params: &[u16], i: &mut usize) -> (c: Option<Color>)
    requires
        *old(i) < params@.len(),
    ensures
        match extended_color(params@, *old(i) as int) {
            Some((col, j)) => c == Some(col) && *final(i) == j,
            None => c is None && *final(i) == *old(i),
        },
{
    let k = *i;
    if params.len() - k <= 1 {
        return None;
    }
    if params[k + 1] == 5 {
        if params.len() - k > 2 {
            *i = k + 2;
            Some(Color::Indexed(params[k + 2] as u8))
        } else {
            None
        }
    } else if params[k + 1] == 2 {
        if params.len() - k > 4 {
            let r = params[k + 2] as u8;
            let g = params[k + 3] as u8;
            let b = params[k + 4] as u8;
            *i = k + 4;
            Some(Color::Rgb(Rgb { r, g, b }))
        } else {
            None
        }
    } else {
        None
    }
}

fn sgr_apply_one(g: &mut GraphicsState, params: &[u16], i: &mut usize)
    requires
        *old(i) < params@.len(),
    ensures
        (*final(g), *final(i) as int) == sgr_step(*old(g), params@, *old(i) as int),
{
    let p = params[*i];
    let k = *i;
    if p == 0 {
        *g = GraphicsState::default();
    } else if p == 1 {
        g.flags.insert(CellFlags::BOLD);
    } else if p == 2 {
        g.flags.insert(CellFlags::DIM);
    } else if p == 3 {
        g.flags.insert(CellFlags::ITALIC);
    } else if p == 4 {
        g.flags.insert(CellFlags::UNDERLINE);
        if k + 1 < params.len() {
            let q = params[k + 1];
            if q == 0 {
                g.flags.remove(CellFlags::UNDERLINE);
            } else if q == 2 {
                g.flags.insert(CellFlags::DOUBLE_UNDERLINE);
            } else if q == 3 {
                g.flags.insert(CellFlags::CURLY_UNDERLINE);
            }
        }
    } else if p == 5 || p == 6 {
        g.flags.insert(CellFlags::BLINK);
    } else if p == 7 {
        g.flags.insert(CellFlags::INVERSE);
    } else if p == 8 {
        g.flags.insert(CellFlags::HIDDEN);
    } else if p == 9 {
        g.flags.insert(CellFlags::STRIKETHROUGH);
    } else if p == 22 {
        g.flags.remove(CellFlags::BOLD);
        g.flags.remove(CellFlags::DIM);
    } else if p == 23 {
        g.flags.remove(CellFlags::ITALIC);
    } else if p == 24 {
        g.flags.remove(CellFlags::UNDERLINE);
        g.flags.remove(CellFlags::DOUBLE_UNDERLINE);
        g.flags.remove(CellFlags::CURLY_UNDERLINE);
    } else if p == 25 {
        g.flags.remove(CellFlags::BLINK);
    } else if p == 27 {
        g.flags.remove(CellFlags::INVERSE);
    } else if p == 28 {
        g.flags.remove(CellFlags::HIDDEN);
    } else if p == 29 {
        g.flags.remove(CellFlags::STRIKETHROUGH);
    } else if p >= 30 && p <= 37 {
        g.fg = Color::Indexed((p - 30) as u8);
    } else if p == 38 {
        if let Some(color) = parse_extended_color(params, i) {
            g.fg = color;
        }
    } else if p == 39 {
        g.fg = Color::Foreground;
    } else if p >= 40 && p <= 47 {
        g.bg = Color::Indexed((p - 40) as u8);
    } else if p == 48 {
        if let Some(color) = parse_extended_color(params, i) {
            g.bg = color;
        }
    } else if p == 49 {
        g.bg = Color::Background;
    } else if p >= 90 && p <= 97 {
        g.fg = Color::Indexed((p - 90 + 8) as u8);
    } else if p >= 100 && p <= 107 {
        g.bg = Color::Indexed((p - 100 + 8) as u8);
    }
}

/// Apply SGR (Select Graphic Rendition) parameters to the current attributes.
pub fn handle_sgr(grid: &mut Grid, params: &[u16])
    ensures
        final(grid)@ == spec_sgr(old(grid)@, params@),
{
    let ghost v = grid@;
    let g = grid.graphics_mut();
    let mut i: usize = 0;
    while i < params.len()
        invariant
            i <= params@.len(),
            sgr_from(*g, params@, i as int) == sgr_from(v.graphics, params@, 0),
        decreases params@.len() - i,
    {
        let ghost g0 = *g;
        let ghost i0 = i;
        sgr_apply_one(g, params, &mut i);
        i = i + 1;
    }
}

/// Set or reset DEC private modes: 25 shows or hides the cursor, 1049
/// enters or leaves the alternate screen; others are ignored.
pub fn handle_dec_mode(grid: &mut Grid, params: &[u16], set: bool)
    ensures
        final(grid)@ == dec_modes_from(old(grid)@, params@, set, 0),
{
    let mut i: usize = 0;
    while i < params.len()
        invariant
            i <= params@.len(),
            dec_modes_from(grid@, params@, set, i as int) == dec_modes_from(
                old(grid)@,
                params@,
                set,
                0,
            ),
        decreases params@.len() - i,
    {
        let mode = params[i];
        if mode == 25 {
            grid.cursor_mut().visible = set;
        } else if mode == 1049 {
            if set {
                grid.enter_alternate_screen();
            } else {
                grid.exit_alternate_screen();
            }
        }
        i = i + 1;
    }
}

fn move_relative(grid: &mut Grid, dc: isize, dr: isize)
    requires
        old(grid)@.cursor.col + 0x10000 <= isize::MAX,
        old(grid)@.cursor.row + 0x10000 <= isize::MAX,
        -0x10000 <= dc <= 0x10000,
        -0x10000 <= dr <= 0x10000,
    ensures
        final(grid)@ == spec_move_relative(old(grid)@, dc as int, dr as int),
{
    grid.move_cursor_relative(dc, dr);
}

/// Carry out a CSI sequence: cursor movement and positioning, erasing,
/// scrolling, SGR, cursor save and restore, and DEC private modes.
pub fn csi_dispatch(grid: &mut Grid, params: &[u16], intermediates: &[u8], action: char)
    requires
        cursor_movable(old(grid)@),
    ensures
        final(grid)@ == spec_csi(old(grid)@, params@, intermediates@, action),
{
    let n = count(params);
    if action == 'A' {
        move_relative(grid, 0, -(n as isize));
    } else if action == 'B' {
        move_relative(grid, 0, n as isize);
    } else if action == 'C' {
        move_relative(grid, n as isize, 0);
    } else if action == 'D' {
        move_relative(grid, -(n as isize), 0);
    } else if action == 'E' {
        grid.carriage_return();
        move_relative(grid, 0, n as isize);
    } else if action == 'F' {
        grid.carriage_return();
        move_relative(grid, 0, -(n as isize));
    } else if action == 'G' {
        let col = position(params, 0);
        let row = grid.cursor().row;
        grid.move_cursor(col, row);
    } else if action == 'H' || action == 'f' {
        let row = position(params, 0);
        let col = position(params, 1);
        grid.move_cursor(col, row);
    } else if action == 'J' {
        let p = param(params, 0, 0);
        if p == 0 {
            grid.clear_below();
        } else if p == 1 {
            grid.clear_above();
        } else if p == 2 || p == 3 {
            grid.clear();
        }
    } else if action == 'K' {
        let p = param(params, 0, 0);
        if p == 0 {
            grid.clear_line_right();
        } else if p == 1 {
            grid.clear_line_left();
        } else if p == 2 {
            grid.clear_line();
        }
    } else if action == 'L' || action == 'T' {
        grid.scroll_down(n as usize);
    } else if action == 'M' || action == 'S' {
        grid.scroll_up(n as usize);
    } else if action == 'm' {
        handle_sgr(grid, params);
    } else if action == 's' {
        grid.save_cursor();
    } else if action == 'u' {
        grid.restore_cursor();
    } else if action == 'h' || action == 'l' {
        if intermediates.len() > 0 && intermediates[0] == 63 {
            handle_dec_mode(grid, params, action == 'h');
        }
    }
}

/// Carry out an ESC sequence: save/restore cursor, reset, index, reverse
/// index and next line.
pub fn esc_dispatch(grid: &mut Grid, intermediates: &[u8], byte: u8)
    requires
        cursor_movable(old(grid)@),
    ensures
        final(grid)@ == spec_esc(old(grid)@, intermediates@, byte),
{
    if intermediates.len() > 0 {
        return;
    }
    if byte == 0x37 {
        grid.save_cursor();
    } else if byte == 0x38 {
        grid.restore_cursor();
    } else if byte == 0x63 {
        grid.clear();
        grid.reset_graphics();
    } else if byte == 0x44 {
        grid.linefeed();
    } else if byte == 0x4D {
        if grid.cursor().row == 0 {
            grid.scroll_down(1);
        } else {
            move_relative(grid, 0, -1);
        }
    } else if byte == 0x45 {
        grid.carriage_return();
        grid.linefeed();
    }
}

} // verus!
