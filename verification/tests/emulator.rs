use corgiterm::emulator::{DamageRect, Terminal, TerminalError, TerminalHealth, TerminalSize};
use corgiterm::grid::CursorShape;
use corgiterm::parser::{csi_dispatch, print};

fn feed_text(term: &mut Terminal, text: &str) {
    for c in text.chars() {
        print(term.grid_mut(), c);
    }
    term.processed();
}

#[test]
fn lib_test_terminal_creation() {
    let term = Terminal::new(TerminalSize::default());
    assert_eq!(term.size().cols, 80);
    assert_eq!(term.size().rows, 24);
    assert_eq!(term.health(), TerminalHealth::Healthy);
}

#[test]
fn test_process_simple_text() {
    let mut term = Terminal::new(TerminalSize::default());
    feed_text(&mut term, "Hello, World!");

    let grid = term.grid();
    assert_eq!(grid.cell(0, 0).map(|c| c.c), Some('H'));
    assert_eq!(grid.cell(1, 0).map(|c| c.c), Some('e'));
}

#[test]
fn test_resize() {
    let mut term = Terminal::new(TerminalSize::default());
    term.resize(TerminalSize::new(120, 40, 10, 20));
    assert_eq!(term.size().cols, 120);
    assert_eq!(term.size().rows, 40);
}

#[test]
fn test_soft_reset() {
    let mut term = Terminal::new(TerminalSize::default());
    csi_dispatch(term.grid_mut(), &[31], &[], 'm');
    feed_text(&mut term, "Red text");

    term.soft_reset();

    assert_eq!(term.grid().cell(0, 0).map(|c| c.c), Some('R'));
    assert_eq!(term.cursor().visible, true);
    assert_eq!(term.cursor().shape, CursorShape::Block);
}

#[test]
fn test_hard_reset() {
    let mut term = Terminal::new(TerminalSize::default());
    feed_text(&mut term, "Hello, World!");

    term.hard_reset();

    assert_eq!(term.grid().cell(0, 0).map(|c| c.c), Some(' '));
    assert_eq!(term.cursor().col, 0);
    assert_eq!(term.cursor().row, 0);
    assert_eq!(term.health(), TerminalHealth::Healthy);
}

#[test]
fn test_validate_state() {
    let term = Terminal::new(TerminalSize::default());
    assert!(term.validate_state().is_ok());
}

#[test]
fn test_safe_process() {
    let mut term = Terminal::new(TerminalSize::default());

    let hard = term.recover_if_invalid();
    assert!(!hard);
    feed_text(&mut term, "Normal text");
    let health = term.health();
    assert!(health == TerminalHealth::Healthy || health == TerminalHealth::Recovered);
}

#[test]
fn pixel_sizes() {
    let s = TerminalSize::new(80, 24, 10, 20);
    assert_eq!(s.width_px(), 800);
    assert_eq!(s.height_px(), 480);
    let big = TerminalSize::new(u16::MAX, u16::MAX, u16::MAX, u16::MAX);
    assert_eq!(big.width_px(), 65535u32 * 65535);
}

#[test]
fn invalid_state_is_reported_and_recovered() {
    let mut term = Terminal::new(TerminalSize::new(10, 5, 8, 16));
    // The grid no longer matches the terminal's size.
    term.grid_mut().resize(12, 5);
    match term.validate_state() {
        Err(e) => {
            assert_eq!(e, TerminalError::InvalidState("Grid dimensions don't match terminal size".to_string()));
            assert_eq!(e.message(), "Terminal state invalid: Grid dimensions don't match terminal size");
        }
        Ok(()) => panic!("expected an invalid state"),
    }
    for round in 1..10u32 {
        assert!(!term.recover_if_invalid());
        assert_eq!(term.error_count(), round);
        assert_eq!(term.health(), TerminalHealth::Degraded);
    }
    assert!(term.recover_if_invalid());
    assert_eq!(term.error_count(), 0);
    assert_eq!(term.health(), TerminalHealth::Recovered);
    assert!(term.validate_state().is_ok());
}

#[test]
fn cursor_out_of_bounds_message_and_soft_reset() {
    let mut term = Terminal::new(TerminalSize::new(10, 5, 8, 16));
    term.grid_mut().cursor_mut().col = 12;
    match term.validate_state() {
        Err(TerminalError::InvalidState(m)) => assert_eq!(m, "Cursor column 12 out of bounds (max 9)"),
        _ => panic!("expected an invalid cursor"),
    }
    term.clear_damage();
    assert!(!term.needs_redraw());
    assert!(!term.recover_if_invalid());
    assert_eq!(term.cursor().col, 9);
    assert!(term.needs_redraw());
    term.processed();
    assert_eq!(term.error_count(), 0);
    assert_eq!(term.health(), TerminalHealth::Recovered);
    assert!(!term.needs_reset());
}

#[test]
fn terminal_error_messages() {
    assert_eq!(
        TerminalError::Parse { position: 42, message: "bad".to_string() }.message(),
        "Parse error at position 42: bad"
    );
    assert_eq!(
        TerminalError::RecoveryFailed { attempts: 3, reason: "stuck".to_string() }.message(),
        "Recovery failed after 3 attempts: stuck"
    );
    assert_eq!(TerminalError::Gpu("x".to_string()).message(), "GPU error: x");
    let d = DamageRect { x: 1, y: 2, width: 3, height: 4 };
    assert_eq!(d.width, 3);
}

fn feed_grid(grid: &mut corgiterm::grid::Grid, text: &str) {
    for c in text.chars() {
        print(grid, c);
    }
}

#[test]
fn test_simple_text() {
    let mut grid = corgiterm::grid::Grid::new(80, 24);
    feed_grid(&mut grid, "Hello");
    assert_eq!(grid.cell(0, 0).map(|c| c.c), Some('H'));
    assert_eq!(grid.cell(4, 0).map(|c| c.c), Some('o'));
}

#[test]
fn test_cursor_movement() {
    let mut grid = corgiterm::grid::Grid::new(80, 24);
    // ESC [ 5 ; 10 H
    csi_dispatch(&mut grid, &[5, 10], &[], 'H');
    assert_eq!(grid.cursor().row, 4);
    assert_eq!(grid.cursor().col, 9);
}

#[test]
fn test_sgr_colors() {
    let mut grid = corgiterm::grid::Grid::new(80, 24);
    // ESC [ 31 m R
    csi_dispatch(&mut grid, &[31], &[], 'm');
    feed_grid(&mut grid, "R");
    let cell = grid.cell(0, 0).unwrap();
    assert_eq!(cell.c, 'R');
    assert_eq!(cell.fg, corgiterm::cell::Color::Indexed(1));
}

#[test]
fn test_clear_screen() {
    let mut grid = corgiterm::grid::Grid::new(80, 24);
    feed_grid(&mut grid, "Hello");
    // ESC [ 2 J
    csi_dispatch(&mut grid, &[2], &[], 'J');
    assert_eq!(grid.cell(0, 0).map(|c| c.c), Some(' '));
}

#[test]
fn recovery_on_grids_without_cells() {
    let mut term = Terminal::new(TerminalSize::new(0, 5, 8, 16));
    match term.validate_state() {
        Err(TerminalError::InvalidState(m)) => {
            assert_eq!(m, format!("Cursor column 0 out of bounds (max {})", usize::MAX))
        }
        _ => panic!("expected an invalid cursor"),
    }
    assert!(!term.recover_if_invalid());
    assert_eq!(term.cursor().col, 0);
    assert_eq!(term.health(), TerminalHealth::Degraded);

    let mut term = Terminal::new(TerminalSize::new(4, 0, 8, 16));
    match term.validate_state() {
        Err(TerminalError::InvalidState(m)) => {
            assert_eq!(m, format!("Cursor row 0 out of bounds (max {})", usize::MAX))
        }
        _ => panic!("expected an invalid cursor"),
    }
    assert!(!term.recover_if_invalid());
    assert_eq!(term.error_count(), 1);
}
