use corgiterm::ansi::{AnsiColor, AnsiPalette};
use corgiterm::cell::{Cell, CellFlags, Color, Rgb};
use corgiterm::grid::Grid;
use corgiterm::selection::{is_repeat_click, Point, Selection, SelectionRange, SelectionType};

#[test]
fn test_palette_creation() {
    let palette = AnsiPalette::new();
    assert_eq!(palette.get(0), Rgb::new(0, 0, 0));
    assert_eq!(palette.get(7), Rgb::new(0xE5, 0xE5, 0xE5));
    assert_eq!(palette.get(15), Rgb::new(0xFF, 0xFF, 0xFF));
}

#[test]
fn test_color_cube() {
    let palette = AnsiPalette::new();
    assert_eq!(palette.get(16), Rgb::new(0, 0, 0));
    assert_eq!(palette.get(231), Rgb::new(255, 255, 255));
}

#[test]
fn test_grayscale() {
    let palette = AnsiPalette::new();
    assert_eq!(palette.get(232), Rgb::new(8, 8, 8));
    assert_eq!(palette.get(255), Rgb::new(238, 238, 238));
}

#[test]
fn test_color_resolution() {
    let palette = AnsiPalette::new();
    let red = palette.get(1);
    assert_eq!(red, Rgb::new(0xCD, 0x00, 0x00));
}

#[test]
fn palette_cube_middle_and_set_reset() {
    let mut palette = AnsiPalette::new();
    // index 16 + 36*1 + 6*2 + 3 = 67: levels (95, 135, 175)
    assert_eq!(palette.get(67), Rgb::new(95, 135, 175));
    palette.set(3, Rgb::new(1, 2, 3));
    assert_eq!(palette.get(3), Rgb::new(1, 2, 3));
    palette.reset();
    assert_eq!(palette.get(3), Rgb::new(0xCD, 0xCD, 0x00));
}

#[test]
fn ansi_color_numbers() {
    assert_eq!(u8::from(AnsiColor::Black), 0);
    assert_eq!(u8::from(AnsiColor::BrightWhite), 15);
}

#[test]
fn test_rgb_from_hex() {
    let color = Rgb::from_hex("#FF5500").unwrap();
    assert_eq!(color.r, 255);
    assert_eq!(color.g, 85);
    assert_eq!(color.b, 0);
}

#[test]
fn rgb_from_hex_rejects_bad_input() {
    assert_eq!(Rgb::from_hex("FF5500"), Some(Rgb::new(255, 85, 0)));
    assert_eq!(Rgb::from_hex("#FF55"), None);
    assert_eq!(Rgb::from_hex("#GG0000"), None);
    assert_eq!(Rgb::from_hex("#+F+F+F"), None);
    assert_eq!(Rgb::from_hex("#ééé"), None);
    assert_eq!(Rgb::from_hex("€€"), None);
    assert_eq!(Rgb::from_hex("##0a0B0c"), Some(Rgb::new(10, 11, 12)));
    assert_eq!(Rgb::from_hex("#ff5500"), Some(Rgb::new(255, 85, 0)));
}

#[test]
fn test_cell_default() {
    let cell = Cell::default();
    assert_eq!(cell.c, ' ');
    assert!(cell.is_empty());
}

#[test]
fn test_cell_flags() {
    let mut cell = Cell::new('A');
    cell.set_bold(true);
    cell.set_italic(true);
    assert!(cell.flags.contains(CellFlags::BOLD));
    assert!(cell.flags.contains(CellFlags::ITALIC));
}

#[test]
fn cell_flags_clear_and_reset() {
    let mut cell = Cell::with_colors('x', Color::Indexed(1), Color::Background);
    cell.set_bold(true);
    cell.set_bold(false);
    assert!(!cell.flags.contains(CellFlags::BOLD));
    cell.set_inverse(true);
    assert!(cell.flags.contains(CellFlags::INVERSE));
    assert!(!cell.is_empty());
    cell.reset();
    assert!(cell.is_empty());
    assert_eq!(cell.c, ' ');
}

#[test]
fn test_grid_creation() {
    let grid = Grid::new(80, 24);
    assert_eq!(grid.dims(), (80, 24));
}

#[test]
fn test_write_char() {
    let mut grid = Grid::new(80, 24);
    grid.write_char('H');
    grid.write_char('i');
    assert_eq!(grid.cell(0, 0).map(|c| c.c), Some('H'));
    assert_eq!(grid.cell(1, 0).map(|c| c.c), Some('i'));
    assert_eq!(grid.cursor().col, 2);
}

#[test]
fn test_linefeed() {
    let mut grid = Grid::new(80, 24);
    grid.linefeed();
    assert_eq!(grid.cursor().row, 1);
}

#[test]
fn test_scroll() {
    let mut grid = Grid::new(80, 3);
    grid.move_cursor(0, 2);
    grid.write_char('X');
    grid.linefeed();
    assert_eq!(grid.cell(0, 1).map(|c| c.c), Some('X'));
}

#[test]
fn grid_cursor_is_clamped_and_restored() {
    let mut grid = Grid::new(10, 5);
    grid.move_cursor(100, 100);
    assert_eq!(grid.cursor().col, 9);
    assert_eq!(grid.cursor().row, 4);
    grid.save_cursor();
    grid.move_cursor(1, 1);
    grid.restore_cursor();
    assert_eq!((grid.cursor().col, grid.cursor().row), (9, 4));
    grid.move_cursor_relative(-20, -20);
    assert_eq!((grid.cursor().col, grid.cursor().row), (0, 0));
}

#[test]
fn grid_clear_and_resize() {
    let mut grid = Grid::new(4, 2);
    grid.write_char('a');
    grid.write_char('b');
    grid.clear();
    assert_eq!(grid.cell(0, 0).map(|c| c.c), Some(' '));
    grid.resize(6, 3);
    assert_eq!(grid.dims(), (6, 3));
    assert!(grid.cell(5, 2).is_some());
    assert!(grid.cell(6, 2).is_none());
}

#[test]
fn grid_wraps_at_line_end() {
    let mut grid = Grid::new(3, 2);
    grid.write_char('a');
    grid.write_char('b');
    grid.write_char('c');
    grid.write_char('d');
    assert_eq!(grid.cell(2, 0).map(|c| c.c), Some('c'));
    assert_eq!(grid.cell(0, 1).map(|c| c.c), Some('d'));
}

#[test]
fn grid_alternate_screen_restores_primary() {
    let mut grid = Grid::new(5, 2);
    grid.write_char('p');
    grid.enter_alternate_screen();
    grid.write_char('q');
    grid.exit_alternate_screen();
    assert_eq!(grid.cell(0, 0).map(|c| c.c), Some('p'));
}

#[test]
fn test_point_ordering() {
    let p1 = Point::new(5, 10);
    let p2 = Point::new(10, 10);
    let p3 = Point::new(5, 11);
    assert!(p1 < p2);
    assert!(p1 < p3);
    assert!(p2 < p3);
}

#[test]
fn test_selection_contains() {
    let range = SelectionRange::new(Point::new(5, 0), Point::new(10, 2), SelectionType::Simple);
    assert!(range.contains(Point::new(5, 0)));
    assert!(range.contains(Point::new(10, 0)));
    assert!(!range.contains(Point::new(4, 0)));
    assert!(range.contains(Point::new(0, 1)));
    assert!(range.contains(Point::new(100, 1)));
    assert!(range.contains(Point::new(0, 2)));
    assert!(range.contains(Point::new(10, 2)));
    assert!(!range.contains(Point::new(11, 2)));
}

#[test]
fn test_block_selection() {
    let range = SelectionRange::new(Point::new(5, 0), Point::new(10, 2), SelectionType::Block);
    assert!(range.contains(Point::new(7, 1)));
    assert!(!range.contains(Point::new(3, 1)));
    assert!(!range.contains(Point::new(12, 1)));
}

#[test]
fn test_selection_lifecycle() {
    let mut selection = Selection::new();
    assert!(!selection.is_active());
    selection.start(Point::new(5, 0));
    assert!(selection.in_progress());
    assert!(selection.is_active());
    selection.update(Point::new(10, 2));
    selection.finish();
    assert!(!selection.in_progress());
    assert!(selection.is_active());
    assert!(selection.is_selected(Point::new(7, 1)));
    selection.clear();
    assert!(!selection.is_active());
}

#[test]
fn reversed_selection_is_normalized() {
    let range = SelectionRange::new(Point::new(10, 2), Point::new(5, 0), SelectionType::Simple);
    let (a, b) = range.normalized();
    assert_eq!(a, Point::new(5, 0));
    assert_eq!(b, Point::new(10, 2));
    assert!(range.contains(Point::new(6, 0)));
    assert!(range.is_multiline());
    let line = SelectionRange::new(Point::new(3, 1), Point::new(9, 1), SelectionType::Lines);
    assert!(!line.contains(Point::new(0, 1)));
    assert!(line.contains(Point::new(5, 1)));
    assert!(!line.contains(Point::new(10, 1)));
    assert!(!line.contains(Point::new(5, 2)));
}

#[test]
fn alternate_screen_and_saved_cursor_survive_other_calls() {
    let mut grid = Grid::new(6, 3);
    grid.write_char('p');
    grid.write_char('q');
    grid.move_cursor(1, 1);
    grid.save_cursor();
    grid.enter_alternate_screen();
    grid.write_char('x');
    grid.linefeed();
    grid.scroll_up(2);
    grid.clear();
    grid.move_cursor(4, 2);
    grid.enter_alternate_screen();
    grid.tab();
    grid.clear_line();
    grid.resize(6, 3);
    grid.restore_cursor();
    assert_eq!((grid.cursor().col, grid.cursor().row), (1, 1));
    grid.exit_alternate_screen();
    assert_eq!(grid.cell(0, 0).map(|c| c.c), Some('p'));
    assert_eq!(grid.cell(1, 0).map(|c| c.c), Some('q'));
    let before: Vec<char> = (0..6).map(|c| grid.cell(c, 0).unwrap().c).collect();
    grid.exit_alternate_screen();
    let after: Vec<char> = (0..6).map(|c| grid.cell(c, 0).unwrap().c).collect();
    assert_eq!(before, after);
}

#[test]
fn repeat_clicks_within_500_ms() {
    let p = Point::new(3, 1);
    let q = Point::new(4, 1);
    assert!(is_repeat_click(Some(p), p, Some(0)));
    assert!(is_repeat_click(Some(p), p, Some(499)));
    assert!(!is_repeat_click(Some(p), p, Some(500)));
    assert!(!is_repeat_click(Some(p), p, Some(5000)));
    assert!(!is_repeat_click(Some(p), p, None));
    assert!(!is_repeat_click(Some(q), p, Some(10)));
    assert!(!is_repeat_click(None, p, Some(10)));

    let t = std::time::Instant::now();
    let mut s = Selection::new();
    s.press_at(p, t, None);
    assert_eq!(s.range().unwrap().selection_type, SelectionType::Simple);
    s.press_at(p, t, Some(120));
    assert_eq!(s.range().unwrap().selection_type, SelectionType::Semantic);
    s.press_at(p, t, Some(499));
    assert_eq!(s.range().unwrap().selection_type, SelectionType::Lines);
    s.press_at(p, t, Some(10));
    assert_eq!(s.range().unwrap().selection_type, SelectionType::Simple);
    s.press_at(p, t, Some(100));
    assert_eq!(s.range().unwrap().selection_type, SelectionType::Semantic);
    // Too late: a fresh press.
    s.press_at(p, t, Some(500));
    assert_eq!(s.range().unwrap().selection_type, SelectionType::Simple);
    // Another point: a fresh press.
    s.press_at(q, t, Some(1));
    assert_eq!(s.range().unwrap().selection_type, SelectionType::Simple);
    assert!(s.in_progress());

    // By the clock: two presses in quick succession make a double click.
    let mut s = Selection::new();
    s.start(p);
    s.start(p);
    assert_eq!(s.range().unwrap().selection_type, SelectionType::Semantic);
    s.start(q);
    assert_eq!(s.range().unwrap().selection_type, SelectionType::Simple);
}

#[test]
fn tab_on_a_grid_without_columns() {
    let mut grid = Grid::new(0, 2);
    grid.tab();
    assert_eq!(grid.cursor().col, 0);
    let mut grid = Grid::new(20, 2);
    grid.tab();
    assert_eq!(grid.cursor().col, 8);
    grid.tab();
    assert_eq!(grid.cursor().col, 16);
    grid.tab();
    assert_eq!(grid.cursor().col, 19);
}
