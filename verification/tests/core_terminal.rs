use corgiterm::engine::{cell_text, CellColor, EngineCursor, EngineCursorShape, RenderFlags};
use corgiterm::terminal::{
    color_from_256, Cell, CellAttributes, TerminalEvent, TerminalSize, TerminalState, DEFAULT_BG, DEFAULT_FG,
};

fn feed(term: &mut TerminalState, text: &str) {
    for c in text.chars() {
        term.print(c);
    }
}

#[test]
fn terminal_test_terminal_creation() {
    let term = TerminalState::new(TerminalSize::default());
    assert_eq!(term.size().rows, 24);
    assert_eq!(term.size().cols, 80);
}

#[test]
fn test_process_text() {
    let mut term = TerminalState::new(TerminalSize::default());
    feed(&mut term, "Hello");
    assert_eq!(term.grid()[0][0].content, "H");
    assert_eq!(term.grid()[0][4].content, "o");
}

#[test]
fn wrapping_and_scrolling() {
    let mut term = TerminalState::new(TerminalSize { rows: 2, cols: 3 });
    feed(&mut term, "abcdefg");
    // "abc" scrolled off, "def" on the first row, "g" on the second.
    assert_eq!(term.scrollback().len(), 1);
    assert_eq!(term.scrollback()[0][0].content, "a");
    assert_eq!(term.grid()[0][0].content, "d");
    assert_eq!(term.grid()[1][0].content, "g");
    assert_eq!(term.cursor(), (1, 1));
    term.set_max_scrollback(0);
    assert_eq!(term.scrollback().len(), 0);
}

#[test]
fn controls_and_bell() {
    let mut term = TerminalState::new(TerminalSize { rows: 4, cols: 20 });
    feed(&mut term, "ab");
    term.execute(0x09);
    assert_eq!(term.cursor(), (0, 8));
    term.execute(0x08);
    assert_eq!(term.cursor(), (0, 7));
    term.execute(0x0d);
    assert_eq!(term.cursor(), (0, 0));
    term.execute(0x0a);
    assert_eq!(term.cursor(), (1, 0));
    term.execute(0x07);
    let events = term.take_events();
    assert_eq!(events.len(), 1);
    assert!(matches!(events[0], TerminalEvent::Bell));
    assert_eq!(term.take_events().len(), 0);
}

#[test]
fn osc_sets_title() {
    let mut term = TerminalState::new(TerminalSize::default());
    term.osc_dispatch(&[b"2".to_vec(), b"my shell".to_vec()]);
    assert_eq!(term.title(), "my shell");
    term.osc_dispatch(&[b"1".to_vec(), b"ignored".to_vec()]);
    term.osc_dispatch(&[b"0".to_vec(), vec![0xff, 0xfe]]);
    assert_eq!(term.title(), "my shell");
    let events = term.take_events();
    assert_eq!(events.len(), 1);
    match &events[0] {
        TerminalEvent::TitleChanged(t) => assert_eq!(t, "my shell"),
        other => panic!("unexpected event {:?}", other),
    }
}

#[test]
fn cursor_movement_and_erasing() {
    let mut term = TerminalState::new(TerminalSize { rows: 5, cols: 10 });
    term.csi_dispatch(&[3, 4], 'H');
    assert_eq!(term.cursor(), (2, 3));
    term.csi_dispatch(&[], 'A');
    assert_eq!(term.cursor(), (1, 3));
    term.csi_dispatch(&[50], 'B');
    assert_eq!(term.cursor(), (4, 3));
    term.csi_dispatch(&[50], 'C');
    assert_eq!(term.cursor(), (4, 9));
    term.csi_dispatch(&[4], 'D');
    assert_eq!(term.cursor(), (4, 5));
    term.csi_dispatch(&[0, 0], 'f');
    assert_eq!(term.cursor(), (0, 0));
    feed(&mut term, "0123456789");
    term.csi_dispatch(&[1, 4], 'H');
    assert!(term.can_csi(&[1], 'K'));
    term.csi_dispatch(&[1], 'K');
    assert_eq!(term.grid()[0][3].content, "");
    assert_eq!(term.grid()[0][4].content, "4");
    term.csi_dispatch(&[], 'K');
    assert_eq!(term.grid()[0][4].content, "");
    term.csi_dispatch(&[2], 'J');
    assert!(term.grid().iter().all(|row| row.iter().all(|c| c.content.is_empty())));
    // Erasing up to the cursor when it sits past the last column is refused.
    term.csi_dispatch(&[1, 10], 'H');
    feed(&mut term, "x");
    assert_eq!(term.cursor(), (0, 10));
    assert!(!term.can_csi(&[1], 'K'));
}

#[test]
fn sgr_colors_and_attributes() {
    let mut term = TerminalState::new(TerminalSize { rows: 2, cols: 10 });
    term.csi_dispatch(&[1, 31, 44], 'm');
    feed(&mut term, "x");
    let cell: &Cell = term.cell(0, 0).unwrap();
    assert!(cell.attrs.bold);
    assert_eq!(cell.fg, [204, 87, 82, 255]);
    assert_eq!(cell.bg, [119, 146, 179, 255]);
    term.csi_dispatch(&[38, 5, 196, 48, 2, 1, 2, 3], 'm');
    feed(&mut term, "y");
    let cell = term.cell(0, 1).unwrap();
    assert_eq!(cell.fg, color_from_256(196));
    assert_eq!(cell.bg, [1, 2, 3, 255]);
    term.csi_dispatch(&[], 'm');
    feed(&mut term, "z");
    let cell = term.cell(0, 2).unwrap();
    assert_eq!(cell.fg, DEFAULT_FG);
    assert_eq!(cell.bg, DEFAULT_BG);
    assert_eq!(cell.attrs, CellAttributes::default());
    assert!(term.cell(5, 0).is_none());
}

#[test]
fn palette_256() {
    assert_eq!(color_from_256(1), [204, 87, 82, 255]);
    assert_eq!(color_from_256(16), [0, 0, 0, 255]);
    assert_eq!(color_from_256(196), [255, 0, 0, 255]);
    assert_eq!(color_from_256(231), [255, 255, 255, 255]);
    assert_eq!(color_from_256(232), [8, 8, 8, 255]);
    assert_eq!(color_from_256(255), [238, 238, 238, 255]);
}

#[test]
fn resize_and_clear() {
    let mut term = TerminalState::new(TerminalSize { rows: 3, cols: 4 });
    feed(&mut term, "abcdefgh");
    term.resize(TerminalSize { rows: 2, cols: 6 });
    assert_eq!(term.grid().len(), 2);
    assert!(term.grid().iter().all(|r| r.len() == 6));
    assert_eq!(term.grid()[1][0].content, "e");
    assert_eq!(term.cursor(), (1, 4));
    term.resize(TerminalSize { rows: 4, cols: 2 });
    assert_eq!(term.grid().len(), 4);
    assert_eq!(term.cursor(), (1, 1));
    term.clear_screen();
    assert_eq!(term.cursor(), (0, 0));
    assert_eq!(term.grid()[0][0].content, "");
    let blank = Cell::default();
    assert_eq!(blank.fg, DEFAULT_FG);
}

#[test]
fn engine_cell_text_and_types() {
    assert_eq!(cell_text(' ', &[]), "");
    assert_eq!(cell_text('a', &[]), "a");
    assert_eq!(cell_text(' ', &['\u{301}']), " \u{301}");
    assert_eq!(cell_text('e', &['\u{301}', '\u{302}']), "e\u{301}\u{302}");
    let f = RenderFlags::default();
    assert!(!f.bold && !f.hidden);
    assert_eq!(CellColor::Rgb([1, 2, 3]), CellColor::Rgb([1, 2, 3]));
    let c = EngineCursor { row: 1, col: 2, visible: true, shape: EngineCursorShape::Bar };
    assert_eq!(c.shape, EngineCursorShape::Bar);
}
