use corgiterm::hints::byte_to_col;
use corgiterm::ascii_art::{rgb_to_ansi, CharacterSet, CorgiArt, ImageFilter};
use corgiterm::hints::{index_to_label, label_to_index, Hint, HintDetector, HintModeState, HintType};
use corgiterm::images::{
    ImagePlacement, ImageStore, InlineImage, KittyAction, KittyParser, ImageFormat, SixelParser,
};

fn hint(label: &str, text: &str, row: usize, col_end: usize) -> Hint {
    Hint {
        label: label.to_string(),
        text: text.to_string(),
        hint_type: HintType::Url,
        row,
        col_start: 0,
        col_end,
    }
}

#[test]
fn test_index_to_label() {
    assert_eq!(index_to_label(0), "a");
    assert_eq!(index_to_label(1), "b");
    assert_eq!(index_to_label(25), "z");
    assert_eq!(index_to_label(26), "aa");
    assert_eq!(index_to_label(27), "ab");
    assert_eq!(index_to_label(51), "az");
    assert_eq!(index_to_label(52), "ba");
}

#[test]
fn test_label_to_index() {
    assert_eq!(label_to_index("a"), Some(0));
    assert_eq!(label_to_index("b"), Some(1));
    assert_eq!(label_to_index("z"), Some(25));
    assert_eq!(label_to_index("aa"), Some(26));
    assert_eq!(label_to_index("ab"), Some(27));
}

#[test]
fn labels_round_trip_and_reject_other_text() {
    for i in 0..2000usize {
        assert_eq!(label_to_index(&index_to_label(i)), Some(i));
    }
    assert_eq!(index_to_label(701), "zz");
    assert_eq!(index_to_label(702), "aaa");
    assert_eq!(label_to_index(""), None);
    assert_eq!(label_to_index("A"), None);
    assert_eq!(label_to_index("a1"), None);
}

#[test]
fn test_url_detection() {
    let detector = HintDetector::new();
    let lines = vec![
        "Check out https://github.com/user/repo for more".to_string(),
        "Also see http://example.com/path?query=1".to_string(),
    ];
    let hints = detector.scan(&lines);
    assert_eq!(hints.len(), 2);
    assert_eq!(hints[0].hint_type, HintType::Url);
    assert_eq!(hints[0].text, "https://github.com/user/repo");
    assert_eq!(hints[1].hint_type, HintType::Url);
}

#[test]
fn test_email_detection() {
    let detector = HintDetector::new();
    let lines = vec!["Contact user@example.com for help".to_string()];
    let hints = detector.scan(&lines);
    assert_eq!(hints.len(), 1);
    assert_eq!(hints[0].hint_type, HintType::Email);
    assert_eq!(hints[0].text, "user@example.com");
}

#[test]
fn test_ip_detection() {
    let detector = HintDetector::new();
    let lines = vec!["Server at 192.168.1.100:8080".to_string()];
    let hints = detector.scan(&lines);
    assert_eq!(hints.len(), 1);
    assert_eq!(hints[0].hint_type, HintType::IpAddress);
}

#[test]
fn test_path_detection() {
    let detector = HintDetector::new();
    let lines = vec!["Edit /home/user/config.toml".to_string(), "See ./src/main.rs:42".to_string()];
    let hints = detector.scan(&lines);
    assert!(hints.iter().any(|h| h.hint_type == HintType::FilePath));
}

#[test]
fn scan_positions_and_labels() {
    let detector = HintDetector::new();
    let lines = vec!["see https://a.io now".to_string()];
    let hints = detector.scan(&lines);
    assert_eq!(hints.len(), 1);
    assert_eq!(hints[0].label, "a");
    assert_eq!(hints[0].row, 0);
    assert_eq!(hints[0].col_start, 4);
    assert_eq!(hints[0].col_end, 16);
    assert!(hints[0].contains(0, 4));
    assert!(!hints[0].contains(0, 16));
    assert!(detector.scan(&[]).is_empty());
}

#[test]
fn test_hint_mode_state() {
    let mut state = HintModeState::new();
    let hints = vec![hint("a", "https://example.com", 0, 19), hint("b", "https://test.com", 1, 16)];
    state.activate(hints);
    assert!(state.active);
    let result = state.handle_key('a');
    assert!(result.is_some());
    assert_eq!(result.unwrap().text, "https://example.com");
    assert!(!state.active);
}

#[test]
fn hint_mode_prefix_and_miss() {
    let mut state = HintModeState::new();
    assert!(state.handle_key('a').is_none());
    state.activate(vec![hint("aa", "x", 0, 1), hint("ab", "y", 1, 1), hint("b", "z", 2, 1)]);
    assert!(state.handle_key('a').is_none());
    assert!(state.active);
    assert_eq!(state.matching_hints().len(), 2);
    assert_eq!(state.handle_key('b').map(|h| h.text), Some("y".to_string()));
    state.activate(vec![hint("a", "x", 0, 1)]);
    assert!(state.handle_key('q').is_none());
    assert!(state.active);
    assert_eq!(state.input_buffer, "");
    assert!(state.handle_key('A').is_none());
    state.deactivate();
    assert!(!state.active);
    assert!(state.hints.is_empty());
}

#[test]
fn find_by_label_ignores_case() {
    let detector = HintDetector::new();
    let hs = vec![hint("a", "x", 0, 1), hint("b", "y", 1, 1)];
    assert_eq!(detector.find_by_label(&hs, "B").map(|h| h.text.clone()), Some("y".to_string()));
    assert!(detector.find_by_label(&hs, "c").is_none());
}

#[test]
fn hint_type_texts() {
    assert_eq!(HintType::Url.action_description(), "Open in browser");
    assert_eq!(HintType::Email.icon(), "");
    assert_eq!(HintType::FilePath.action_description(), "Open/Navigate");
}

#[test]
fn test_kitty_parser_basic() {
    let mut parser = KittyParser::new();
    let cmd = parser.parse(b"a=t,f=100,s=64,v=64;iVBORw0KGgo=").unwrap();
    assert!(matches!(cmd.action, KittyAction::Transmit));
    assert!(matches!(cmd.format, ImageFormat::Png));
    assert_eq!(cmd.width, Some(64));
    assert_eq!(cmd.height, Some(64));
}

#[test]
fn kitty_payload_is_decoded() {
    let mut parser = KittyParser::new();
    let cmd = parser.parse(b"a=T,i=7,m=1;aGk=").unwrap();
    assert!(matches!(cmd.action, KittyAction::TransmitAndDisplay));
    assert!(matches!(cmd.format, ImageFormat::Rgba));
    assert_eq!(cmd.id, Some(7));
    assert!(cmd.more_data);
    assert_eq!(cmd.payload, Some(b"hi".to_vec()));
    let cmd = parser.parse(b"a=d").unwrap();
    assert!(matches!(cmd.action, KittyAction::Delete));
    assert_eq!(cmd.payload, None);
}

fn image(id: u32) -> InlineImage {
    InlineImage {
        id,
        data: vec![255; 16],
        width: 2,
        height: 2,
        cell_width: 1,
        cell_height: 1,
        x_offset: 0,
        y_offset: 0,
        z_index: 0,
    }
}

#[test]
fn test_image_store() {
    let mut store = ImageStore::new();
    let id = store.next_id();
    store.add_image(image(id));
    assert!(store.get_image(id).is_some());
    store.remove_image(id);
    assert!(store.get_image(id).is_none());
}

#[test]
fn image_store_placements() {
    let mut store = ImageStore::new();
    let a = store.next_id();
    let b = store.next_id();
    assert_ne!(a, b);
    store.add_image(image(a));
    store.add_placement(ImagePlacement {
        image_id: a,
        row: 2,
        col: 3,
        width_cells: 2,
        height_cells: 2,
        visible: true,
    });
    assert_eq!(store.placements_at(3, 4).len(), 1);
    assert_eq!(store.placements_at(4, 4).len(), 0);
    assert_eq!(store.visible_placements().len(), 1);
    store.append_partial(b, vec![1, 2]);
    store.append_partial(b, vec![3]);
    assert_eq!(store.take_partial(b), Some(vec![1, 2, 3]));
    assert_eq!(store.take_partial(b), None);
    store.gc(10, 20);
    assert!(store.get_image(a).is_none());
    assert_eq!(store.visible_placements().len(), 0);
}

#[test]
fn sixel_single_column() {
    let mut parser = SixelParser::new();
    // color 1 from the VGA palette, one sixel with the low bit set
    let img = parser.parse(b"q#1@", |_, _, _| (0, 0, 0)).unwrap();
    assert_eq!((img.width, img.height), (1, 6));
    assert_eq!(&img.data[0..4], &[128, 0, 0, 255]);
    assert_eq!(&img.data[4..8], &[0, 0, 0, 0]);
    assert!(parser.parse(b"#1@", |_, _, _| (0, 0, 0)).is_none());
}

#[test]
fn test_rgb_to_ansi() {
    assert_eq!(rgb_to_ansi(0, 0, 0), 16);
    assert_eq!(rgb_to_ansi(255, 255, 255), 231);
}

#[test]
fn rgb_to_ansi_cube_levels() {
    assert_eq!(rgb_to_ansi(255, 0, 0), 196);
    assert_eq!(rgb_to_ansi(0, 0, 255), 21);
}

#[test]
fn test_corgi_collection() {
    let all = CorgiArt::all();
    assert_eq!(all.len(), 6);
    assert!(CorgiArt::CLASSIC.contains("フ"));
}

#[test]
fn test_random_corgi() {
    let art = CorgiArt::random();
    assert!(!art.is_empty());
}

#[test]
fn corgi_pick_cycles() {
    assert_eq!(CorgiArt::pick(0), CorgiArt::all()[0].1);
    assert_eq!(CorgiArt::pick(7), CorgiArt::all()[1].1);
}

#[test]
fn character_sets_and_filters() {
    assert_eq!(CharacterSet::Simple.chars().len(), 9);
    assert_eq!(CharacterSet::Simple.chars()[0], ' ');
    assert_eq!(CharacterSet::Simple.chars()[8], '@');
    assert_eq!(CharacterSet::all().len(), 4);
    assert_eq!(ImageFilter::default(), ImageFilter::Unfiltered);
}

#[test]
fn labels_read_back_to_themselves() {
    for s in ["a", "z", "aa", "az", "ba", "zz", "zzz", "hello", "abcdefghijkl", "zzzzzzzzzzzz"] {
        let n = label_to_index(s).unwrap();
        assert_eq!(index_to_label(n), s);
    }
    for n in [0usize, 25, 26, 51, 52, 701, 702, 123_456_789] {
        assert_eq!(label_to_index(&index_to_label(n)), Some(n));
    }
}

#[test]
fn hint_columns_count_characters() {
    let detector = HintDetector::new();
    let lines = vec!["é https://a.io".to_string(), "日本 x https://b.io/ü y".to_string()];
    let hints = detector.scan(&lines);
    assert_eq!(hints[0].text, "https://a.io");
    assert_eq!((hints[0].row, hints[0].col_start, hints[0].col_end), (0, 2, 14));
    assert!(hints[0].contains(0, 2));
    let url = hints.iter().find(|h| h.row == 1 && h.text.starts_with("https")).unwrap();
    assert_eq!(url.text, "https://b.io/ü");
    assert_eq!((url.col_start, url.col_end), (5, 19));
    let chars: Vec<char> = lines[1].chars().collect();
    let taken: String = chars[url.col_start..url.col_end].iter().collect();
    assert_eq!(taken, url.text);
}

#[test]
fn byte_offsets_to_columns() {
    let v: Vec<char> = "aé日😀b".chars().collect();
    assert_eq!(byte_to_col(&v, 0), 0);
    assert_eq!(byte_to_col(&v, 1), 1);
    assert_eq!(byte_to_col(&v, 2), 1);
    assert_eq!(byte_to_col(&v, 3), 2);
    assert_eq!(byte_to_col(&v, 6), 3);
    assert_eq!(byte_to_col(&v, 10), 4);
    assert_eq!(byte_to_col(&v, 11), 5);
    assert_eq!(byte_to_col(&v, 100), 5);
}
