use corgiterm::shortcuts::{
    matches_shortcut, parse_shortcut, Key, ModifierType, ALT_MASK, CONTROL_MASK, ISO_LEFT_TAB, SHIFT_MASK, SUPER_MASK, TAB,
};

#[test]
fn test_parse_simple_shortcut() {
    let shortcut = parse_shortcut("Ctrl+T").unwrap();
    assert!(shortcut.modifiers.contains(CONTROL_MASK));
    assert_eq!(shortcut.key, Key('t' as u32));
}

#[test]
fn test_parse_compound_shortcut() {
    let shortcut = parse_shortcut("Ctrl+Shift+A").unwrap();
    assert!(shortcut.modifiers.contains(CONTROL_MASK));
    assert!(shortcut.modifiers.contains(SHIFT_MASK));
    assert_eq!(shortcut.key, Key('a' as u32));
}

#[test]
fn test_parse_function_key() {
    let shortcut = parse_shortcut("Ctrl+F5").unwrap();
    assert!(shortcut.modifiers.contains(CONTROL_MASK));
    assert_eq!(shortcut.key, Key(0xffc2));
}

#[test]
fn test_parse_number_key() {
    let shortcut = parse_shortcut("Ctrl+1").unwrap();
    assert!(shortcut.modifiers.contains(CONTROL_MASK));
    assert_eq!(shortcut.key, Key('1' as u32));
}

#[test]
fn test_parse_brackets() {
    let shortcut = parse_shortcut("Ctrl+Shift+]").unwrap();
    assert!(shortcut.modifiers.contains(CONTROL_MASK));
    assert!(shortcut.modifiers.contains(SHIFT_MASK));
    assert_eq!(shortcut.key, Key(0x5d));
}

#[test]
fn test_invalid_modifier() {
    let result = parse_shortcut("Invalid+T");
    assert!(result.is_err());
}

#[test]
fn test_invalid_key() {
    let result = parse_shortcut("Ctrl+InvalidKey");
    assert!(result.is_err());
}

#[test]
fn test_empty_shortcut() {
    let result = parse_shortcut("");
    assert!(result.is_err());
}

#[test]
fn shortcut_errors_and_spaces() {
    assert_eq!(parse_shortcut("   "), Err("Empty shortcut string".to_string()));
    assert_eq!(parse_shortcut("Hyper+T"), Err("Unknown modifier: Hyper".to_string()));
    assert_eq!(parse_shortcut("Ctrl+Nope"), Err("Unknown key: Nope".to_string()));
    let p = parse_shortcut(" alt + win + Page_Up ").err();
    assert_eq!(p, Some("Unknown key: Page_Up".to_string()));
    let q = parse_shortcut("META+CMD+PgUp").unwrap();
    assert_eq!(q.modifiers, ModifierType(ALT_MASK | SUPER_MASK));
    assert_eq!(q.key, Key(0xff55));
    assert_eq!(parse_shortcut("Esc").unwrap().modifiers, ModifierType::empty());
}

#[test]
fn shortcut_matching() {
    let p = parse_shortcut("Ctrl+A").unwrap();
    assert!(matches_shortcut(&p, Key('a' as u32), ModifierType(CONTROL_MASK)));
    assert!(matches_shortcut(&p, Key('A' as u32), ModifierType(CONTROL_MASK)));
    assert!(!matches_shortcut(&p, Key('a' as u32), ModifierType(CONTROL_MASK | SHIFT_MASK)));
    assert!(!matches_shortcut(&p, Key('b' as u32), ModifierType(CONTROL_MASK)));
    let t = parse_shortcut("Ctrl+Shift+Tab").unwrap();
    assert_eq!(t.key, Key(TAB));
    assert!(matches_shortcut(&t, Key(ISO_LEFT_TAB), ModifierType(CONTROL_MASK | SHIFT_MASK)));
    let mut m = ModifierType::empty();
    m.insert(SHIFT_MASK);
    assert!(m.contains(SHIFT_MASK) && !m.contains(CONTROL_MASK));
}
