//! Keyboard shortcuts: parsing texts like "Ctrl+Shift+A" into modifiers
//! and a key, and matching key events against them. Keys are key values
//! (X11 keysyms, as GDK numbers them) and modifiers the bits of GDK's
//! modifier mask.

use vstd::prelude::*;
use crate::text::{append_str, chars_of, split_chars, split_on, string_from_chars, trim, trim_chars, str_eq};
use crate::snippets::{lowercase, to_lowercase};

verus! {

/// A key value.
#[derive(Debug, Clone, Copy, PartialEq, Eq, Structural)]
pub struct Key(pub u32);

/// A set of modifier keys, as bits.
#[derive(Debug, Clone, Copy, PartialEq, Eq, Structural)]
pub struct ModifierType(pub u32);

/// The Shift bit.
pub const SHIFT_MASK: u32 = 0x1;
/// The Control bit.
pub const CONTROL_MASK: u32 = 0x4;
/// The Alt bit.
pub const ALT_MASK: u32 = 0x8;
/// The Super bit.
pub const SUPER_MASK: u32 = 0x4000000;

impl ModifierType {
    /// No modifiers.
    pub fn empty() -> (m: Self)
        ensures
            m.0 == 0,
    {
        ModifierType(0)
    }

    /// Whether every bit of `bits` is set.
    pub fn contains(&self, bits: u32) -> (b: bool)
        ensures
            b == (self.0 & bits == bits),
    {
        self.0 & bits == bits
    }

    /// Sets the bits of `bits`.
    pub fn insert(&mut self, bits: u32)
        ensures
            final(self).0 == old(self).0 | bits,
    {
        self.0 = self.0 | bits;
    }
}

/// A parsed keyboard shortcut.
#[derive(Debug, Clone, Copy, PartialEq, Eq, Structural)]
pub struct ParsedShortcut {
    pub modifiers: ModifierType,
    pub key: Key,
}

/// The modifier bit a (lower-case) modifier name stands for.
pub open spec fn modifier_bit(name: Seq<char>) -> Option<u32> {
    if name == "ctrl"@ || name == "control"@ {
        Some(CONTROL_MASK)
    } else if name == "shift"@ {
        Some(SHIFT_MASK)
    } else if name == "alt"@ || name == "meta"@ {
        Some(ALT_MASK)
    } else if name == "super"@ || name == "win"@ || name == "cmd"@ {
        Some(SUPER_MASK)
    } else {
        None
    }
}

/// The key value a (lower-case) key name stands for.
pub open spec fn key_value(name: Seq<char>) -> Option<u32> {
    if name.len() == 1 && 'a' <= name[0] <= 'z' {
        Some(name[0] as u32)
    } else if name.len() == 1 && '0' <= name[0] <= '9' {
        Some(name[0] as u32)
    } else if name == "f1"@ {
        Some(0xffbe)
    } else if name == "f2"@ {
        Some(0xffbf)
    } else if name == "f3"@ {
        Some(0xffc0)
    } else if name == "f4"@ {
        Some(0xffc1)
    } else if name == "f5"@ {
        Some(0xffc2)
    } else if name == "f6"@ {
        Some(0xffc3)
    } else if name == "f7"@ {
        Some(0xffc4)
    } else if name == "f8"@ {
        Some(0xffc5)
    } else if name == "f9"@ {
        Some(0xffc6)
    } else if name == "f10"@ {
        Some(0xffc7)
    } else if name == "f11"@ {
        Some(0xffc8)
    } else if name == "f12"@ {
        Some(0xffc9)
    } else if name == "tab"@ {
        Some(0xff09)
    } else if name == "space"@ {
        Some(0x20)
    } else if name == "enter"@ || name == "return"@ {
        Some(0xff0d)
    } else if name == "escape"@ || name == "esc"@ {
        Some(0xff1b)
    } else if name == "backspace"@ {
        Some(0xff08)
    } else if name == "delete"@ || name == "del"@ {
        Some(0xffff)
    } else if name == "insert"@ || name == "ins"@ {
        Some(0xff63)
    } else if name == "home"@ {
        Some(0xff50)
    } else if name == "end"@ {
        Some(0xff57)
    } else if name == "pageup"@ || name == "pgup"@ {
        Some(0xff55)
    } else if name == "pagedown"@ || name == "pgdn"@ {
        Some(0xff56)
    } else if name == "up"@ {
        Some(0xff52)
    } else if name == "down"@ {
        Some(0xff54)
    } else if name == "left"@ {
        Some(0xff51)
    } else if name == "right"@ {
        Some(0xff53)
    } else if name == "["@ || name == "bracketleft"@ {
        Some(0x5b)
    } else if name == "]"@ || name == "bracketright"@ {
        Some(0x5d)
    } else if name == "+"@ || name == "plus"@ {
        Some(0x2b)
    } else if name == "-"@ || name == "minus"@ {
        Some(0x2d)
    } else if name == "="@ || name == "equal"@ {
        Some(0x3d)
    } else if name == "/"@ || name == "slash"@ {
        Some(0x2f)
    } else if name == "\\"@ || name == "backslash"@ {
        Some(0x5c)
    } else if name == ","@ || name == "comma"@ {
        Some(0x2c)
    } else if name == "."@ || name == "period"@ {
        Some(0x2e)
    } else if name == ";"@ || name == "semicolon"@ {
        Some(0x3b)
    } else if name == "'"@ || name == "apostrophe"@ {
        Some(0x27)
    } else if name == "`"@ || name == "grave"@ {
        Some(0x60)
    } else {
        None
    }
}

/// Each arrow key has exactly one name: "left" names GDK's Left (0xff51),
/// "up" its Up (0xff52), "right" its Right (0xff53) and "down" its Down
/// (0xff54), and no other name gives any of these keys.
pub proof fn law_arrow_key_names(name: Seq<char>)
    ensures
        (key_value(name) == Some(0xff51u32)) == (name == "left"@),
        (key_value(name) == Some(0xff52u32)) == (name == "up"@),
        (key_value(name) == Some(0xff53u32)) == (name == "right"@),
        (key_value(name) == Some(0xff54u32)) == (name == "down"@),
{
    reveal_strlit("f1");
    reveal_strlit("f2");
    reveal_strlit("f3");
    reveal_strlit("f4");
    reveal_strlit("f5");
    reveal_strlit("f6");
    reveal_strlit("f7");
    reveal_strlit("f8");
    reveal_strlit("f9");
    reveal_strlit("f10");
    reveal_strlit("f11");
    reveal_strlit("f12");
    reveal_strlit("tab");
    reveal_strlit("space");
    reveal_strlit("enter");
    reveal_strlit("return");
    reveal_strlit("escape");
    reveal_strlit("esc");
    reveal_strlit("backspace");
    reveal_strlit("delete");
    reveal_strlit("del");
    reveal_strlit("insert");
    reveal_strlit("ins");
    reveal_strlit("home");
    reveal_strlit("end");
    reveal_strlit("pageup");
    reveal_strlit("pgup");
    reveal_strlit("pagedown");
    reveal_strlit("pgdn");
    reveal_strlit("up");
    reveal_strlit("down");
    reveal_strlit("left");
    reveal_strlit("right");
    assert("left"@[0] == 'l' && "up"@[0] == 'u' && "right"@[0] == 'r' && "down"@[0] == 'd');
    assert("f1"@[0] == 'f' && "f2"@[0] == 'f' && "f3"@[0] == 'f' && "f4"@[0] == 'f' && "f5"@[0] == 'f');
    assert("f6"@[0] == 'f' && "f7"@[0] == 'f' && "f8"@[0] == 'f' && "f9"@[0] == 'f');
    assert("home"@[0] == 'h' && "pgup"@[0] == 'p' && "pgdn"@[0] == 'p' && "enter"@[0] == 'e');
    assert("space"@[0] == 's' && "ins"@[0] == 'i' && "del"@[0] == 'd' && "del"@.len() == 3);
    assert("insert"@[0] == 'i' && "escape"@[0] == 'e' && "delete"@[0] == 'd' && "return"@[0] == 'r');
    assert("pageup"@[0] == 'p');
}

/// The modifier bits of the names `names` (in lower case), or the first
/// name that is no modifier.
pub open spec fn modifier_bits(names: Seq<Seq<char>>) -> Result<u32, Seq<char>>
    decreases names.len(),
{
    if names.len() == 0 {
        Ok(0u32)
    } else {
        match modifier_bits(names.drop_last()) {
            Err(e) => Err(e),
            Ok(bits) => match modifier_bit(lowercase(names.last())) {
                Some(b) => Ok(bits | b),
                None => Err(names.last()),
            },
        }
    }
}

/// What a shortcut text means: its pieces between `+` signs, trimmed, are
/// modifier names and then a key name, all compared in lower case.
pub open spec fn shortcut_meaning(text: Seq<char>) -> Result<ParsedShortcut, Seq<char>> {
    if trim(text).len() == 0 {
        Err("Empty shortcut string"@)
    } else {
        let parts = split_on(text, '+').map_values(|p: Seq<char>| trim(p));
        match modifier_bits(parts.drop_last()) {
            Err(m) => Err("Unknown modifier: "@ + m),
            Ok(bits) => match key_value(lowercase(parts.last())) {
                Some(k) => Ok(ParsedShortcut { modifiers: ModifierType(bits), key: Key(k) }),
                None => Err("Unknown key: "@ + parts.last()),
            },
        }
    }
}

/// The key of a parsed shortcut is one of the arrow keys exactly when the
/// shortcut's last part names that arrow, in any case: "Alt+Left" gives
/// GDK's Left and "Alt+Right" its Right, never the one for the other.
pub proof fn law_arrow_shortcuts(text: Seq<char>)
    requires
        shortcut_meaning(text) is Ok,
    ensures
        ({
            let last = lowercase(trim(split_on(text, '+').last()));
            let k = shortcut_meaning(text)->Ok_0.key;
            &&& (k == Key(0xff51u32)) == (last == "left"@)
            &&& (k == Key(0xff52u32)) == (last == "up"@)
            &&& (k == Key(0xff53u32)) == (last == "right"@)
            &&& (k == Key(0xff54u32)) == (last == "down"@)
        }),
{
    crate::text::lemma_split_on_nonempty(text, '+');
    let sp = split_on(text, '+');
    let parts = sp.map_values(|p: Seq<char>| trim(p));
    assert(parts.last() == trim(sp.last()));
    law_arrow_key_names(lowercase(parts.last()));
}

fn lower_is(v: &Vec<char>, name: &str) -> (b: bool)
    ensures
        b == (v@ == name@),
{
    let s = string_from_chars(v.as_slice());
    str_eq(s.as_str(), name)
}

/// The modifier bit a lower-case modifier name stands for.
fn parse_modifier(name: &Vec<char>) -> (r: Option<u32>)
    ensures
        r == modifier_bit(name@),
{
    if lower_is(name, "ctrl") || lower_is(name, "control") {
        Some(CONTROL_MASK)
    } else if lower_is(name, "shift") {
        Some(SHIFT_MASK)
    } else if lower_is(name, "alt") || lower_is(name, "meta") {
        Some(ALT_MASK)
    } else if lower_is(name, "super") || lower_is(name, "win") || lower_is(name, "cmd") {
        Some(SUPER_MASK)
    } else {
        None
    }
}

/// The key value a lower-case key name stands for.
fn parse_key(name: &Vec<char>) -> (r: Option<u32>)
    ensures
        r == key_value(name@),
{
    if name.len() == 1 && 'a' <= name[0] && name[0] <= 'z' {
        return Some(name[0] as u32);
    }
    if name.len() == 1 && '0' <= name[0] && name[0] <= '9' {
        return Some(name[0] as u32);
    }
    if lower_is(name, "f1") {
        Some(0xffbe)
    } else if lower_is(name, "f2") {
        Some(0xffbf)
    } else if lower_is(name, "f3") {
        Some(0xffc0)
    } else if lower_is(name, "f4") {
        Some(0xffc1)
    } else if lower_is(name, "f5") {
        Some(0xffc2)
    } else if lower_is(name, "f6") {
        Some(0xffc3)
    } else if lower_is(name, "f7") {
        Some(0xffc4)
    } else if lower_is(name, "f8") {
        Some(0xffc5)
    } else if lower_is(name, "f9") {
        Some(0xffc6)
    } else if lower_is(name, "f10") {
        Some(0xffc7)
    } else if lower_is(name, "f11") {
        Some(0xffc8)
    } else if lower_is(name, "f12") {
        Some(0xffc9)
    } else if lower_is(name, "tab") {
        Some(0xff09)
    } else if lower_is(name, "space") {
        Some(0x20)
    } else if lower_is(name, "enter") || lower_is(name, "return") {
        Some(0xff0d)
    } else if lower_is(name, "escape") || lower_is(name, "esc") {
        Some(0xff1b)
    } else if lower_is(name, "backspace") {
        Some(0xff08)
    } else if lower_is(name, "delete") || lower_is(name, "del") {
        Some(0xffff)
    } else if lower_is(name, "insert") || lower_is(name, "ins") {
        Some(0xff63)
    } else if lower_is(name, "home") {
        Some(0xff50)
    } else if lower_is(name, "end") {
        Some(0xff57)
    } else if lower_is(name, "pageup") || lower_is(name, "pgup") {
        Some(0xff55)
    } else if lower_is(name, "pagedown") || lower_is(name, "pgdn") {
        Some(0xff56)
    } else if lower_is(name, "up") {
        Some(0xff52)
    } else if lower_is(name, "down") {
        Some(0xff54)
    } else if lower_is(name, "left") {
        Some(0xff51)
    } else if lower_is(name, "right") {
        Some(0xff53)
    } else if lower_is(name, "[") || lower_is(name, "bracketleft") {
        Some(0x5b)
    } else if lower_is(name, "]") || lower_is(name, "bracketright") {
        Some(0x5d)
    } else if lower_is(name, "+") || lower_is(name, "plus") {
        Some(0x2b)
    } else if lower_is(name, "-") || lower_is(name, "minus") {
        Some(0x2d)
    } else if lower_is(name, "=") || lower_is(name, "equal") {
        Some(0x3d)
    } else if lower_is(name, "/") || lower_is(name, "slash") {
        Some(0x2f)
    } else if lower_is(name, "\\") || lower_is(name, "backslash") {
        Some(0x5c)
    } else if lower_is(name, ",") || lower_is(name, "comma") {
        Some(0x2c)
    } else if lower_is(name, ".") || lower_is(name, "period") {
        Some(0x2e)
    } else if lower_is(name, ";") || lower_is(name, "semicolon") {
        Some(0x3b)
    } else if lower_is(name, "'") || lower_is(name, "apostrophe") {
        Some(0x27)
    } else if lower_is(name, "`") || lower_is(name, "grave") {
        Some(0x60)
    } else {
        None
    }
}

fn lowered(v: &Vec<char>) -> (r: Vec<char>)
    ensures
        r@ == lowercase(v@),
{
    let s = string_from_chars(v.as_slice());
    let l = to_lowercase(s.as_str());
    chars_of(l.as_str())
}

/// Parses a shortcut text like "Ctrl+Shift+A".
pub fn parse_shortcut(shortcut: &str) -> (r: Result<ParsedShortcut, String>)
    ensures
        match r {
            Ok(p) => shortcut_meaning(shortcut@) == Ok::<ParsedShortcut, Seq<char>>(p),
            Err(e) => shortcut_meaning(shortcut@) == Err::<ParsedShortcut, Seq<char>>(e@),
        },
{
    let c = chars_of(shortcut);
    let t = trim_chars(c.as_slice());
    if t.len() == 0 {
        return Err("Empty shortcut string".to_owned());
    }
    let pieces = split_chars(c.as_slice(), '+');
    let ghost sp = split_on(shortcut@, '+');
    let ghost parts = sp.map_values(|p: Seq<char>| trim(p));
    proof {
        crate::text::lemma_split_on_nonempty(shortcut@, '+');
    }
    let n = pieces.len();
    let mut bits: u32 = 0;
    let mut i: usize = 0;
    while i + 1 < n
        invariant
            n == pieces@.len() == sp.len() == parts.len(),
            n >= 1,
            i + 1 <= n,
            trim(shortcut@).len() > 0,
            sp == split_on(shortcut@, '+'),
            parts == sp.map_values(|p: Seq<char>| trim(p)),
            forall|k: int| 0 <= k < pieces@.len() ==> #[trigger] pieces@[k]@ == sp[k],
            modifier_bits(parts.take(i as int)) == Ok::<u32, Seq<char>>(bits),
        decreases n - i,
    {
        let part = trim_chars(pieces[i].as_slice());
        let low = lowered(&part);
        proof {
            assert(parts.take(i + 1).drop_last() =~= parts.take(i as int));
            assert(parts.take(i + 1).last() == parts[i as int]);
        }
        match parse_modifier(&low) {
            Some(b) => {
                bits = bits | b;
            },
            None => {
                let mut e = "Unknown modifier: ".to_owned();
                let p = string_from_chars(part.as_slice());
                append_str(&mut e, p.as_str());
                proof {
                    let d = parts.drop_last();
                    assert(d.take(i + 1).drop_last() =~= parts.take(i as int));
                    assert(d.take(i + 1).last() == parts[i as int]);
                    assert(part@ == parts[i as int]);
                    assert(modifier_bits(d.take(i + 1)) == Err::<u32, Seq<char>>(parts[i as int]));
                    lemma_bits_err_extends(d, i + 1, parts[i as int]);
                    assert(split_on(shortcut@, '+').map_values(|p: Seq<char>| trim(p)) =~= parts);
                    assert(e@ == "Unknown modifier: "@ + parts[i as int]);
                    assert(trim(shortcut@).len() > 0);
                }
                return Err(e);
            },
        }
        i = i + 1;
    }
    assert(parts.take(i as int) =~= parts.drop_last());
    let last = trim_chars(pieces[n - 1].as_slice());
    let low = lowered(&last);
    match parse_key(&low) {
        Some(k) => Ok(ParsedShortcut { modifiers: ModifierType(bits), key: Key(k) }),
        None => {
            let mut e = "Unknown key: ".to_owned();
            let p = string_from_chars(last.as_slice());
            append_str(&mut e, p.as_str());
            Err(e)
        },
    }
}

/// Once the names up to `k` give an error, so do all the names.
proof fn lemma_bits_err_extends(names: Seq<Seq<char>>, k: int, m: Seq<char>)
    requires
        0 <= k <= names.len(),
        modifier_bits(names.take(k)) == Err::<u32, Seq<char>>(m),
    ensures
        modifier_bits(names) == Err::<u32, Seq<char>>(m),
    decreases names.len() - k,
{
    if k < names.len() {
        assert(names.take(k + 1).drop_last() =~= names.take(k));
        lemma_bits_err_extends(names, k + 1, m);
    } else {
        assert(names.take(k) =~= names);
    }
}

/// The upper-case key value of a lower-case letter's key value.
pub open spec fn upper_of(k: u32) -> Option<u32> {
    if 0x61 <= k <= 0x7a {
        Some((k - 0x20) as u32)
    } else {
        None
    }
}

/// Tab with Shift held, as GDK reports it.
pub const ISO_LEFT_TAB: u32 = 0xfe20;

/// The Tab key.
pub const TAB: u32 = 0xff09;

/// Whether a key event matches a shortcut: the same key (a letter in
/// either case, and Tab also as the left tab that Shift+Tab gives) and
/// exactly the same modifiers.
pub open spec fn event_matches(parsed: ParsedShortcut, key: Key, modifiers: ModifierType) -> bool {
    let key_ok = parsed.key == key || (upper_of(parsed.key.0) == Some(key.0)) || (parsed.key.0 == TAB && key.0
        == ISO_LEFT_TAB);
    key_ok && modifiers == parsed.modifiers
}

/// A shortcut matches the key event it names, and no event with other
/// modifiers.
pub proof fn law_shortcut_matches_itself(parsed: ParsedShortcut, key: Key, modifiers: ModifierType)
    ensures
        event_matches(parsed, parsed.key, parsed.modifiers),
        modifiers != parsed.modifiers ==> !event_matches(parsed, key, modifiers),
{
}

/// Whether a key event matches a shortcut.
pub fn matches_shortcut(parsed: &ParsedShortcut, key: Key, modifiers: ModifierType) -> (b: bool)
    ensures
        b == event_matches(*parsed, key, modifiers),
{
    let k = parsed.key.0;
    let key_ok = k == key.0 || (0x61 <= k && k <= 0x7a && key.0 == k - 0x20) || (k == TAB && key.0 == ISO_LEFT_TAB);
    key_ok && modifiers.0 == parsed.modifiers.0
}

} // verus!
