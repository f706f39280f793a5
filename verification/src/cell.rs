//! Terminal cells: a character, its colors and its attribute flags.

use vstd::prelude::*;
use vstd::string::StringSliceAdditionalSpecFns;

verus! {

/// An RGB color.
#[derive(Debug, Clone, Copy, PartialEq, Eq, Structural, Default)]
pub struct Rgb {
    pub r: u8,
    pub g: u8,
    pub b: u8,
}

/// Whether a byte is an ASCII hexadecimal digit.
pub open spec fn is_hex_byte(b: u8) -> bool {
    (48 <= b <= 57) || (65 <= b <= 70) || (97 <= b <= 102)
}

/// The value of an ASCII hexadecimal digit.
pub open spec fn hex_val(b: u8) -> int {
    if 48 <= b <= 57 {
        b - 48
    } else if 65 <= b <= 70 {
        b - 55
    } else {
        b - 87
    }
}

/// The value of a two-byte field of `#RRGGBB`: two hexadecimal digits,
/// high digit first; nothing else is a field.
pub open spec fn hex_pair(b0: u8, b1: u8) -> Option<u8> {
    if is_hex_byte(b0) && is_hex_byte(b1) {
        Some((16 * hex_val(b0) + hex_val(b1)) as u8)
    } else {
        None
    }
}

/// The bytes left after removing every leading `#`.
pub open spec fn strip_hashes(s: Seq<u8>) -> Seq<u8>
    decreases s.len(),
{
    if s.len() > 0 && s[0] == 35 {
        strip_hashes(s.drop_first())
    } else {
        s
    }
}

/// What `Rgb::from_hex` gives for the UTF-8 bytes of its argument.
pub open spec fn spec_from_hex(bytes: Seq<u8>) -> Option<Rgb> {
    let h = strip_hashes(bytes);
    if h.len() != 6 {
        None
    } else {
        match (hex_pair(h[0], h[1]), hex_pair(h[2], h[3]), hex_pair(h[4], h[5])) {
            (Some(r), Some(g), Some(b)) => Some(Rgb { r, g, b }),
            _ => None,
        }
    }
}

fn hex_digit(b: u8) -> (r: Option<u8>)
    ensures
        is_hex_byte(b) ==> r == Some(hex_val(b) as u8),
        !is_hex_byte(b) ==> r is None,
{
    if b >= 48 && b <= 57 {
        Some(b - 48)
    } else if b >= 65 && b <= 70 {
        Some(b - 55)
    } else if b >= 97 && b <= 102 {
        Some(b - 87)
    } else {
        None
    }
}

fn parse_hex_pair(b0: u8, b1: u8) -> (r: Option<u8>)
    ensures
        r == hex_pair(b0, b1),
{
    let d1 = hex_digit(b1);
    match (hex_digit(b0), d1) {
        (Some(h), Some(l)) => Some(h * 16 + l),
        _ => None,
    }
}

impl Rgb {
    pub fn new(r: u8, g: u8, b: u8) -> (c: Self)
        ensures
            c == (Rgb { r, g, b }),
    {
        Rgb { r, g, b }
    }

    /// Parse a color written as `#RRGGBB` (any number of leading `#`);
    /// anything but six hexadecimal digits gives none.
    pub fn from_hex(hex: &str) -> (res: Option<Self>)
        ensures
            res == spec_from_hex(hex.spec_bytes()),
    {
        let bytes = hex.as_bytes();
        let mut i: usize = 0;
        assert(bytes@.skip(0) =~= bytes@);
        while i < bytes.len() && bytes[i] == 35
            invariant
                0 <= i <= bytes@.len(),
                strip_hashes(bytes@) == strip_hashes(bytes@.skip(i as int)),
            decreases bytes@.len() - i,
        {
            assert(bytes@.skip(i as int).drop_first() =~= bytes@.skip(i + 1));
            i = i + 1;
        }
        assert(strip_hashes(bytes@.skip(i as int)) == bytes@.skip(i as int));
        if bytes.len() - i != 6 {
            return None;
        }
        let r = parse_hex_pair(bytes[i], bytes[i + 1]);
        let g = parse_hex_pair(bytes[i + 2], bytes[i + 3]);
        let b = parse_hex_pair(bytes[i + 4], bytes[i + 5]);
        match (r, g, b) {
            (Some(r), Some(g), Some(b)) => Some(Rgb { r, g, b }),
            _ => None,
        }
    }
}

/// A color: an entry of the 256-color palette, a true color, or the
/// terminal's default foreground or background.
#[derive(Debug, Clone, Copy, PartialEq, Eq, Structural)]
pub enum Color {
    Indexed(u8),
    Rgb(Rgb),
    Foreground,
    Background,
}

/// Cell attribute flags, one bit each; the associated constants are the
/// masks of the single flags.
#[derive(Debug, Clone, Copy, PartialEq, Eq, Structural)]
pub struct CellFlags {
    pub bits: u16,
}

impl CellFlags {
    pub const BOLD: u16 = 0x0001;
    pub const DIM: u16 = 0x0002;
    pub const ITALIC: u16 = 0x0004;
    pub const UNDERLINE: u16 = 0x0008;
    pub const BLINK: u16 = 0x0010;
    pub const INVERSE: u16 = 0x0020;
    pub const HIDDEN: u16 = 0x0040;
    pub const STRIKETHROUGH: u16 = 0x0080;
    pub const DOUBLE_UNDERLINE: u16 = 0x0100;
    pub const CURLY_UNDERLINE: u16 = 0x0200;
    pub const WIDE: u16 = 0x0400;
    pub const WIDE_SPACER: u16 = 0x0800;

    pub fn empty() -> (f: CellFlags)
        ensures
            f.bits == 0,
    {
        CellFlags { bits: 0 }
    }

    pub fn is_empty(&self) -> (b: bool)
        ensures
            b == (self.bits == 0),
    {
        self.bits == 0
    }

    /// Whether every bit of `other` is set here.
    pub fn contains(&self, other: u16) -> (b: bool)
        ensures
            b == (self.bits & other == other),
    {
        self.bits & other == other
    }

    pub fn insert(&mut self, other: u16)
        ensures
            final(self).bits == old(self).bits | other,
    {
        self.bits = self.bits | other;
    }

    pub fn remove(&mut self, other: u16)
        ensures
            final(self).bits == old(self).bits & !other,
    {
        self.bits = self.bits & !other;
    }

    /// Set or clear the bits of `other`.
    pub fn set(&mut self, other: u16, value: bool)
        ensures
            final(self).bits == (if value { old(self).bits | other } else { old(self).bits
                & !other }),
    {
        if value {
            self.insert(other);
        } else {
            self.remove(other);
        }
    }
}

/// A terminal cell.
#[derive(Debug, Clone, Copy, PartialEq, Eq, Structural)]
pub struct Cell {
    pub c: char,
    pub fg: Color,
    pub bg: Color,
    pub underline_color: Option<Color>,
    pub flags: CellFlags,
}

/// The cell that a cleared position holds.
pub open spec fn blank_cell() -> Cell {
    Cell {
        c: ' ',
        fg: Color::Foreground,
        bg: Color::Background,
        underline_color: None,
        flags: CellFlags { bits: 0 },
    }
}

impl Default for Cell {
    fn default() -> (c: Self)
        ensures
            c == blank_cell(),
    {
        Cell {
            c: ' ',
            fg: Color::Foreground,
            bg: Color::Background,
            underline_color: None,
            flags: CellFlags { bits: 0 },
        }
    }
}

impl Cell {
    pub fn new(c: char) -> (cell: Self)
        ensures
            cell == (Cell { c, ..blank_cell() }),
    {
        Cell { c, ..Cell::default() }
    }

    pub fn with_colors(c: char, fg: Color, bg: Color) -> (cell: Self)
        ensures
            cell == (Cell { c, fg, bg, ..blank_cell() }),
    {
        Cell { c, fg, bg, ..Cell::default() }
    }

    /// A space with the default colors and no flags.
    pub fn is_empty(&self) -> (b: bool)
        ensures
            b == (self.c == ' ' && self.fg == Color::Foreground && self.bg == Color::Background
                && self.flags.bits == 0),
    {
        self.c == ' ' && self.fg == Color::Foreground && self.bg == Color::Background
            && self.flags.is_empty()
    }

    pub fn is_wide(&self) -> (b: bool)
        ensures
            b == (self.flags.bits & 0x0400 == 0x0400),
    {
        self.flags.contains(CellFlags::WIDE)
    }

    pub fn is_wide_spacer(&self) -> (b: bool)
        ensures
            b == (self.flags.bits & 0x0800 == 0x0800),
    {
        self.flags.contains(CellFlags::WIDE_SPACER)
    }

    pub fn reset(&mut self)
        ensures
            *final(self) == blank_cell(),
    {
        *self = Cell::default();
    }

    pub fn set_bold(&mut self, bold: bool)
        ensures
            *final(self) == (Cell { flags: final(self).flags, ..*old(self) }),
            final(self).flags.bits == (if bold { old(self).flags.bits | 0x0001 } else { old(
                self,
            ).flags.bits & !0x0001u16 }),
    {
        self.flags.set(CellFlags::BOLD, bold);
    }

    pub fn set_italic(&mut self, italic: bool)
        ensures
            *final(self) == (Cell { flags: final(self).flags, ..*old(self) }),
            final(self).flags.bits == (if italic { old(self).flags.bits | 0x0004 } else { old(
                self,
            ).flags.bits & !0x0004u16 }),
    {
        self.flags.set(CellFlags::ITALIC, italic);
    }

    pub fn set_underline(&mut self, underline: bool)
        ensures
            *final(self) == (Cell { flags: final(self).flags, ..*old(self) }),
            final(self).flags.bits == (if underline { old(self).flags.bits | 0x0008 } else { old(
                self,
            ).flags.bits & !0x0008u16 }),
    {
        self.flags.set(CellFlags::UNDERLINE, underline);
    }

    pub fn set_inverse(&mut self, inverse: bool)
        ensures
            *final(self) == (Cell { flags: final(self).flags, ..*old(self) }),
            final(self).flags.bits == (if inverse { old(self).flags.bits | 0x0020 } else { old(
                self,
            ).flags.bits & !0x0020u16 }),
    {
        self.flags.set(CellFlags::INVERSE, inverse);
    }

    pub fn set_strikethrough(&mut self, strikethrough: bool)
        ensures
            *final(self) == (Cell { flags: final(self).flags, ..*old(self) }),
            final(self).flags.bits == (if strikethrough { old(self).flags.bits | 0x0080 } else {
                old(self).flags.bits & !0x0080u16
            }),
    {
        self.flags.set(CellFlags::STRIKETHROUGH, strikethrough);
    }
}

} // verus!
