//! The 256-color ANSI palette: 16 standard colors, a 6x6x6 color cube and
//! 24 grays.

use crate::cell::Rgb;
use vstd::prelude::*;

verus! {

/// One channel of the color cube: level 0 is 0, level `n` is `55 + 40 n`.
pub open spec fn cube_level(n: int) -> int {
    if n == 0 {
        0
    } else {
        55 + n * 40
    }
}

/// The default color of each palette index.
pub open spec fn default_palette_color(i: int) -> Rgb {
    if i == 0 {
        Rgb { r: 0x00, g: 0x00, b: 0x00 }
    } else if i == 1 {
        Rgb { r: 0xCD, g: 0x00, b: 0x00 }
    } else if i == 2 {
        Rgb { r: 0x00, g: 0xCD, b: 0x00 }
    } else if i == 3 {
        Rgb { r: 0xCD, g: 0xCD, b: 0x00 }
    } else if i == 4 {
        Rgb { r: 0x00, g: 0x00, b: 0xEE }
    } else if i == 5 {
        Rgb { r: 0xCD, g: 0x00, b: 0xCD }
    } else if i == 6 {
        Rgb { r: 0x00, g: 0xCD, b: 0xCD }
    } else if i == 7 {
        Rgb { r: 0xE5, g: 0xE5, b: 0xE5 }
    } else if i == 8 {
        Rgb { r: 0x7F, g: 0x7F, b: 0x7F }
    } else if i == 9 {
        Rgb { r: 0xFF, g: 0x00, b: 0x00 }
    } else if i == 10 {
        Rgb { r: 0x00, g: 0xFF, b: 0x00 }
    } else if i == 11 {
        Rgb { r: 0xFF, g: 0xFF, b: 0x00 }
    } else if i == 12 {
        Rgb { r: 0x5C, g: 0x5C, b: 0xFF }
    } else if i == 13 {
        Rgb { r: 0xFF, g: 0x00, b: 0xFF }
    } else if i == 14 {
        Rgb { r: 0x00, g: 0xFF, b: 0xFF }
    } else if i == 15 {
        Rgb { r: 0xFF, g: 0xFF, b: 0xFF }
    } else if i < 232 {
        let k = i - 16;
        Rgb {
            r: cube_level(k / 36) as u8,
            g: cube_level((k / 6) % 6) as u8,
            b: cube_level(k % 6) as u8,
        }
    } else {
        let v = (8 + (i - 232) * 10) as u8;
        Rgb { r: v, g: v, b: v }
    }
}

/// The 256-color palette.
pub struct AnsiPalette {
    colors: [Rgb; 256],
}

fn cube_value(n: usize) -> (v: u8)
    requires
        n < 6,
    ensures
        v == cube_level(n as int),
{
    if n == 0 {
        0
    } else {
        (55 + n * 40) as u8
    }
}

fn standard_color(i: usize) -> (c: Rgb)
    requires
        i < 16,
    ensures
        c == default_palette_color(i as int),
{
    match i {
        0 => Rgb { r: 0x00, g: 0x00, b: 0x00 },
        1 => Rgb { r: 0xCD, g: 0x00, b: 0x00 },
        2 => Rgb { r: 0x00, g: 0xCD, b: 0x00 },
        3 => Rgb { r: 0xCD, g: 0xCD, b: 0x00 },
        4 => Rgb { r: 0x00, g: 0x00, b: 0xEE },
        5 => Rgb { r: 0xCD, g: 0x00, b: 0xCD },
        6 => Rgb { r: 0x00, g: 0xCD, b: 0xCD },
        7 => Rgb { r: 0xE5, g: 0xE5, b: 0xE5 },
        8 => Rgb { r: 0x7F, g: 0x7F, b: 0x7F },
        9 => Rgb { r: 0xFF, g: 0x00, b: 0x00 },
        10 => Rgb { r: 0x00, g: 0xFF, b: 0x00 },
        11 => Rgb { r: 0xFF, g: 0xFF, b: 0x00 },
        12 => Rgb { r: 0x5C, g: 0x5C, b: 0xFF },
        13 => Rgb { r: 0xFF, g: 0x00, b: 0xFF },
        14 => Rgb { r: 0x00, g: 0xFF, b: 0xFF },
        _ => Rgb { r: 0xFF, g: 0xFF, b: 0xFF },
    }
}

impl AnsiPalette {
    pub closed spec fn view_colors(&self) -> Seq<Rgb> {
        self.colors@
    }

    /// The default palette.
    pub fn new() -> (p: Self)
        ensures
            forall|i: int| 0 <= i < 256 ==> #[trigger] p.view_colors()[i] == default_palette_color(i),
    {
        let mut colors = [Rgb { r: 0, g: 0, b: 0 }; 256];
        let mut i: usize = 0;
        while i < 256
            invariant
                0 <= i <= 256,
                colors@.len() == 256,
                forall|j: int| 0 <= j < i ==> #[trigger] colors@[j] == default_palette_color(j),
            decreases 256 - i,
        {
            let c = if i < 16 {
                standard_color(i)
            } else if i < 232 {
                let k = i - 16;
                Rgb { r: cube_value(k / 36), g: cube_value((k / 6) % 6), b: cube_value(k % 6) }
            } else {
                let v = (8 + (i - 232) * 10) as u8;
                Rgb { r: v, g: v, b: v }
            };
            colors[i] = c;
            i = i + 1;
        }
        AnsiPalette { colors }
    }

    /// The color at `index`.
    pub fn get(&self, index: u8) -> (c: Rgb)
        ensures
            c == self.view_colors()[index as int],
    {
        self.colors[index as usize]
    }

    /// Replace the color at `index`.
    pub fn set(&mut self, index: u8, color: Rgb)
        ensures
            final(self).view_colors() == old(self).view_colors().update(index as int, color),
    {
        self.colors[index as usize] = color;
    }

    /// Restore the default palette.
    pub fn reset(&mut self)
        ensures
            forall|i: int|
                0 <= i < 256 ==> #[trigger] final(self).view_colors()[i] == default_palette_color(i),
    {
        *self = AnsiPalette::new();
    }

    /// All 256 colors.
    pub fn colors(&self) -> (c: &[Rgb; 256])
        ensures
            c@ == self.view_colors(),
    {
        &self.colors
    }
}

impl Default for AnsiPalette {
    fn default() -> (p: Self)
        ensures
            forall|i: int| 0 <= i < 256 ==> #[trigger] p.view_colors()[i] == default_palette_color(i),
    {
        AnsiPalette::new()
    }
}

/// The sixteen named palette entries.
#[derive(Debug, Clone, Copy, PartialEq, Eq, Structural)]
pub enum AnsiColor {
    Black,
    Red,
    Green,
    Yellow,
    Blue,
    Magenta,
    Cyan,
    White,
    BrightBlack,
    BrightRed,
    BrightGreen,
    BrightYellow,
    BrightBlue,
    BrightMagenta,
    BrightCyan,
    BrightWhite,
}

/// The palette index of a named color.
pub open spec fn ansi_color_index(c: AnsiColor) -> u8 {
    match c {
        AnsiColor::Black => 0,
        AnsiColor::Red => 1,
        AnsiColor::Green => 2,
        AnsiColor::Yellow => 3,
        AnsiColor::Blue => 4,
        AnsiColor::Magenta => 5,
        AnsiColor::Cyan => 6,
        AnsiColor::White => 7,
        AnsiColor::BrightBlack => 8,
        AnsiColor::BrightRed => 9,
        AnsiColor::BrightGreen => 10,
        AnsiColor::BrightYellow => 11,
        AnsiColor::BrightBlue => 12,
        AnsiColor::BrightMagenta => 13,
        AnsiColor::BrightCyan => 14,
        AnsiColor::BrightWhite => 15,
    }
}

impl From<AnsiColor> for u8 {
    fn from(color: AnsiColor) -> (r: u8) {
        match color {
            AnsiColor::Black => 0,
            AnsiColor::Red => 1,
            AnsiColor::Green => 2,
            AnsiColor::Yellow => 3,
            AnsiColor::Blue => 4,
            AnsiColor::Magenta => 5,
            AnsiColor::Cyan => 6,
            AnsiColor::White => 7,
            AnsiColor::BrightBlack => 8,
            AnsiColor::BrightRed => 9,
            AnsiColor::BrightGreen => 10,
            AnsiColor::BrightYellow => 11,
            AnsiColor::BrightBlue => 12,
            AnsiColor::BrightMagenta => 13,
            AnsiColor::BrightCyan => 14,
            AnsiColor::BrightWhite => 15,
        }
    }
}

impl vstd::std_specs::convert::FromSpecImpl<AnsiColor> for u8 {
    open spec fn obeys_from_spec() -> bool {
        true
    }

    open spec fn from_spec(v: AnsiColor) -> u8 {
        ansi_color_index(v)
    }
}

} // verus!
