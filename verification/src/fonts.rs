//! Figlet-style fonts for writing text in large letters: each font maps a
//! character to the lines of its glyph, all of the font's height.

use vstd::prelude::*;
use crate::text::{ascii_lower, ascii_upper, chars_of, push_char, to_ascii_lower, to_ascii_upper, string_views};

verus! {

/// The fonts, by name.
#[derive(Debug, Clone, Copy, PartialEq, Eq, Structural)]
pub enum AsciiFont {
    /// Standard font
    Standard,
    /// Small font
    Small,
    /// Block font (big bold letters)
    Block,
    /// Banner font (simple caps)
    Banner,
    /// Mini font (tiny 3-line)
    Mini,
    /// Shadow font (3D effect)
    Shadow,
    /// Slant font (classic diagonal)
    Slant,
    /// Big font (large bold letters)
    Big,
    /// Doom font (classic game style)
    Doom,
    /// Script font (cursive style)
    Script,
    /// Digital font (7-segment LED display)
    Digital,
    /// 3D font (perspective effect)
    ThreeD,
    /// Bubble font (rounded letters)
    Bubble,
    /// Graffiti font (street art style)
    Graffiti,
    /// Gothic font (old English style)
    Gothic,
    /// Lean font (italicized/leaning)
    Lean,
    /// Isometric font (3D isometric view)
    Isometric,
    /// Starwars font (sci-fi style)
    StarWars,
    /// Cyberlarge font (modern cyber aesthetic)
    Cyberlarge,
    /// Alligator font (cool teeth style)
    Alligator,
    /// Roman font (serif style)
    Roman,
    /// Thick font (extra bold)
    Thick,
    /// Ogre font (monster style)
    Ogre,
    /// Ivrit font (Hebrew-inspired)
    Ivrit,
    /// Rectangles font (box drawing)
    Rectangles,
}

/// Standard font
pub const FONT_STANDARD: AsciiFont = AsciiFont::Standard;

/// Small font
pub const FONT_SMALL: AsciiFont = AsciiFont::Small;

/// Block font (big bold letters)
pub const FONT_BLOCK: AsciiFont = AsciiFont::Block;

/// Banner font (simple caps)
pub const FONT_BANNER: AsciiFont = AsciiFont::Banner;

/// Mini font (tiny 3-line)
pub const FONT_MINI: AsciiFont = AsciiFont::Mini;

/// Shadow font (3D effect)
pub const FONT_SHADOW: AsciiFont = AsciiFont::Shadow;

/// Slant font (classic diagonal)
pub const FONT_SLANT: AsciiFont = AsciiFont::Slant;

/// Big font (large bold letters)
pub const FONT_BIG: AsciiFont = AsciiFont::Big;

/// Doom font (classic game style)
pub const FONT_DOOM: AsciiFont = AsciiFont::Doom;

/// Script font (cursive style)
pub const FONT_SCRIPT: AsciiFont = AsciiFont::Script;

/// Digital font (7-segment LED display)
pub const FONT_DIGITAL: AsciiFont = AsciiFont::Digital;

/// 3D font (perspective effect)
pub const FONT_3D: AsciiFont = AsciiFont::ThreeD;

/// Bubble font (rounded letters)
pub const FONT_BUBBLE: AsciiFont = AsciiFont::Bubble;

/// Graffiti font (street art style)
pub const FONT_GRAFFITI: AsciiFont = AsciiFont::Graffiti;

/// Gothic font (old English style)
pub const FONT_GOTHIC: AsciiFont = AsciiFont::Gothic;

/// Lean font (italicized/leaning)
pub const FONT_LEAN: AsciiFont = AsciiFont::Lean;

/// Isometric font (3D isometric view)
pub const FONT_ISOMETRIC: AsciiFont = AsciiFont::Isometric;

/// Starwars font (sci-fi style)
pub const FONT_STARWARS: AsciiFont = AsciiFont::StarWars;

/// Cyberlarge font (modern cyber aesthetic)
pub const FONT_CYBERLARGE: AsciiFont = AsciiFont::Cyberlarge;

/// Alligator font (cool teeth style)
pub const FONT_ALLIGATOR: AsciiFont = AsciiFont::Alligator;

/// Roman font (serif style)
pub const FONT_ROMAN: AsciiFont = AsciiFont::Roman;

/// Thick font (extra bold)
pub const FONT_THICK: AsciiFont = AsciiFont::Thick;

/// Ogre font (monster style)
pub const FONT_OGRE: AsciiFont = AsciiFont::Ogre;

/// Ivrit font (Hebrew-inspired)
pub const FONT_IVRIT: AsciiFont = AsciiFont::Ivrit;

/// Rectangles font (box drawing)
pub const FONT_RECTANGLES: AsciiFont = AsciiFont::Rectangles;

/// The number of lines of each glyph of `font`.
pub open spec fn font_height(font: AsciiFont) -> nat {
    match font {
        AsciiFont::Standard => 6,
        AsciiFont::Small => 5,
        AsciiFont::Block => 5,
        AsciiFont::Banner => 3,
        AsciiFont::Mini => 3,
        AsciiFont::Shadow => 4,
        AsciiFont::Slant => 6,
        AsciiFont::Big => 8,
        AsciiFont::Doom => 8,
        AsciiFont::Script => 5,
        AsciiFont::Digital => 5,
        AsciiFont::ThreeD => 7,
        AsciiFont::Bubble => 4,
        AsciiFont::Graffiti => 6,
        AsciiFont::Gothic => 6,
        AsciiFont::Lean => 5,
        AsciiFont::Isometric => 7,
        AsciiFont::StarWars => 6,
        AsciiFont::Cyberlarge => 6,
        AsciiFont::Alligator => 5,
        AsciiFont::Roman => 6,
        AsciiFont::Thick => 5,
        AsciiFont::Ogre => 7,
        AsciiFont::Ivrit => 5,
        AsciiFont::Rectangles => 5,
    }
}

/// The display name of `font`.
pub open spec fn font_name(font: AsciiFont) -> Seq<char> {
    match font {
        AsciiFont::Standard => "Standard"@,
        AsciiFont::Small => "Small"@,
        AsciiFont::Block => "Block"@,
        AsciiFont::Banner => "Banner"@,
        AsciiFont::Mini => "Mini"@,
        AsciiFont::Shadow => "Shadow"@,
        AsciiFont::Slant => "Slant"@,
        AsciiFont::Big => "Big"@,
        AsciiFont::Doom => "Doom"@,
        AsciiFont::Script => "Script"@,
        AsciiFont::Digital => "Digital"@,
        AsciiFont::ThreeD => "3D"@,
        AsciiFont::Bubble => "Bubble"@,
        AsciiFont::Graffiti => "Graffiti"@,
        AsciiFont::Gothic => "Gothic"@,
        AsciiFont::Lean => "Lean"@,
        AsciiFont::Isometric => "Isometric"@,
        AsciiFont::StarWars => "Star Wars"@,
        AsciiFont::Cyberlarge => "Cyberlarge"@,
        AsciiFont::Alligator => "Alligator"@,
        AsciiFont::Roman => "Roman"@,
        AsciiFont::Thick => "Thick"@,
        AsciiFont::Ogre => "Ogre"@,
        AsciiFont::Ivrit => "Ivrit"@,
        AsciiFont::Rectangles => "Rectangles"@,
    }
}

/// The lines of `c` in the Standard font: its glyph for `c` in lower case,
/// or the font's placeholder for characters it does not draw.
pub open spec fn standard_table(c: char) -> Seq<&'static str> {
    match ascii_lower(c) {
        'a' => seq![
            "  ___  ", " / _ \\ ", "| |_| |", "|  _  |", "| | | |", "|_| |_|",
        ],
        'b' => seq![
            " ____  ", "| __ ) ", "|  _ \\ ", "| |_) |", "|____/ ", "       ",
        ],
        'c' => seq![
            "  ____ ", " / ___|", "| |    ", "| |___ ", " \\____|", "       ",
        ],
        'd' => seq![
            " ____  ", "|  _ \\ ", "| | | |", "| |_| |", "|____/ ", "       ",
        ],
        'e' => seq![
            " _____ ", "| ____|", "|  _|  ", "| |___ ", "|_____|", "       ",
        ],
        'f' => seq![
            " _____ ", "|  ___|", "| |_   ", "|  _|  ", "|_|    ", "       ",
        ],
        'g' => seq![
            "  ____ ", " / ___|", "| |  _ ", "| |_| |", " \\____|", "       ",
        ],
        'h' => seq![
            " _   _ ", "| | | |", "| |_| |", "|  _  |", "|_| |_|", "       ",
        ],
        'i' => seq![" ___ ", "|_ _|", " | | ", " | | ", "|___|", "     "],
        'j' => seq![
            "     _ ", "    | |", " _  | |", "| |_| |", " \\___/ ", "       ",
        ],
        'k' => seq![
            " _  __", "| |/ /", "| ' / ", "| . \\ ", "|_|\\_\\", "      ",
        ],
        'l' => seq![
            " _     ", "| |    ", "| |    ", "| |___ ", "|_____|", "       ",
        ],
        'm' => seq![
            " __  __ ",
            "|  \\/  |",
            "| |\\/| |",
            "| |  | |",
            "|_|  |_|",
            "        ",
        ],
        'n' => seq![
            " _   _ ", "| \\ | |", "|  \\| |", "| |\\  |", "|_| \\_|", "       ",
        ],
        'o' => seq![
            "  ___  ", " / _ \\ ", "| | | |", "| |_| |", " \\___/ ", "       ",
        ],
        'p' => seq![
            " ____  ", "|  _ \\ ", "| |_) |", "|  __/ ", "|_|    ", "       ",
        ],
        'q' => seq![
            "  ___  ",
            " / _ \\ ",
            "| | | |",
            "| |_| |",
            " \\__\\_\\",
            "       ",
        ],
        'r' => seq![
            " ____  ",
            "|  _ \\ ",
            "| |_) |",
            "|  _ < ",
            "|_| \\_\\",
            "       ",
        ],
        's' => seq![
            " ____  ",
            "/ ___| ",
            "\\___ \\ ",
            " ___) |",
            "|____/ ",
            "       ",
        ],
        't' => seq![
            " _____ ", "|_   _|", "  | |  ", "  | |  ", "  |_|  ", "       ",
        ],
        'u' => seq![
            " _   _ ", "| | | |", "| | | |", "| |_| |", " \\___/ ", "       ",
        ],
        'v' => seq![
            "__     __",
            "\\ \\   / /",
            " \\ \\ / / ",
            "  \\ V /  ",
            "   \\_/   ",
            "         ",
        ],
        'w' => seq![
            "__        __",
            "\\ \\      / /",
            " \\ \\ /\\ / / ",
            "  \\ V  V /  ",
            "   \\_/\\_/   ",
            "            ",
        ],
        'x' => seq![
            "__  __", "\\ \\/ /", " \\  / ", " /  \\ ", "/_/\\_\\", "      ",
        ],
        'y' => seq![
            "__   __",
            "\\ \\ / /",
            " \\ V / ",
            "  | |  ",
            "  |_|  ",
            "       ",
        ],
        'z' => seq![
            " _____", "|__  /", "  / / ", " / /_ ", "/____|", "      ",
        ],
        '0' => seq![
            "  ___  ", " / _ \\ ", "| | | |", "| |_| |", " \\___/ ", "       ",
        ],
        '1' => seq![" _ ", "/ |", "| |", "| |", "|_|", "   "],
        '2' => seq![
            " ____  ", "|___ \\ ", "  __) |", " / __/ ", "|_____|", "       ",
        ],
        '3' => seq![
            " _____ ", "|___ / ", "  |_ \\ ", " ___) |", "|____/ ", "       ",
        ],
        '4' => seq![
            " _  _   ", "| || |  ", "| || |_ ", "|__   _|", "   |_|  ", "        ",
        ],
        '5' => seq![
            " ____  ", "| ___| ", "|___ \\ ", " ___) |", "|____/ ", "       ",
        ],
        '6' => seq![
            "  __   ", " / /_  ", "| '_ \\ ", "| (_) |", " \\___/ ", "       ",
        ],
        '7' => seq![
            " _____ ", "|___  |", "   / / ", "  / /  ", " /_/   ", "       ",
        ],
        '8' => seq![
            "  ___  ", " ( _ ) ", " / _ \\ ", "| (_) |", " \\___/ ", "       ",
        ],
        '9' => seq![
            "  ___  ", " / _ \\ ", "| (_) |", " \\__, |", "   /_/ ", "       ",
        ],
        '!' => seq![" _ ", "| |", "| |", "|_|", "(_)", "   "],
        '?' => seq![" ___ ", "|__ \\", "  / /", " |_| ", " (_) ", "     "],
        '.' => seq!["   ", "   ", "   ", " _ ", "(_)", "   "],
        ',' => seq!["   ", "   ", "   ", " _ ", "( )", "|/ "],
        '-' => seq![
            "       ", "       ", " _____ ", "|_____|", "       ", "       ",
        ],
        '_' => seq![
            "       ", "       ", "       ", "       ", " _____ ", "|_____|",
        ],
        ' ' => seq!["    ", "    ", "    ", "    ", "    ", "    "],
        _ => seq![" ? ", " ? ", " ? ", " ? ", " ? ", "   "], 
    }
}

/// The glyph of `ch` in the Standard font (a placeholder for characters it
/// does not draw).
fn standard_glyph(ch: char) -> (r: Option<Vec<&'static str>>)
    ensures
        r is Some && r->0@ == standard_table(ch),
        r->0@.len() == 6,
{
    match to_ascii_lower(ch) {
        'a' => Some(vec![
            "  ___  ", " / _ \\ ", "| |_| |", "|  _  |", "| | | |", "|_| |_|",
        ]),
        'b' => Some(vec![
            " ____  ", "| __ ) ", "|  _ \\ ", "| |_) |", "|____/ ", "       ",
        ]),
        'c' => Some(vec![
            "  ____ ", " / ___|", "| |    ", "| |___ ", " \\____|", "       ",
        ]),
        'd' => Some(vec![
            " ____  ", "|  _ \\ ", "| | | |", "| |_| |", "|____/ ", "       ",
        ]),
        'e' => Some(vec![
            " _____ ", "| ____|", "|  _|  ", "| |___ ", "|_____|", "       ",
        ]),
        'f' => Some(vec![
            " _____ ", "|  ___|", "| |_   ", "|  _|  ", "|_|    ", "       ",
        ]),
        'g' => Some(vec![
            "  ____ ", " / ___|", "| |  _ ", "| |_| |", " \\____|", "       ",
        ]),
        'h' => Some(vec![
            " _   _ ", "| | | |", "| |_| |", "|  _  |", "|_| |_|", "       ",
        ]),
        'i' => Some(vec![" ___ ", "|_ _|", " | | ", " | | ", "|___|", "     "]),
        'j' => Some(vec![
            "     _ ", "    | |", " _  | |", "| |_| |", " \\___/ ", "       ",
        ]),
        'k' => Some(vec![
            " _  __", "| |/ /", "| ' / ", "| . \\ ", "|_|\\_\\", "      ",
        ]),
        'l' => Some(vec![
            " _     ", "| |    ", "| |    ", "| |___ ", "|_____|", "       ",
        ]),
        'm' => Some(vec![
            " __  __ ",
            "|  \\/  |",
            "| |\\/| |",
            "| |  | |",
            "|_|  |_|",
            "        ",
        ]),
        'n' => Some(vec![
            " _   _ ", "| \\ | |", "|  \\| |", "| |\\  |", "|_| \\_|", "       ",
        ]),
        'o' => Some(vec![
            "  ___  ", " / _ \\ ", "| | | |", "| |_| |", " \\___/ ", "       ",
        ]),
        'p' => Some(vec![
            " ____  ", "|  _ \\ ", "| |_) |", "|  __/ ", "|_|    ", "       ",
        ]),
        'q' => Some(vec![
            "  ___  ",
            " / _ \\ ",
            "| | | |",
            "| |_| |",
            " \\__\\_\\",
            "       ",
        ]),
        'r' => Some(vec![
            " ____  ",
            "|  _ \\ ",
            "| |_) |",
            "|  _ < ",
            "|_| \\_\\",
            "       ",
        ]),
        's' => Some(vec![
            " ____  ",
            "/ ___| ",
            "\\___ \\ ",
            " ___) |",
            "|____/ ",
            "       ",
        ]),
        't' => Some(vec![
            " _____ ", "|_   _|", "  | |  ", "  | |  ", "  |_|  ", "       ",
        ]),
        'u' => Some(vec![
            " _   _ ", "| | | |", "| | | |", "| |_| |", " \\___/ ", "       ",
        ]),
        'v' => Some(vec![
            "__     __",
            "\\ \\   / /",
            " \\ \\ / / ",
            "  \\ V /  ",
            "   \\_/   ",
            "         ",
        ]),
        'w' => Some(vec![
            "__        __",
            "\\ \\      / /",
            " \\ \\ /\\ / / ",
            "  \\ V  V /  ",
            "   \\_/\\_/   ",
            "            ",
        ]),
        'x' => Some(vec![
            "__  __", "\\ \\/ /", " \\  / ", " /  \\ ", "/_/\\_\\", "      ",
        ]),
        'y' => Some(vec![
            "__   __",
            "\\ \\ / /",
            " \\ V / ",
            "  | |  ",
            "  |_|  ",
            "       ",
        ]),
        'z' => Some(vec![
            " _____", "|__  /", "  / / ", " / /_ ", "/____|", "      ",
        ]),
        '0' => Some(vec![
            "  ___  ", " / _ \\ ", "| | | |", "| |_| |", " \\___/ ", "       ",
        ]),
        '1' => Some(vec![" _ ", "/ |", "| |", "| |", "|_|", "   "]),
        '2' => Some(vec![
            " ____  ", "|___ \\ ", "  __) |", " / __/ ", "|_____|", "       ",
        ]),
        '3' => Some(vec![
            " _____ ", "|___ / ", "  |_ \\ ", " ___) |", "|____/ ", "       ",
        ]),
        '4' => Some(vec![
            " _  _   ", "| || |  ", "| || |_ ", "|__   _|", "   |_|  ", "        ",
        ]),
        '5' => Some(vec![
            " ____  ", "| ___| ", "|___ \\ ", " ___) |", "|____/ ", "       ",
        ]),
        '6' => Some(vec![
            "  __   ", " / /_  ", "| '_ \\ ", "| (_) |", " \\___/ ", "       ",
        ]),
        '7' => Some(vec![
            " _____ ", "|___  |", "   / / ", "  / /  ", " /_/   ", "       ",
        ]),
        '8' => Some(vec![
            "  ___  ", " ( _ ) ", " / _ \\ ", "| (_) |", " \\___/ ", "       ",
        ]),
        '9' => Some(vec![
            "  ___  ", " / _ \\ ", "| (_) |", " \\__, |", "   /_/ ", "       ",
        ]),
        '!' => Some(vec![" _ ", "| |", "| |", "|_|", "(_)", "   "]),
        '?' => Some(vec![" ___ ", "|__ \\", "  / /", " |_| ", " (_) ", "     "]),
        '.' => Some(vec!["   ", "   ", "   ", " _ ", "(_)", "   "]),
        ',' => Some(vec!["   ", "   ", "   ", " _ ", "( )", "|/ "]),
        '-' => Some(vec![
            "       ", "       ", " _____ ", "|_____|", "       ", "       ",
        ]),
        '_' => Some(vec![
            "       ", "       ", "       ", "       ", " _____ ", "|_____|",
        ]),
        ' ' => Some(vec!["    ", "    ", "    ", "    ", "    ", "    "]),
        _ => Some(vec![" ? ", " ? ", " ? ", " ? ", " ? ", "   "]), // Unknown char placeholder
    }
}

/// The lines of `c` in the Small font: its glyph for `c` in lower case,
/// or the font's placeholder for characters it does not draw.
pub open spec fn small_table(c: char) -> Seq<&'static str> {
    match ascii_lower(c) {
        'a' => seq!["     ", " __ _", "/ _` |", "\\__,_|", "     "],
        'b' => seq![" _   ", "| |_ ", "| '_ \\", "|_.__/", "     "],
        'c' => seq!["     ", " ___ ", "/ __|", "\\__ \\", "     "],
        'd' => seq!["    _", " __| |", "/ _` |", "\\__,_|", "     "],
        'e' => seq!["     ", " ___ ", "/ -_)", "\\___| ", "     "],
        'f' => seq![" __ ", "/ _|", "| _|", "|_| ", "    "],
        'g' => seq!["     ", " __ _", "/ _` |", "\\__, |", "|___/"],
        'h' => seq![" _   ", "| |_ ", "| ' \\", "|_||_|", "     "],
        'i' => seq![" _ ", "(_)", "| |", "|_|", "   "],
        'j' => seq!["   _ ", "  (_)", "  | |", " _/ |", "|__/"],
        'k' => seq![" _  ", "| |_", "| / ", "|_\\_\\", "    "],
        'l' => seq![" _ ", "| |", "| |", "|_|", "   "],
        'm' => seq!["      ", " _ __ ", "| '  \\", "|_|_|_|", "      "],
        'n' => seq!["     ", " _ _ ", "| ' \\", "|_||_|", "     "],
        'o' => seq!["     ", " ___ ", "/ _ \\", "\\___/", "     "],
        'p' => seq!["     ", " _ __ ", "| '_ \\", "| .__/", "|_|  "],
        'q' => seq!["     ", " __ _", "/ _` |", "\\__, |", "   |_|"],
        'r' => seq!["     ", " _ _ ", "| '_|", "|_|  ", "     "],
        's' => seq!["    ", " ___", "(_-<", "/__/", "    "],
        't' => seq![" _  ", "| |_", "|  _|", " \\__|", "    "],
        'u' => seq!["     ", " _ _ ", "| | |", "|___|", "     "],
        'v' => seq!["     ", "__  __", "\\ \\/ /", " \\__/ ", "     "],
        'w' => seq![
            "        ",
            "__    __",
            "\\ \\/\\/ /",
            " \\_/\\_/ ",
            "        ",
        ],
        'x' => seq!["    ", "__ __", "\\ \\ /", "/_\\_\\", "    "],
        'y' => seq!["     ", " _  _", "| || |", " \\_. |", " |__/"],
        'z' => seq!["    ", " ___", "|_ /", "/__|", "    "],
        '0' => seq![" ___", "/ _ \\", "| (_) |", "\\___/", "    "],
        '1' => seq![" _ ", "/ |", "| |", "|_|", "   "],
        '2' => seq![" ___ ", "|_  )", " / / ", "/___|", "     "],
        '3' => seq![" ___ ", "|__ \\", " |_ \\", "|___/", "     "],
        '4' => seq!["  _  ", " | | ", "|_  _|", "  |_| ", "     "],
        '5' => seq![" ___ ", "| __)", "|__ \\", "|___/", "     "],
        '6' => seq!["  __ ", " / / ", "| _ \\", "\\___/", "     "],
        '7' => seq![" ___ ", "|__  |", "  / / ", " /_/  ", "     "],
        '8' => seq![" ___ ", "( _ )", "/ _ \\", "\\___/", "     "],
        '9' => seq![" ___ ", "/ _ \\", "\\_, /", " /_/ ", "     "],
        '!' => seq![" _ ", "| |", "|_|", "(_)", "   "],
        '?' => seq![" __ ", "|_ )", " |_|", " (_)", "    "],
        '.' => seq!["  ", "  ", " _", "(_)", "  "],
        ' ' => seq!["   ", "   ", "   ", "   ", "   "],
        _ => seq![" ? ", " ? ", " ? ", " ? ", "   "],
    }
}

/// The glyph of `ch` in the Small font (a placeholder for characters it
/// does not draw).
fn small_glyph(ch: char) -> (r: Option<Vec<&'static str>>)
    ensures
        r is Some && r->0@ == small_table(ch),
        r->0@.len() == 5,
{
    match to_ascii_lower(ch) {
        'a' => Some(vec!["     ", " __ _", "/ _` |", "\\__,_|", "     "]),
        'b' => Some(vec![" _   ", "| |_ ", "| '_ \\", "|_.__/", "     "]),
        'c' => Some(vec!["     ", " ___ ", "/ __|", "\\__ \\", "     "]),
        'd' => Some(vec!["    _", " __| |", "/ _` |", "\\__,_|", "     "]),
        'e' => Some(vec!["     ", " ___ ", "/ -_)", "\\___| ", "     "]),
        'f' => Some(vec![" __ ", "/ _|", "| _|", "|_| ", "    "]),
        'g' => Some(vec!["     ", " __ _", "/ _` |", "\\__, |", "|___/"]),
        'h' => Some(vec![" _   ", "| |_ ", "| ' \\", "|_||_|", "     "]),
        'i' => Some(vec![" _ ", "(_)", "| |", "|_|", "   "]),
        'j' => Some(vec!["   _ ", "  (_)", "  | |", " _/ |", "|__/"]),
        'k' => Some(vec![" _  ", "| |_", "| / ", "|_\\_\\", "    "]),
        'l' => Some(vec![" _ ", "| |", "| |", "|_|", "   "]),
        'm' => Some(vec!["      ", " _ __ ", "| '  \\", "|_|_|_|", "      "]),
        'n' => Some(vec!["     ", " _ _ ", "| ' \\", "|_||_|", "     "]),
        'o' => Some(vec!["     ", " ___ ", "/ _ \\", "\\___/", "     "]),
        'p' => Some(vec!["     ", " _ __ ", "| '_ \\", "| .__/", "|_|  "]),
        'q' => Some(vec!["     ", " __ _", "/ _` |", "\\__, |", "   |_|"]),
        'r' => Some(vec!["     ", " _ _ ", "| '_|", "|_|  ", "     "]),
        's' => Some(vec!["    ", " ___", "(_-<", "/__/", "    "]),
        't' => Some(vec![" _  ", "| |_", "|  _|", " \\__|", "    "]),
        'u' => Some(vec!["     ", " _ _ ", "| | |", "|___|", "     "]),
        'v' => Some(vec!["     ", "__  __", "\\ \\/ /", " \\__/ ", "     "]),
        'w' => Some(vec![
            "        ",
            "__    __",
            "\\ \\/\\/ /",
            " \\_/\\_/ ",
            "        ",
        ]),
        'x' => Some(vec!["    ", "__ __", "\\ \\ /", "/_\\_\\", "    "]),
        'y' => Some(vec!["     ", " _  _", "| || |", " \\_. |", " |__/"]),
        'z' => Some(vec!["    ", " ___", "|_ /", "/__|", "    "]),
        '0' => Some(vec![" ___", "/ _ \\", "| (_) |", "\\___/", "    "]),
        '1' => Some(vec![" _ ", "/ |", "| |", "|_|", "   "]),
        '2' => Some(vec![" ___ ", "|_  )", " / / ", "/___|", "     "]),
        '3' => Some(vec![" ___ ", "|__ \\", " |_ \\", "|___/", "     "]),
        '4' => Some(vec!["  _  ", " | | ", "|_  _|", "  |_| ", "     "]),
        '5' => Some(vec![" ___ ", "| __)", "|__ \\", "|___/", "     "]),
        '6' => Some(vec!["  __ ", " / / ", "| _ \\", "\\___/", "     "]),
        '7' => Some(vec![" ___ ", "|__  |", "  / / ", " /_/  ", "     "]),
        '8' => Some(vec![" ___ ", "( _ )", "/ _ \\", "\\___/", "     "]),
        '9' => Some(vec![" ___ ", "/ _ \\", "\\_, /", " /_/ ", "     "]),
        '!' => Some(vec![" _ ", "| |", "|_|", "(_)", "   "]),
        '?' => Some(vec![" __ ", "|_ )", " |_|", " (_)", "    "]),
        '.' => Some(vec!["  ", "  ", " _", "(_)", "  "]),
        ' ' => Some(vec!["   ", "   ", "   ", "   ", "   "]),
        _ => Some(vec![" ? ", " ? ", " ? ", " ? ", "   "]),
    }
}

/// The lines of `c` in the Block font: its glyph for `c` in upper case,
/// or the font's placeholder for characters it does not draw.
pub open spec fn block_table(c: char) -> Seq<&'static str> {
    match ascii_upper(c) {
        'A' => seq!["█████", "█   █", "█████", "█   █", "█   █"],
        'B' => seq!["████ ", "█   █", "████ ", "█   █", "████ "],
        'C' => seq!["█████", "█    ", "█    ", "█    ", "█████"],
        'D' => seq!["████ ", "█   █", "█   █", "█   █", "████ "],
        'E' => seq!["█████", "█    ", "███  ", "█    ", "█████"],
        'F' => seq!["█████", "█    ", "███  ", "█    ", "█    "],
        'G' => seq!["█████", "█    ", "█ ███", "█   █", "█████"],
        'H' => seq!["█   █", "█   █", "█████", "█   █", "█   █"],
        'I' => seq!["█████", "  █  ", "  █  ", "  █  ", "█████"],
        'J' => seq!["█████", "    █", "    █", "█   █", "█████"],
        'K' => seq!["█   █", "█  █ ", "███  ", "█  █ ", "█   █"],
        'L' => seq!["█    ", "█    ", "█    ", "█    ", "█████"],
        'M' => seq!["█   █", "██ ██", "█ █ █", "█   █", "█   █"],
        'N' => seq!["█   █", "██  █", "█ █ █", "█  ██", "█   █"],
        'O' => seq!["█████", "█   █", "█   █", "█   █", "█████"],
        'P' => seq!["█████", "█   █", "█████", "█    ", "█    "],
        'Q' => seq!["█████", "█   █", "█   █", "█  █ ", "███ █"],
        'R' => seq!["█████", "█   █", "████ ", "█  █ ", "█   █"],
        'S' => seq!["█████", "█    ", "█████", "    █", "█████"],
        'T' => seq!["█████", "  █  ", "  █  ", "  █  ", "  █  "],
        'U' => seq!["█   █", "█   █", "█   █", "█   █", "█████"],
        'V' => seq!["█   █", "█   █", "█   █", " █ █ ", "  █  "],
        'W' => seq!["█   █", "█   █", "█ █ █", "██ ██", "█   █"],
        'X' => seq!["█   █", " █ █ ", "  █  ", " █ █ ", "█   █"],
        'Y' => seq!["█   █", " █ █ ", "  █  ", "  █  ", "  █  "],
        'Z' => seq!["█████", "   █ ", "  █  ", " █   ", "█████"],
        '0' => seq!["█████", "█  ██", "█ █ █", "██  █", "█████"],
        '1' => seq![" ██  ", "  █  ", "  █  ", "  █  ", "█████"],
        '2' => seq!["█████", "    █", "█████", "█    ", "█████"],
        '3' => seq!["█████", "    █", " ████", "    █", "█████"],
        '4' => seq!["█   █", "█   █", "█████", "    █", "    █"],
        '5' => seq!["█████", "█    ", "█████", "    █", "█████"],
        '6' => seq!["█████", "█    ", "█████", "█   █", "█████"],
        '7' => seq!["█████", "    █", "   █ ", "  █  ", "  █  "],
        '8' => seq!["█████", "█   █", "█████", "█   █", "█████"],
        '9' => seq!["█████", "█   █", "█████", "    █", "█████"],
        '!' => seq!["  █  ", "  █  ", "  █  ", "     ", "  █  "],
        '?' => seq!["█████", "    █", "  ██ ", "     ", "  █  "],
        '.' => seq!["     ", "     ", "     ", "     ", "  █  "],
        ' ' => seq!["     ", "     ", "     ", "     ", "     "],
        _ => seq!["█████", "█   █", "█   █", "█   █", "█████"],
    }
}

/// The glyph of `ch` in the Block font (a placeholder for characters it
/// does not draw).
fn block_glyph(ch: char) -> (r: Option<Vec<&'static str>>)
    ensures
        r is Some && r->0@ == block_table(ch),
        r->0@.len() == 5,
{
    match to_ascii_upper(ch) {
        'A' => Some(vec!["█████", "█   █", "█████", "█   █", "█   █"]),
        'B' => Some(vec!["████ ", "█   █", "████ ", "█   █", "████ "]),
        'C' => Some(vec!["█████", "█    ", "█    ", "█    ", "█████"]),
        'D' => Some(vec!["████ ", "█   █", "█   █", "█   █", "████ "]),
        'E' => Some(vec!["█████", "█    ", "███  ", "█    ", "█████"]),
        'F' => Some(vec!["█████", "█    ", "███  ", "█    ", "█    "]),
        'G' => Some(vec!["█████", "█    ", "█ ███", "█   █", "█████"]),
        'H' => Some(vec!["█   █", "█   █", "█████", "█   █", "█   █"]),
        'I' => Some(vec!["█████", "  █  ", "  █  ", "  █  ", "█████"]),
        'J' => Some(vec!["█████", "    █", "    █", "█   █", "█████"]),
        'K' => Some(vec!["█   █", "█  █ ", "███  ", "█  █ ", "█   █"]),
        'L' => Some(vec!["█    ", "█    ", "█    ", "█    ", "█████"]),
        'M' => Some(vec!["█   █", "██ ██", "█ █ █", "█   █", "█   █"]),
        'N' => Some(vec!["█   █", "██  █", "█ █ █", "█  ██", "█   █"]),
        'O' => Some(vec!["█████", "█   █", "█   █", "█   █", "█████"]),
        'P' => Some(vec!["█████", "█   █", "█████", "█    ", "█    "]),
        'Q' => Some(vec!["█████", "█   █", "█   █", "█  █ ", "███ █"]),
        'R' => Some(vec!["█████", "█   █", "████ ", "█  █ ", "█   █"]),
        'S' => Some(vec!["█████", "█    ", "█████", "    █", "█████"]),
        'T' => Some(vec!["█████", "  █  ", "  █  ", "  █  ", "  █  "]),
        'U' => Some(vec!["█   █", "█   █", "█   █", "█   █", "█████"]),
        'V' => Some(vec!["█   █", "█   █", "█   █", " █ █ ", "  █  "]),
        'W' => Some(vec!["█   █", "█   █", "█ █ █", "██ ██", "█   █"]),
        'X' => Some(vec!["█   █", " █ █ ", "  █  ", " █ █ ", "█   █"]),
        'Y' => Some(vec!["█   █", " █ █ ", "  █  ", "  █  ", "  █  "]),
        'Z' => Some(vec!["█████", "   █ ", "  █  ", " █   ", "█████"]),
        '0' => Some(vec!["█████", "█  ██", "█ █ █", "██  █", "█████"]),
        '1' => Some(vec![" ██  ", "  █  ", "  █  ", "  █  ", "█████"]),
        '2' => Some(vec!["█████", "    █", "█████", "█    ", "█████"]),
        '3' => Some(vec!["█████", "    █", " ████", "    █", "█████"]),
        '4' => Some(vec!["█   █", "█   █", "█████", "    █", "    █"]),
        '5' => Some(vec!["█████", "█    ", "█████", "    █", "█████"]),
        '6' => Some(vec!["█████", "█    ", "█████", "█   █", "█████"]),
        '7' => Some(vec!["█████", "    █", "   █ ", "  █  ", "  █  "]),
        '8' => Some(vec!["█████", "█   █", "█████", "█   █", "█████"]),
        '9' => Some(vec!["█████", "█   █", "█████", "    █", "█████"]),
        '!' => Some(vec!["  █  ", "  █  ", "  █  ", "     ", "  █  "]),
        '?' => Some(vec!["█████", "    █", "  ██ ", "     ", "  █  "]),
        '.' => Some(vec!["     ", "     ", "     ", "     ", "  █  "]),
        ' ' => Some(vec!["     ", "     ", "     ", "     ", "     "]),
        _ => Some(vec!["█████", "█   █", "█   █", "█   █", "█████"]),
    }
}

/// The lines of `c` in the Banner font: its glyph for `c` in upper case,
/// or the font's placeholder for characters it does not draw.
pub open spec fn banner_table(c: char) -> Seq<&'static str> {
    match ascii_upper(c) {
        'A' => seq![" /\\ ", "/--\\", "    "],
        'B' => seq!["|-\\", "|-/", "   "],
        'C' => seq!["/-", "\\-", "  "],
        'D' => seq!["/-\\", "\\-/", "   "],
        'E' => seq!["[-", "[-", "  "],
        'F' => seq!["[-", "[", " "],
        'G' => seq!["/-\\", "\\_]", "   "],
        'H' => seq!["|-|", "|-|", "   "],
        'I' => seq!["|", "|", " "],
        'J' => seq![" |", "\\_|", "  "],
        'K' => seq!["|/", "|\\", "  "],
        'L' => seq!["|", "L", " "],
        'M' => seq!["/\\/\\", "    ", "    "],
        'N' => seq!["|\\|", "| |", "   "],
        'O' => seq!["/-\\", "\\-/", "   "],
        'P' => seq!["[-\\", "[", "  "],
        'Q' => seq!["/-\\", "\\_\\", "   "],
        'R' => seq!["[-\\", "[\\", "  "],
        'S' => seq!["/-", "-\\", "  "],
        'T' => seq!["-|-", " | ", "   "],
        'U' => seq!["| |", "\\_/", "   "],
        'V' => seq!["\\ /", " V ", "   "],
        'W' => seq!["\\ /\\ /", " V  V ", "      "],
        'X' => seq!["\\/'", "/\\ ", "   "],
        'Y' => seq!["\\ /", " Y ", "   "],
        'Z' => seq!["--/", "/-", "  "],
        ' ' => seq!["  ", "  ", "  "],
        _ => seq!["?", "?", " "],
    }
}

/// The glyph of `ch` in the Banner font (a placeholder for characters it
/// does not draw).
fn banner_glyph(ch: char) -> (r: Option<Vec<&'static str>>)
    ensures
        r is Some && r->0@ == banner_table(ch),
        r->0@.len() == 3,
{
    match to_ascii_upper(ch) {
        'A' => Some(vec![" /\\ ", "/--\\", "    "]),
        'B' => Some(vec!["|-\\", "|-/", "   "]),
        'C' => Some(vec!["/-", "\\-", "  "]),
        'D' => Some(vec!["/-\\", "\\-/", "   "]),
        'E' => Some(vec!["[-", "[-", "  "]),
        'F' => Some(vec!["[-", "[", " "]),
        'G' => Some(vec!["/-\\", "\\_]", "   "]),
        'H' => Some(vec!["|-|", "|-|", "   "]),
        'I' => Some(vec!["|", "|", " "]),
        'J' => Some(vec![" |", "\\_|", "  "]),
        'K' => Some(vec!["|/", "|\\", "  "]),
        'L' => Some(vec!["|", "L", " "]),
        'M' => Some(vec!["/\\/\\", "    ", "    "]),
        'N' => Some(vec!["|\\|", "| |", "   "]),
        'O' => Some(vec!["/-\\", "\\-/", "   "]),
        'P' => Some(vec!["[-\\", "[", "  "]),
        'Q' => Some(vec!["/-\\", "\\_\\", "   "]),
        'R' => Some(vec!["[-\\", "[\\", "  "]),
        'S' => Some(vec!["/-", "-\\", "  "]),
        'T' => Some(vec!["-|-", " | ", "   "]),
        'U' => Some(vec!["| |", "\\_/", "   "]),
        'V' => Some(vec!["\\ /", " V ", "   "]),
        'W' => Some(vec!["\\ /\\ /", " V  V ", "      "]),
        'X' => Some(vec!["\\/'", "/\\ ", "   "]),
        'Y' => Some(vec!["\\ /", " Y ", "   "]),
        'Z' => Some(vec!["--/", "/-", "  "]),
        ' ' => Some(vec!["  ", "  ", "  "]),
        _ => Some(vec!["?", "?", " "]),
    }
}

/// The lines of `c` in the Mini font: its glyph for `c` in upper case,
/// or the font's placeholder for characters it does not draw.
pub open spec fn mini_table(c: char) -> Seq<&'static str> {
    match ascii_upper(c) {
        'A' => seq!["_._", "|-|", "   "],
        'B' => seq!["[-,", "[-'", "   "],
        'C' => seq![",-", "`-", "  "],
        'D' => seq!["[-,", "[-'", "   "],
        'E' => seq!["[-", "[-", "  "],
        'F' => seq!["[-", "|", " "],
        'G' => seq![",-", "`]", "  "],
        'H' => seq!["|-|", "|-|", "   "],
        'I' => seq!["i", "|", " "],
        'J' => seq!["_|", "_|", "  "],
        'K' => seq!["|<", "|>", "  "],
        'L' => seq!["|", "L", " "],
        'M' => seq!["/v\\", "   ", "   "],
        'N' => seq!["|\\|", "| |", "   "],
        'O' => seq![",-,", "`-'", "   "],
        'P' => seq!["[-,", "|", "  "],
        'Q' => seq!["o", "\\", " "],
        'R' => seq!["[-,", "|\\", "  "],
        'S' => seq!["_,", "_'", "  "],
        'T' => seq!["-+-", " | ", "   "],
        'U' => seq!["| |", "`-'", "   "],
        'V' => seq!["\\ /", " v ", "   "],
        'W' => seq!["\\_/", " v ", "   "],
        'X' => seq!["><", "><", "  "],
        'Y' => seq!["\\/", "|", " "],
        'Z' => seq!["_/", "/_", "  "],
        ' ' => seq!["  ", "  ", "  "],
        _ => seq!["?", "?", " "],
    }
}

/// The glyph of `ch` in the Mini font (a placeholder for characters it
/// does not draw).
fn mini_glyph(ch: char) -> (r: Option<Vec<&'static str>>)
    ensures
        r is Some && r->0@ == mini_table(ch),
        r->0@.len() == 3,
{
    match to_ascii_upper(ch) {
        'A' => Some(vec!["_._", "|-|", "   "]),
        'B' => Some(vec!["[-,", "[-'", "   "]),
        'C' => Some(vec![",-", "`-", "  "]),
        'D' => Some(vec!["[-,", "[-'", "   "]),
        'E' => Some(vec!["[-", "[-", "  "]),
        'F' => Some(vec!["[-", "|", " "]),
        'G' => Some(vec![",-", "`]", "  "]),
        'H' => Some(vec!["|-|", "|-|", "   "]),
        'I' => Some(vec!["i", "|", " "]),
        'J' => Some(vec!["_|", "_|", "  "]),
        'K' => Some(vec!["|<", "|>", "  "]),
        'L' => Some(vec!["|", "L", " "]),
        'M' => Some(vec!["/v\\", "   ", "   "]),
        'N' => Some(vec!["|\\|", "| |", "   "]),
        'O' => Some(vec![",-,", "`-'", "   "]),
        'P' => Some(vec!["[-,", "|", "  "]),
        'Q' => Some(vec!["o", "\\", " "]),
        'R' => Some(vec!["[-,", "|\\", "  "]),
        'S' => Some(vec!["_,", "_'", "  "]),
        'T' => Some(vec!["-+-", " | ", "   "]),
        'U' => Some(vec!["| |", "`-'", "   "]),
        'V' => Some(vec!["\\ /", " v ", "   "]),
        'W' => Some(vec!["\\_/", " v ", "   "]),
        'X' => Some(vec!["><", "><", "  "]),
        'Y' => Some(vec!["\\/", "|", " "]),
        'Z' => Some(vec!["_/", "/_", "  "]),
        ' ' => Some(vec!["  ", "  ", "  "]),
        _ => Some(vec!["?", "?", " "]),
    }
}

/// The lines of `c` in the Shadow font: its glyph for `c` in upper case,
/// or the font's placeholder for characters it does not draw.
pub open spec fn shadow_table(c: char) -> Seq<&'static str> {
    match ascii_upper(c) {
        'A' => seq![" ▄▄▄ ", "█   █", "█▀▀▀█", "█   █"],
        'B' => seq!["█▀▀▀▄", "█▀▀▀▄", "█▄▄▄▀", "     "],
        'C' => seq![" ▄▀▀▀", "█    ", " ▀▄▄▄", "     "],
        'D' => seq!["█▀▀▀▄", "█   █", "█▄▄▄▀", "     "],
        'E' => seq!["█▀▀▀▀", "█▀▀▀ ", "█▄▄▄▄", "     "],
        'F' => seq!["█▀▀▀▀", "█▀▀▀ ", "█    ", "     "],
        'G' => seq![" ▄▀▀▀", "█  ▀█", " ▀▄▄█", "     "],
        'H' => seq!["█   █", "█▀▀▀█", "█   █", "     "],
        'I' => seq!["▀█▀", " █ ", "▄█▄", "   "],
        'J' => seq!["   █", "   █", "▀▄▄█", "    "],
        'K' => seq!["█  ▄▀", "█▀▀  ", "█  ▀▄", "     "],
        'L' => seq!["█    ", "█    ", "█▄▄▄▄", "     "],
        'M' => seq!["█▄ ▄█", "█ ▀ █", "█   █", "     "],
        'N' => seq!["█▄  █", "█ ▀▄█", "█   █", "     "],
        'O' => seq![" ▄▀▀▄ ", "█    █", " ▀▄▄▀ ", "      "],
        'P' => seq!["█▀▀▀▄", "█▄▄▄▀", "█    ", "     "],
        'Q' => seq![" ▄▀▀▄ ", "█    █", " ▀▄▄▀▄", "      "],
        'R' => seq!["█▀▀▀▄", "█▄▄▄▀", "█   █", "     "],
        'S' => seq![" ▄▀▀▄", "▀▄▄▄ ", "▄▄▄▀ ", "     "],
        'T' => seq!["▀▀█▀▀", "  █  ", "  █  ", "     "],
        'U' => seq!["█   █", "█   █", " ▀▀▀ ", "     "],
        'V' => seq!["█   █", " █ █ ", "  ▀  ", "     "],
        'W' => seq!["█   █", "█ ▄ █", " ▀ ▀ ", "     "],
        'X' => seq!["█   █", " ▀▄▀ ", "█   █", "     "],
        'Y' => seq!["█   █", " ▀▄▀ ", "  █  ", "     "],
        'Z' => seq!["▀▀▀▀█", " ▄▄▀ ", "█▄▄▄▄", "     "],
        ' ' => seq!["    ", "    ", "    ", "    "],
        _ => seq!["▄▄▄", "███", "▀▀▀", "   "],
    }
}

/// The glyph of `ch` in the Shadow font (a placeholder for characters it
/// does not draw).
fn shadow_glyph(ch: char) -> (r: Option<Vec<&'static str>>)
    ensures
        r is Some && r->0@ == shadow_table(ch),
        r->0@.len() == 4,
{
    match to_ascii_upper(ch) {
        'A' => Some(vec![" ▄▄▄ ", "█   █", "█▀▀▀█", "█   █"]),
        'B' => Some(vec!["█▀▀▀▄", "█▀▀▀▄", "█▄▄▄▀", "     "]),
        'C' => Some(vec![" ▄▀▀▀", "█    ", " ▀▄▄▄", "     "]),
        'D' => Some(vec!["█▀▀▀▄", "█   █", "█▄▄▄▀", "     "]),
        'E' => Some(vec!["█▀▀▀▀", "█▀▀▀ ", "█▄▄▄▄", "     "]),
        'F' => Some(vec!["█▀▀▀▀", "█▀▀▀ ", "█    ", "     "]),
        'G' => Some(vec![" ▄▀▀▀", "█  ▀█", " ▀▄▄█", "     "]),
        'H' => Some(vec!["█   █", "█▀▀▀█", "█   █", "     "]),
        'I' => Some(vec!["▀█▀", " █ ", "▄█▄", "   "]),
        'J' => Some(vec!["   █", "   █", "▀▄▄█", "    "]),
        'K' => Some(vec!["█  ▄▀", "█▀▀  ", "█  ▀▄", "     "]),
        'L' => Some(vec!["█    ", "█    ", "█▄▄▄▄", "     "]),
        'M' => Some(vec!["█▄ ▄█", "█ ▀ █", "█   █", "     "]),
        'N' => Some(vec!["█▄  █", "█ ▀▄█", "█   █", "     "]),
        'O' => Some(vec![" ▄▀▀▄ ", "█    █", " ▀▄▄▀ ", "      "]),
        'P' => Some(vec!["█▀▀▀▄", "█▄▄▄▀", "█    ", "     "]),
        'Q' => Some(vec![" ▄▀▀▄ ", "█    █", " ▀▄▄▀▄", "      "]),
        'R' => Some(vec!["█▀▀▀▄", "█▄▄▄▀", "█   █", "     "]),
        'S' => Some(vec![" ▄▀▀▄", "▀▄▄▄ ", "▄▄▄▀ ", "     "]),
        'T' => Some(vec!["▀▀█▀▀", "  █  ", "  █  ", "     "]),
        'U' => Some(vec!["█   █", "█   █", " ▀▀▀ ", "     "]),
        'V' => Some(vec!["█   █", " █ █ ", "  ▀  ", "     "]),
        'W' => Some(vec!["█   █", "█ ▄ █", " ▀ ▀ ", "     "]),
        'X' => Some(vec!["█   █", " ▀▄▀ ", "█   █", "     "]),
        'Y' => Some(vec!["█   █", " ▀▄▀ ", "  █  ", "     "]),
        'Z' => Some(vec!["▀▀▀▀█", " ▄▄▀ ", "█▄▄▄▄", "     "]),
        ' ' => Some(vec!["    ", "    ", "    ", "    "]),
        _ => Some(vec!["▄▄▄", "███", "▀▀▀", "   "]),
    }
}

/// The lines of `c` in the Slant font: its glyph for `c` in upper case,
/// or the font's placeholder for characters it does not draw.
pub open spec fn slant_table(c: char) -> Seq<&'static str> {
    match ascii_upper(c) {
        'A' => seq![
            "    ___   ",
            "   /   |  ",
            "  / /| |  ",
            " / ___ |  ",
            "/_/  |_|  ",
            "          ",
        ],
        'B' => seq![
            "    ____ ",
            "   / __ )",
            "  / __  |",
            " / /_/ / ",
            "/_____/  ",
            "         ",
        ],
        'C' => seq![
            "   ______",
            "  / ____/",
            " / /     ",
            "/ /___   ",
            "\\____/   ",
            "         ",
        ],
        'D' => seq![
            "    ____ ",
            "   / __ \\",
            "  / / / /",
            " / /_/ / ",
            "/_____/  ",
            "         ",
        ],
        'E' => seq![
            "    ______",
            "   / ____/",
            "  / __/   ",
            " / /___   ",
            "/_____/   ",
            "          ",
        ],
        'F' => seq![
            "    ______",
            "   / ____/",
            "  / /_    ",
            " / __/    ",
            "/_/       ",
            "          ",
        ],
        'G' => seq![
            "   ______",
            "  / ____/",
            " / / __  ",
            "/ /_/ /  ",
            "\\____/   ",
            "         ",
        ],
        'H' => seq![
            "    __  __",
            "   / / / /",
            "  / /_/ / ",
            " / __  /  ",
            "/_/ /_/   ",
            "          ",
        ],
        'I' => seq![
            "    ____", "   /  _/", "   / /  ", " _/ /   ", "/___/   ", "        ",
        ],
        'J' => seq![
            "       __",
            "      / /",
            "  __ / / ",
            " / /_/ /  ",
            " \\____/  ",
            "         ",
        ],
        'K' => seq![
            "    __ __",
            "   / //_/",
            "  / ,<   ",
            " / /| |  ",
            "/_/ |_|  ",
            "         ",
        ],
        'L' => seq![
            "    __ ", "   / / ", "  / /  ", " / /___", "/_____/", "       ",
        ],
        'M' => seq![
            "    __  ___",
            "   /  |/  /",
            "  / /|_/ / ",
            " / /  / /  ",
            "/_/  /_/   ",
            "           ",
        ],
        'N' => seq![
            "    _   __",
            "   / | / /",
            "  /  |/ / ",
            " / /|  /  ",
            "/_/ |_/   ",
            "          ",
        ],
        'O' => seq![
            "   ____ ",
            "  / __ \\",
            " / / / /",
            "/ /_/ / ",
            "\\____/  ",
            "        ",
        ],
        'P' => seq![
            "    ____ ",
            "   / __ \\",
            "  / /_/ /",
            " / ____/ ",
            "/_/      ",
            "         ",
        ],
        'Q' => seq![
            "   ____ ",
            "  / __ \\",
            " / / / /",
            "/ /_/ / ",
            "\\___\\_\\ ",
            "        ",
        ],
        'R' => seq![
            "    ____ ",
            "   / __ \\",
            "  / /_/ /",
            " / _, _/ ",
            "/_/ |_|  ",
            "         ",
        ],
        'S' => seq![
            "   _____",
            "  / ___/",
            "  \\__ \\ ",
            " ___/ / ",
            "/____/  ",
            "        ",
        ],
        'T' => seq![
            "  ______", " /_  __/", "  / /   ", " / /    ", "/_/     ", "        ",
        ],
        'U' => seq![
            "   __  __",
            "  / / / /",
            " / / / / ",
            "/ /_/ /  ",
            "\\____/   ",
            "         ",
        ],
        'V' => seq![
            "   _    __",
            "  | |  / /",
            "  | | / / ",
            "  | |/ /  ",
            "  |___/   ",
            "          ",
        ],
        'W' => seq![
            "  _       __",
            " | |     / /",
            " | | /| / / ",
            " | |/ |/ /  ",
            " |__/|__/   ",
            "            ",
        ],
        'X' => seq![
            "   _  __", "  | |/ /", "  |   / ", " /   |  ", "/_/|_|  ", "        ",
        ],
        'Y' => seq![
            "__  __", "\\ \\/ /", " \\  / ", " / /  ", "/_/   ", "      ",
        ],
        'Z' => seq![
            "  _____", " /__  /", "   / / ", "  / /__", " /____/", "       ",
        ],
        ' ' => seq!["    ", "    ", "    ", "    ", "    ", "    "],
        _ => seq!["    ", " ?? ", "    ", " ?? ", "    ", "    "],
    }
}

/// The glyph of `ch` in the Slant font (a placeholder for characters it
/// does not draw).
fn slant_glyph(ch: char) -> (r: Option<Vec<&'static str>>)
    ensures
        r is Some && r->0@ == slant_table(ch),
        r->0@.len() == 6,
{
    match to_ascii_upper(ch) {
        'A' => Some(vec![
            "    ___   ",
            "   /   |  ",
            "  / /| |  ",
            " / ___ |  ",
            "/_/  |_|  ",
            "          ",
        ]),
        'B' => Some(vec![
            "    ____ ",
            "   / __ )",
            "  / __  |",
            " / /_/ / ",
            "/_____/  ",
            "         ",
        ]),
        'C' => Some(vec![
            "   ______",
            "  / ____/",
            " / /     ",
            "/ /___   ",
            "\\____/   ",
            "         ",
        ]),
        'D' => Some(vec![
            "    ____ ",
            "   / __ \\",
            "  / / / /",
            " / /_/ / ",
            "/_____/  ",
            "         ",
        ]),
        'E' => Some(vec![
            "    ______",
            "   / ____/",
            "  / __/   ",
            " / /___   ",
            "/_____/   ",
            "          ",
        ]),
        'F' => Some(vec![
            "    ______",
            "   / ____/",
            "  / /_    ",
            " / __/    ",
            "/_/       ",
            "          ",
        ]),
        'G' => Some(vec![
            "   ______",
            "  / ____/",
            " / / __  ",
            "/ /_/ /  ",
            "\\____/   ",
            "         ",
        ]),
        'H' => Some(vec![
            "    __  __",
            "   / / / /",
            "  / /_/ / ",
            " / __  /  ",
            "/_/ /_/   ",
            "          ",
        ]),
        'I' => Some(vec![
            "    ____", "   /  _/", "   / /  ", " _/ /   ", "/___/   ", "        ",
        ]),
        'J' => Some(vec![
            "       __",
            "      / /",
            "  __ / / ",
            " / /_/ /  ",
            " \\____/  ",
            "         ",
        ]),
        'K' => Some(vec![
            "    __ __",
            "   / //_/",
            "  / ,<   ",
            " / /| |  ",
            "/_/ |_|  ",
            "         ",
        ]),
        'L' => Some(vec![
            "    __ ", "   / / ", "  / /  ", " / /___", "/_____/", "       ",
        ]),
        'M' => Some(vec![
            "    __  ___",
            "   /  |/  /",
            "  / /|_/ / ",
            " / /  / /  ",
            "/_/  /_/   ",
            "           ",
        ]),
        'N' => Some(vec![
            "    _   __",
            "   / | / /",
            "  /  |/ / ",
            " / /|  /  ",
            "/_/ |_/   ",
            "          ",
        ]),
        'O' => Some(vec![
            "   ____ ",
            "  / __ \\",
            " / / / /",
            "/ /_/ / ",
            "\\____/  ",
            "        ",
        ]),
        'P' => Some(vec![
            "    ____ ",
            "   / __ \\",
            "  / /_/ /",
            " / ____/ ",
            "/_/      ",
            "         ",
        ]),
        'Q' => Some(vec![
            "   ____ ",
            "  / __ \\",
            " / / / /",
            "/ /_/ / ",
            "\\___\\_\\ ",
            "        ",
        ]),
        'R' => Some(vec![
            "    ____ ",
            "   / __ \\",
            "  / /_/ /",
            " / _, _/ ",
            "/_/ |_|  ",
            "         ",
        ]),
        'S' => Some(vec![
            "   _____",
            "  / ___/",
            "  \\__ \\ ",
            " ___/ / ",
            "/____/  ",
            "        ",
        ]),
        'T' => Some(vec![
            "  ______", " /_  __/", "  / /   ", " / /    ", "/_/     ", "        ",
        ]),
        'U' => Some(vec![
            "   __  __",
            "  / / / /",
            " / / / / ",
            "/ /_/ /  ",
            "\\____/   ",
            "         ",
        ]),
        'V' => Some(vec![
            "   _    __",
            "  | |  / /",
            "  | | / / ",
            "  | |/ /  ",
            "  |___/   ",
            "          ",
        ]),
        'W' => Some(vec![
            "  _       __",
            " | |     / /",
            " | | /| / / ",
            " | |/ |/ /  ",
            " |__/|__/   ",
            "            ",
        ]),
        'X' => Some(vec![
            "   _  __", "  | |/ /", "  |   / ", " /   |  ", "/_/|_|  ", "        ",
        ]),
        'Y' => Some(vec![
            "__  __", "\\ \\/ /", " \\  / ", " / /  ", "/_/   ", "      ",
        ]),
        'Z' => Some(vec![
            "  _____", " /__  /", "   / / ", "  / /__", " /____/", "       ",
        ]),
        ' ' => Some(vec!["    ", "    ", "    ", "    ", "    ", "    "]),
        _ => Some(vec!["    ", " ?? ", "    ", " ?? ", "    ", "    "]),
    }
}

/// The lines of `c` in the Big font: its glyph for `c` in upper case,
/// or the font's placeholder for characters it does not draw.
pub open spec fn big_table(c: char) -> Seq<&'static str> {
    match ascii_upper(c) {
        'A' => seq![
            "          ",
            "    /\\    ",
            "   /  \\   ",
            "  / /\\ \\  ",
            " / ____ \\ ",
            "/_/    \\_\\",
            "          ",
            "          ",
        ],
        'B' => seq![
            " ____  ", "|  _ \\ ", "| |_) |", "|  _ < ", "| |_) |", "|____/ ", "       ", "       ",
        ],
        'C' => seq![
            "  _____ ",
            " / ____|",
            "| |     ",
            "| |     ",
            "| |____ ",
            " \\_____|",
            "        ",
            "        ",
        ],
        'D' => seq![
            " _____  ",
            "|  __ \\ ",
            "| |  | |",
            "| |  | |",
            "| |__| |",
            "|_____/ ",
            "        ",
            "        ",
        ],
        'E' => seq![
            " ______ ", "|  ____|", "| |__   ", "|  __|  ", "| |____ ", "|______|", "        ",
            "        ",
        ],
        'F' => seq![
            " ______ ", "|  ____|", "| |__   ", "|  __|  ", "| |     ", "|_|     ", "        ",
            "        ",
        ],
        'G' => seq![
            "  _____ ",
            " / ____|",
            "| |  __ ",
            "| | |_ |",
            "| |__| |",
            " \\_____|",
            "        ",
            "        ",
        ],
        'H' => seq![
            " _    _ ", "| |  | |", "| |__| |", "|  __  |", "| |  | |", "|_|  |_|", "        ",
            "        ",
        ],
        'I' => seq![
            " _____ ", "|_   _|", "  | |  ", "  | |  ", " _| |_ ", "|_____|", "       ", "       ",
        ],
        'J' => seq![
            "      _ ",
            "     | |",
            "     | |",
            " _   | |",
            "| |__| |",
            " \\____/ ",
            "        ",
            "        ",
        ],
        'K' => seq![
            " _  __", "| |/ /", "| ' / ", "|  <  ", "| . \\ ", "|_|\\_\\", "      ", "      ",
        ],
        'L' => seq![
            " _      ", "| |     ", "| |     ", "| |     ", "| |____ ", "|______|", "        ",
            "        ",
        ],
        'M' => seq![
            " __  __ ",
            "|  \\/  |",
            "| \\  / |",
            "| |\\/| |",
            "| |  | |",
            "|_|  |_|",
            "        ",
            "        ",
        ],
        'N' => seq![
            " _   _ ", "| \\ | |", "|  \\| |", "| . ` |", "| |\\  |", "|_| \\_|", "       ",
            "       ",
        ],
        'O' => seq![
            "  ____  ",
            " / __ \\ ",
            "| |  | |",
            "| |  | |",
            "| |__| |",
            " \\____/ ",
            "        ",
            "        ",
        ],
        'P' => seq![
            " _____  ",
            "|  __ \\ ",
            "| |__) |",
            "|  ___/ ",
            "| |     ",
            "|_|     ",
            "        ",
            "        ",
        ],
        'Q' => seq![
            "  ____  ",
            " / __ \\ ",
            "| |  | |",
            "| |  | |",
            "| |__| |",
            " \\___\\_\\",
            "        ",
            "        ",
        ],
        'R' => seq![
            " _____  ",
            "|  __ \\ ",
            "| |__) |",
            "|  _  / ",
            "| | \\ \\ ",
            "|_|  \\_\\",
            "        ",
            "        ",
        ],
        'S' => seq![
            "  _____ ",
            " / ____|",
            "| (___  ",
            " \\___ \\ ",
            " ____) |",
            "|_____/ ",
            "        ",
            "        ",
        ],
        'T' => seq![
            " _______ ",
            "|__   __|",
            "   | |   ",
            "   | |   ",
            "   | |   ",
            "   |_|   ",
            "         ",
            "         ",
        ],
        'U' => seq![
            " _    _ ",
            "| |  | |",
            "| |  | |",
            "| |  | |",
            "| |__| |",
            " \\____/ ",
            "        ",
            "        ",
        ],
        'V' => seq![
            "__      __",
            "\\ \\    / /",
            " \\ \\  / / ",
            "  \\ \\/ /  ",
            "   \\  /   ",
            "    \\/    ",
            "          ",
            "          ",
        ],
        'W' => seq![
            "__          __",
            "\\ \\        / /",
            " \\ \\  /\\  / / ",
            "  \\ \\/  \\/ /  ",
            "   \\  /\\  /   ",
            "    \\/  \\/    ",
            "              ",
            "              ",
        ],
        'X' => seq![
            "__   __",
            "\\ \\ / /",
            " \\ V / ",
            "  > <  ",
            " / . \\ ",
            "/_/ \\_\\",
            "       ",
            "       ",
        ],
        'Y' => seq![
            "__     __",
            "\\ \\   / /",
            " \\ \\_/ / ",
            "  \\   /  ",
            "   | |   ",
            "   |_|   ",
            "         ",
            "         ",
        ],
        'Z' => seq![
            " ______", "|___  /", "   / / ", "  / /  ", " / /__ ", "/_____|", "       ", "       ",
        ],
        ' ' => seq![
            "    ", "    ", "    ", "    ", "    ", "    ", "    ", "    ",
        ],
        _ => seq![
            "    ", "    ", " ?? ", "    ", " ?? ", "    ", "    ", "    ",
        ],
    }
}

/// The glyph of `ch` in the Big font (a placeholder for characters it
/// does not draw).
fn big_glyph(ch: char) -> (r: Option<Vec<&'static str>>)
    ensures
        r is Some && r->0@ == big_table(ch),
        r->0@.len() == 8,
{
    match to_ascii_upper(ch) {
        'A' => Some(vec![
            "          ",
            "    /\\    ",
            "   /  \\   ",
            "  / /\\ \\  ",
            " / ____ \\ ",
            "/_/    \\_\\",
            "          ",
            "          ",
        ]),
        'B' => Some(vec![
            " ____  ", "|  _ \\ ", "| |_) |", "|  _ < ", "| |_) |", "|____/ ", "       ", "       ",
        ]),
        'C' => Some(vec![
            "  _____ ",
            " / ____|",
            "| |     ",
            "| |     ",
            "| |____ ",
            " \\_____|",
            "        ",
            "        ",
        ]),
        'D' => Some(vec![
            " _____  ",
            "|  __ \\ ",
            "| |  | |",
            "| |  | |",
            "| |__| |",
            "|_____/ ",
            "        ",
            "        ",
        ]),
        'E' => Some(vec![
            " ______ ", "|  ____|", "| |__   ", "|  __|  ", "| |____ ", "|______|", "        ",
            "        ",
        ]),
        'F' => Some(vec![
            " ______ ", "|  ____|", "| |__   ", "|  __|  ", "| |     ", "|_|     ", "        ",
            "        ",
        ]),
        'G' => Some(vec![
            "  _____ ",
            " / ____|",
            "| |  __ ",
            "| | |_ |",
            "| |__| |",
            " \\_____|",
            "        ",
            "        ",
        ]),
        'H' => Some(vec![
            " _    _ ", "| |  | |", "| |__| |", "|  __  |", "| |  | |", "|_|  |_|", "        ",
            "        ",
        ]),
        'I' => Some(vec![
            " _____ ", "|_   _|", "  | |  ", "  | |  ", " _| |_ ", "|_____|", "       ", "       ",
        ]),
        'J' => Some(vec![
            "      _ ",
            "     | |",
            "     | |",
            " _   | |",
            "| |__| |",
            " \\____/ ",
            "        ",
            "        ",
        ]),
        'K' => Some(vec![
            " _  __", "| |/ /", "| ' / ", "|  <  ", "| . \\ ", "|_|\\_\\", "      ", "      ",
        ]),
        'L' => Some(vec![
            " _      ", "| |     ", "| |     ", "| |     ", "| |____ ", "|______|", "        ",
            "        ",
        ]),
        'M' => Some(vec![
            " __  __ ",
            "|  \\/  |",
            "| \\  / |",
            "| |\\/| |",
            "| |  | |",
            "|_|  |_|",
            "        ",
            "        ",
        ]),
        'N' => Some(vec![
            " _   _ ", "| \\ | |", "|  \\| |", "| . ` |", "| |\\  |", "|_| \\_|", "       ",
            "       ",
        ]),
        'O' => Some(vec![
            "  ____  ",
            " / __ \\ ",
            "| |  | |",
            "| |  | |",
            "| |__| |",
            " \\____/ ",
            "        ",
            "        ",
        ]),
        'P' => Some(vec![
            " _____  ",
            "|  __ \\ ",
            "| |__) |",
            "|  ___/ ",
            "| |     ",
            "|_|     ",
            "        ",
            "        ",
        ]),
        'Q' => Some(vec![
            "  ____  ",
            " / __ \\ ",
            "| |  | |",
            "| |  | |",
            "| |__| |",
            " \\___\\_\\",
            "        ",
            "        ",
        ]),
        'R' => Some(vec![
            " _____  ",
            "|  __ \\ ",
            "| |__) |",
            "|  _  / ",
            "| | \\ \\ ",
            "|_|  \\_\\",
            "        ",
            "        ",
        ]),
        'S' => Some(vec![
            "  _____ ",
            " / ____|",
            "| (___  ",
            " \\___ \\ ",
            " ____) |",
            "|_____/ ",
            "        ",
            "        ",
        ]),
        'T' => Some(vec![
            " _______ ",
            "|__   __|",
            "   | |   ",
            "   | |   ",
            "   | |   ",
            "   |_|   ",
            "         ",
            "         ",
        ]),
        'U' => Some(vec![
            " _    _ ",
            "| |  | |",
            "| |  | |",
            "| |  | |",
            "| |__| |",
            " \\____/ ",
            "        ",
            "        ",
        ]),
        'V' => Some(vec![
            "__      __",
            "\\ \\    / /",
            " \\ \\  / / ",
            "  \\ \\/ /  ",
            "   \\  /   ",
            "    \\/    ",
            "          ",
            "          ",
        ]),
        'W' => Some(vec![
            "__          __",
            "\\ \\        / /",
            " \\ \\  /\\  / / ",
            "  \\ \\/  \\/ /  ",
            "   \\  /\\  /   ",
            "    \\/  \\/    ",
            "              ",
            "              ",
        ]),
        'X' => Some(vec![
            "__   __",
            "\\ \\ / /",
            " \\ V / ",
            "  > <  ",
            " / . \\ ",
            "/_/ \\_\\",
            "       ",
            "       ",
        ]),
        'Y' => Some(vec![
            "__     __",
            "\\ \\   / /",
            " \\ \\_/ / ",
            "  \\   /  ",
            "   | |   ",
            "   |_|   ",
            "         ",
            "         ",
        ]),
        'Z' => Some(vec![
            " ______", "|___  /", "   / / ", "  / /  ", " / /__ ", "/_____|", "       ", "       ",
        ]),
        ' ' => Some(vec![
            "    ", "    ", "    ", "    ", "    ", "    ", "    ", "    ",
        ]),
        _ => Some(vec![
            "    ", "    ", " ?? ", "    ", " ?? ", "    ", "    ", "    ",
        ]),
    }
}

/// The lines of `c` in the Doom font: its glyph for `c` in upper case,
/// or the font's placeholder for characters it does not draw.
pub open spec fn doom_table(c: char) -> Seq<&'static str> {
    match ascii_upper(c) {
        'A' => seq![
            "        ",
            "   /\\   ",
            "  /  \\  ",
            " / /\\ \\ ",
            "/______\\",
            "\\      /",
            " \\    / ",
            "  \\__/  ",
        ],
        'B' => seq![
            "______  ",
            "| ___ \\ ",
            "| |_/ / ",
            "| ___ \\ ",
            "| |_/ / ",
            "|_____/ ",
            "        ",
            "        ",
        ],
        'C' => seq![
            " _____ ", "/  __ \\", "| /  \\|", "| |    ", "| \\__/|", " \\____/", "       ",
            "       ",
        ],
        'D' => seq![
            "______  ",
            "|  _  \\ ",
            "| | | | ",
            "| | | | ",
            "| |/ /  ",
            "|___/   ",
            "        ",
            "        ",
        ],
        'E' => seq![
            "_______ ", "|  ___| ", "| |__   ", "|  __|  ", "| |___  ", "|_____| ", "        ",
            "        ",
        ],
        'F' => seq![
            "_______ ", "|  ___| ", "| |__   ", "|  __|  ", "| |     ", "|_|     ", "        ",
            "        ",
        ],
        'G' => seq![
            " _____ ",
            "/  __ \\",
            "| |  \\|",
            "| | __ ",
            "| |_\\ \\",
            " \\____/",
            "       ",
            "       ",
        ],
        'H' => seq![
            "_   _  ", "| | | | ", "| |_| | ", "|  _  | ", "| | | | ", "|_| |_| ", "        ",
            "        ",
        ],
        'I' => seq![
            "_____ ", "|_   _|", "  | |  ", "  | |  ", " _| |_ ", "|_____|", "       ", "       ",
        ],
        'J' => seq![
            "    _ ",
            "   | | ",
            "   | | ",
            "   | | ",
            "/\\__/ / ",
            "\\____/  ",
            "        ",
            "        ",
        ],
        'K' => seq![
            "_   __",
            "| | / /",
            "| |/ / ",
            "|    \\ ",
            "| |\\  \\",
            "|_| \\_\\",
            "       ",
            "       ",
        ],
        'L' => seq![
            "_     ", "| |    ", "| |    ", "| |    ", "| |___ ", "|_____|", "       ", "       ",
        ],
        'M' => seq![
            "___  ___",
            "|  \\/  |",
            "| .  . |",
            "| |\\/| |",
            "| |  | |",
            "\\_|  |_/",
            "        ",
            "        ",
        ],
        'N' => seq![
            "_   _ ",
            "| \\ | |",
            "|  \\| |",
            "| . ` |",
            "| |\\  |",
            "\\_| \\_/",
            "       ",
            "       ",
        ],
        'O' => seq![
            " _____ ", "/  _  \\", "| | | |", "| | | |", "| |_| |", "\\_____/", "       ",
            "       ",
        ],
        'P' => seq![
            "______ ", "| ___ \\", "| |_/ /", "|  __/ ", "| |    ", "\\_|    ", "       ",
            "       ",
        ],
        'Q' => seq![
            " _____ ",
            "/  _  \\",
            "| | | |",
            "| |_| |",
            " \\___\\\\",
            "     \\_\\",
            "       ",
            "       ",
        ],
        'R' => seq![
            "______ ",
            "| ___ \\",
            "| |_/ /",
            "|    / ",
            "| |\\ \\ ",
            "\\_| \\_\\",
            "       ",
            "       ",
        ],
        'S' => seq![
            " _____ ", "/  ___|", "\\ `--. ", " `--. \\", "/\\__/ /", "\\____/ ", "       ",
            "       ",
        ],
        'T' => seq![
            "_______", "|_   _|", "  | |  ", "  | |  ", "  | |  ", "  \\_/  ", "       ", "       ",
        ],
        'U' => seq![
            "_   _ ", "| | | |", "| | | |", "| | | |", "| |_| |", " \\___/ ", "       ", "       ",
        ],
        'V' => seq![
            "_   _ ", "| | | |", "| | | |", "| \\ / |", " \\ V / ", "  \\_/  ", "       ",
            "       ",
        ],
        'W' => seq![
            "_    _  ",
            "| |  | | ",
            "| |  | | ",
            "| |/\\| | ",
            "\\  /\\  / ",
            " \\/  \\/  ",
            "         ",
            "         ",
        ],
        'X' => seq![
            "__   __",
            "\\ \\ / /",
            " \\ V / ",
            " /   \\ ",
            "/ /^\\ \\",
            "\\/   \\/",
            "       ",
            "       ",
        ],
        'Y' => seq![
            "__   __",
            "\\ \\ / /",
            " \\ V / ",
            "  \\ /  ",
            "  | |  ",
            "  \\_/  ",
            "       ",
            "       ",
        ],
        'Z' => seq![
            "_______", "|___  /", "   / / ", "  / /  ", "./ /___", "/_____/", "       ", "       ",
        ],
        ' ' => seq![
            "    ", "    ", "    ", "    ", "    ", "    ", "    ", "    ",
        ],
        _ => seq![
            "    ", "    ", " ?? ", "    ", " ?? ", "    ", "    ", "    ",
        ],
    }
}

/// The glyph of `ch` in the Doom font (a placeholder for characters it
/// does not draw).
fn doom_glyph(ch: char) -> (r: Option<Vec<&'static str>>)
    ensures
        r is Some && r->0@ == doom_table(ch),
        r->0@.len() == 8,
{
    match to_ascii_upper(ch) {
        'A' => Some(vec![
            "        ",
            "   /\\   ",
            "  /  \\  ",
            " / /\\ \\ ",
            "/______\\",
            "\\      /",
            " \\    / ",
            "  \\__/  ",
        ]),
        'B' => Some(vec![
            "______  ",
            "| ___ \\ ",
            "| |_/ / ",
            "| ___ \\ ",
            "| |_/ / ",
            "|_____/ ",
            "        ",
            "        ",
        ]),
        'C' => Some(vec![
            " _____ ", "/  __ \\", "| /  \\|", "| |    ", "| \\__/|", " \\____/", "       ",
            "       ",
        ]),
        'D' => Some(vec![
            "______  ",
            "|  _  \\ ",
            "| | | | ",
            "| | | | ",
            "| |/ /  ",
            "|___/   ",
            "        ",
            "        ",
        ]),
        'E' => Some(vec![
            "_______ ", "|  ___| ", "| |__   ", "|  __|  ", "| |___  ", "|_____| ", "        ",
            "        ",
        ]),
        'F' => Some(vec![
            "_______ ", "|  ___| ", "| |__   ", "|  __|  ", "| |     ", "|_|     ", "        ",
            "        ",
        ]),
        'G' => Some(vec![
            " _____ ",
            "/  __ \\",
            "| |  \\|",
            "| | __ ",
            "| |_\\ \\",
            " \\____/",
            "       ",
            "       ",
        ]),
        'H' => Some(vec![
            "_   _  ", "| | | | ", "| |_| | ", "|  _  | ", "| | | | ", "|_| |_| ", "        ",
            "        ",
        ]),
        'I' => Some(vec![
            "_____ ", "|_   _|", "  | |  ", "  | |  ", " _| |_ ", "|_____|", "       ", "       ",
        ]),
        'J' => Some(vec![
            "    _ ",
            "   | | ",
            "   | | ",
            "   | | ",
            "/\\__/ / ",
            "\\____/  ",
            "        ",
            "        ",
        ]),
        'K' => Some(vec![
            "_   __",
            "| | / /",
            "| |/ / ",
            "|    \\ ",
            "| |\\  \\",
            "|_| \\_\\",
            "       ",
            "       ",
        ]),
        'L' => Some(vec![
            "_     ", "| |    ", "| |    ", "| |    ", "| |___ ", "|_____|", "       ", "       ",
        ]),
        'M' => Some(vec![
            "___  ___",
            "|  \\/  |",
            "| .  . |",
            "| |\\/| |",
            "| |  | |",
            "\\_|  |_/",
            "        ",
            "        ",
        ]),
        'N' => Some(vec![
            "_   _ ",
            "| \\ | |",
            "|  \\| |",
            "| . ` |",
            "| |\\  |",
            "\\_| \\_/",
            "       ",
            "       ",
        ]),
        'O' => Some(vec![
            " _____ ", "/  _  \\", "| | | |", "| | | |", "| |_| |", "\\_____/", "       ",
            "       ",
        ]),
        'P' => Some(vec![
            "______ ", "| ___ \\", "| |_/ /", "|  __/ ", "| |    ", "\\_|    ", "       ",
            "       ",
        ]),
        'Q' => Some(vec![
            " _____ ",
            "/  _  \\",
            "| | | |",
            "| |_| |",
            " \\___\\\\",
            "     \\_\\",
            "       ",
            "       ",
        ]),
        'R' => Some(vec![
            "______ ",
            "| ___ \\",
            "| |_/ /",
            "|    / ",
            "| |\\ \\ ",
            "\\_| \\_\\",
            "       ",
            "       ",
        ]),
        'S' => Some(vec![
            " _____ ", "/  ___|", "\\ `--. ", " `--. \\", "/\\__/ /", "\\____/ ", "       ",
            "       ",
        ]),
        'T' => Some(vec![
            "_______", "|_   _|", "  | |  ", "  | |  ", "  | |  ", "  \\_/  ", "       ", "       ",
        ]),
        'U' => Some(vec![
            "_   _ ", "| | | |", "| | | |", "| | | |", "| |_| |", " \\___/ ", "       ", "       ",
        ]),
        'V' => Some(vec![
            "_   _ ", "| | | |", "| | | |", "| \\ / |", " \\ V / ", "  \\_/  ", "       ",
            "       ",
        ]),
        'W' => Some(vec![
            "_    _  ",
            "| |  | | ",
            "| |  | | ",
            "| |/\\| | ",
            "\\  /\\  / ",
            " \\/  \\/  ",
            "         ",
            "         ",
        ]),
        'X' => Some(vec![
            "__   __",
            "\\ \\ / /",
            " \\ V / ",
            " /   \\ ",
            "/ /^\\ \\",
            "\\/   \\/",
            "       ",
            "       ",
        ]),
        'Y' => Some(vec![
            "__   __",
            "\\ \\ / /",
            " \\ V / ",
            "  \\ /  ",
            "  | |  ",
            "  \\_/  ",
            "       ",
            "       ",
        ]),
        'Z' => Some(vec![
            "_______", "|___  /", "   / / ", "  / /  ", "./ /___", "/_____/", "       ", "       ",
        ]),
        ' ' => Some(vec![
            "    ", "    ", "    ", "    ", "    ", "    ", "    ", "    ",
        ]),
        _ => Some(vec![
            "    ", "    ", " ?? ", "    ", " ?? ", "    ", "    ", "    ",
        ]),
    }
}

/// The lines of `c` in the Script font: its glyph for `c` in lower case,
/// or the font's placeholder for characters it does not draw.
pub open spec fn script_table(c: char) -> Seq<&'static str> {
    match ascii_lower(c) {
        'a' => seq!["      ", "  __  ", " /  \\ ", "(____)", "      "],
        'b' => seq!["      ", " /~)  ", "/_/\\_ ", "\\   / ", " ~-~  "],
        'c' => seq!["     ", " ___ ", "/  _)", "\\__\\ ", "     "],
        'd' => seq!["      ", "  _/| ", " / _| ", "/_/  |", "     ~"],
        'e' => seq!["     ", " ___ ", "/ -_)", "\\___/", "     "],
        'f' => seq!["   __", "  / _)", " / /  ", "(  (  ", " \\__\\ "],
        'g' => seq!["      ", "  ___ ", " / _ \\", "( (_) )", " \\__,/"],
        'h' => seq!["      ", " /~)_ ", "/ / / ", "\\/_/  ", "      "],
        'i' => seq!["  ", " o", " |", " |", "  "],
        'j' => seq!["     ", "   o ", "   | ", "\\__| ", "     "],
        'k' => seq!["      ", " /~\\/~", "/ /\\/ ", "~    ~", "      "],
        'l' => seq!["   ", " | ", " | ", " |_", "   "],
        'm' => seq![
            "        ",
            " /~\\/~\\ ",
            "/ /  / /",
            "~    ~  ",
            "        ",
        ],
        'n' => seq!["      ", " /~\\ _ ", "/ / / /", "~  ~ ~ ", "      "],
        'o' => seq!["     ", " ___ ", "/ _ \\", "\\___/", "     "],
        'p' => seq!["      ", " ___  ", "/ _ \\ ", "\\  __/", "|_|   "],
        'q' => seq!["      ", "  ___ ", " / _ \\", "/_/ \\_\\", "   /_/"],
        'r' => seq!["    ", " __ ", "/ _)", "\\_\\ ", "    "],
        's' => seq!["    ", " __ ", "(_ \\", "__) ", "    "],
        't' => seq!["     ", " _|_ ", "  |  ", "  |_ ", "     "],
        'u' => seq!["      ", " _  _ ", "| || |", " \\_,_|", "      "],
        'v' => seq!["      ", " _  _ ", " \\ V /", "  \\_/ ", "      "],
        'w' => seq![
            "        ",
            " _    _ ",
            " \\ \\/\\/ /",
            "  \\_/\\_/ ",
            "        ",
        ],
        'x' => seq!["     ", " _  _", " \\\\//", " //\\\\", "~  ~ "],
        'y' => seq!["      ", " _  _ ", " \\ V /", "  |_| ", " /_/  "],
        'z' => seq!["    ", " ___", "|_ /", "/__|", "    "],
        ' ' => seq!["   ", "   ", "   ", "   ", "   "],
        _ => seq!["  ", "??", "  ", "??", "  "],
    }
}

/// The glyph of `ch` in the Script font (a placeholder for characters it
/// does not draw).
fn script_glyph(ch: char) -> (r: Option<Vec<&'static str>>)
    ensures
        r is Some && r->0@ == script_table(ch),
        r->0@.len() == 5,
{
    match to_ascii_lower(ch) {
        'a' => Some(vec!["      ", "  __  ", " /  \\ ", "(____)", "      "]),
        'b' => Some(vec!["      ", " /~)  ", "/_/\\_ ", "\\   / ", " ~-~  "]),
        'c' => Some(vec!["     ", " ___ ", "/  _)", "\\__\\ ", "     "]),
        'd' => Some(vec!["      ", "  _/| ", " / _| ", "/_/  |", "     ~"]),
        'e' => Some(vec!["     ", " ___ ", "/ -_)", "\\___/", "     "]),
        'f' => Some(vec!["   __", "  / _)", " / /  ", "(  (  ", " \\__\\ "]),
        'g' => Some(vec!["      ", "  ___ ", " / _ \\", "( (_) )", " \\__,/"]),
        'h' => Some(vec!["      ", " /~)_ ", "/ / / ", "\\/_/  ", "      "]),
        'i' => Some(vec!["  ", " o", " |", " |", "  "]),
        'j' => Some(vec!["     ", "   o ", "   | ", "\\__| ", "     "]),
        'k' => Some(vec!["      ", " /~\\/~", "/ /\\/ ", "~    ~", "      "]),
        'l' => Some(vec!["   ", " | ", " | ", " |_", "   "]),
        'm' => Some(vec![
            "        ",
            " /~\\/~\\ ",
            "/ /  / /",
            "~    ~  ",
            "        ",
        ]),
        'n' => Some(vec!["      ", " /~\\ _ ", "/ / / /", "~  ~ ~ ", "      "]),
        'o' => Some(vec!["     ", " ___ ", "/ _ \\", "\\___/", "     "]),
        'p' => Some(vec!["      ", " ___  ", "/ _ \\ ", "\\  __/", "|_|   "]),
        'q' => Some(vec!["      ", "  ___ ", " / _ \\", "/_/ \\_\\", "   /_/"]),
        'r' => Some(vec!["    ", " __ ", "/ _)", "\\_\\ ", "    "]),
        's' => Some(vec!["    ", " __ ", "(_ \\", "__) ", "    "]),
        't' => Some(vec!["     ", " _|_ ", "  |  ", "  |_ ", "     "]),
        'u' => Some(vec!["      ", " _  _ ", "| || |", " \\_,_|", "      "]),
        'v' => Some(vec!["      ", " _  _ ", " \\ V /", "  \\_/ ", "      "]),
        'w' => Some(vec![
            "        ",
            " _    _ ",
            " \\ \\/\\/ /",
            "  \\_/\\_/ ",
            "        ",
        ]),
        'x' => Some(vec!["     ", " _  _", " \\\\//", " //\\\\", "~  ~ "]),
        'y' => Some(vec!["      ", " _  _ ", " \\ V /", "  |_| ", " /_/  "]),
        'z' => Some(vec!["    ", " ___", "|_ /", "/__|", "    "]),
        ' ' => Some(vec!["   ", "   ", "   ", "   ", "   "]),
        _ => Some(vec!["  ", "??", "  ", "??", "  "]),
    }
}

/// The lines of `c` in the Digital font: its glyph for `c` in upper case,
/// or the font's placeholder for characters it does not draw.
pub open spec fn digital_table(c: char) -> Seq<&'static str> {
    match ascii_upper(c) {
        'A' => seq![" ___ ", "|___|", "| | |", "| | |", "     "],
        'B' => seq!["___ ", "|__|", "|__|", "|__|", "    "],
        'C' => seq![" ___", "|   ", "|   ", "|___", "    "],
        'D' => seq!["___ ", "|  |", "|  |", "|__|", "    "],
        'E' => seq![" ___", "|__ ", "|__ ", "|___", "    "],
        'F' => seq![" ___", "|__ ", "|   ", "|   ", "    "],
        'G' => seq![" ___", "|   ", "| _ ", "|__|", "    "],
        'H' => seq!["    ", "|__|", "|  |", "|  |", "    "],
        'I' => seq!["___", " | ", " | ", "_|_", "   "],
        'J' => seq!["___", "  |", "  |", "|_|", "   "],
        'K' => seq!["    ", "| / ", "|<  ", "| \\ ", "    "],
        'L' => seq!["    ", "|   ", "|   ", "|___", "    "],
        'M' => seq!["     ", "|\\/\\ ", "|  | ", "|  | ", "     "],
        'N' => seq!["     ", "|\\ | ", "| \\| ", "|  | ", "     "],
        'O' => seq![" ___ ", "|   |", "|   |", "|___|", "     "],
        'P' => seq![" ___ ", "|___|", "|    ", "|    ", "     "],
        'Q' => seq![" ___ ", "|   |", "|  \\|", "|___\\", "     "],
        'R' => seq![" ___ ", "|___|", "| \\  ", "|  \\ ", "     "],
        'S' => seq![" ___", "|__ ", " __|", "|__ ", "    "],
        'T' => seq!["___", " | ", " | ", " | ", "   "],
        'U' => seq!["     ", "|   |", "|   |", "|___|", "     "],
        'V' => seq!["     ", "|   |", " \\ / ", "  V  ", "     "],
        'W' => seq![
            "       ",
            "|     |",
            "|  |  |",
            " \\/ \\/ ",
            "       ",
        ],
        'X' => seq!["     ", "\\ / ", " X  ", "/ \\ ", "    "],
        'Y' => seq!["     ", "\\ / ", " |  ", " |  ", "    "],
        'Z' => seq!["___", "  /", " / ", "/__", "   "],
        '0' => seq![" ___ ", "|  /|", "| / |", "|/__|", "     "],
        '1' => seq!["   ", " | ", " | ", " | ", "   "],
        '2' => seq![" ___", " __|", "|__ ", "|___", "    "],
        '3' => seq!["___", "__|", "__|", "__|", "   "],
        '4' => seq!["    ", "|__|", "   |", "   |", "    "],
        '5' => seq![" ___", "|__ ", " __|", "|__ ", "    "],
        '6' => seq![" ___", "|__ ", "|__|", "|__|", "    "],
        '7' => seq!["___", "  |", "  |", "  |", "   "],
        '8' => seq![" ___", "|__|", "|__|", "|__|", "    "],
        '9' => seq![" ___", "|__|", " __|", " __|", "    "],
        ' ' => seq!["   ", "   ", "   ", "   ", "   "],
        _ => seq!["   ", " ? ", "   ", " ? ", "   "],
    }
}

/// The glyph of `ch` in the Digital font (a placeholder for characters it
/// does not draw).
fn digital_glyph(ch: char) -> (r: Option<Vec<&'static str>>)
    ensures
        r is Some && r->0@ == digital_table(ch),
        r->0@.len() == 5,
{
    match to_ascii_upper(ch) {
        'A' => Some(vec![" ___ ", "|___|", "| | |", "| | |", "     "]),
        'B' => Some(vec!["___ ", "|__|", "|__|", "|__|", "    "]),
        'C' => Some(vec![" ___", "|   ", "|   ", "|___", "    "]),
        'D' => Some(vec!["___ ", "|  |", "|  |", "|__|", "    "]),
        'E' => Some(vec![" ___", "|__ ", "|__ ", "|___", "    "]),
        'F' => Some(vec![" ___", "|__ ", "|   ", "|   ", "    "]),
        'G' => Some(vec![" ___", "|   ", "| _ ", "|__|", "    "]),
        'H' => Some(vec!["    ", "|__|", "|  |", "|  |", "    "]),
        'I' => Some(vec!["___", " | ", " | ", "_|_", "   "]),
        'J' => Some(vec!["___", "  |", "  |", "|_|", "   "]),
        'K' => Some(vec!["    ", "| / ", "|<  ", "| \\ ", "    "]),
        'L' => Some(vec!["    ", "|   ", "|   ", "|___", "    "]),
        'M' => Some(vec!["     ", "|\\/\\ ", "|  | ", "|  | ", "     "]),
        'N' => Some(vec!["     ", "|\\ | ", "| \\| ", "|  | ", "     "]),
        'O' => Some(vec![" ___ ", "|   |", "|   |", "|___|", "     "]),
        'P' => Some(vec![" ___ ", "|___|", "|    ", "|    ", "     "]),
        'Q' => Some(vec![" ___ ", "|   |", "|  \\|", "|___\\", "     "]),
        'R' => Some(vec![" ___ ", "|___|", "| \\  ", "|  \\ ", "     "]),
        'S' => Some(vec![" ___", "|__ ", " __|", "|__ ", "    "]),
        'T' => Some(vec!["___", " | ", " | ", " | ", "   "]),
        'U' => Some(vec!["     ", "|   |", "|   |", "|___|", "     "]),
        'V' => Some(vec!["     ", "|   |", " \\ / ", "  V  ", "     "]),
        'W' => Some(vec![
            "       ",
            "|     |",
            "|  |  |",
            " \\/ \\/ ",
            "       ",
        ]),
        'X' => Some(vec!["     ", "\\ / ", " X  ", "/ \\ ", "    "]),
        'Y' => Some(vec!["     ", "\\ / ", " |  ", " |  ", "    "]),
        'Z' => Some(vec!["___", "  /", " / ", "/__", "   "]),
        '0' => Some(vec![" ___ ", "|  /|", "| / |", "|/__|", "     "]),
        '1' => Some(vec!["   ", " | ", " | ", " | ", "   "]),
        '2' => Some(vec![" ___", " __|", "|__ ", "|___", "    "]),
        '3' => Some(vec!["___", "__|", "__|", "__|", "   "]),
        '4' => Some(vec!["    ", "|__|", "   |", "   |", "    "]),
        '5' => Some(vec![" ___", "|__ ", " __|", "|__ ", "    "]),
        '6' => Some(vec![" ___", "|__ ", "|__|", "|__|", "    "]),
        '7' => Some(vec!["___", "  |", "  |", "  |", "   "]),
        '8' => Some(vec![" ___", "|__|", "|__|", "|__|", "    "]),
        '9' => Some(vec![" ___", "|__|", " __|", " __|", "    "]),
        ' ' => Some(vec!["   ", "   ", "   ", "   ", "   "]),
        _ => Some(vec!["   ", " ? ", "   ", " ? ", "   "]),
    }
}

/// The lines of `c` in the 3D font: its glyph for `c` in upper case,
/// or the font's placeholder for characters it does not draw.
pub open spec fn font_3d_table(c: char) -> Seq<&'static str> {
    match ascii_upper(c) {
        'A' => seq![
            "    ___    ",
            "   /   |   ",
            "  / /| |   ",
            " / ___ |   ",
            "/_/  |_|__ ",
            "     /____|",
            "           ",
        ],
        'B' => seq![
            "  ______  ",
            " |  ___ \\ ",
            " | |___) |",
            " |  ___  <",
            " | |___) |",
            " |______/ ",
            "          ",
        ],
        'C' => seq![
            "  _______ ",
            " / _____/ ",
            "| |       ",
            "| |       ",
            "| |_____  ",
            " \\_____/  ",
            "          ",
        ],
        'D' => seq![
            "  _____   ",
            " |  __ \\  ",
            " | |  \\ \\ ",
            " | |   | |",
            " | |__/ / ",
            " |_____/  ",
            "          ",
        ],
        'E' => seq![
            "  _______ ",
            " |  _____|",
            " | |__    ",
            " |  __|   ",
            " | |_____ ",
            " |_______|",
            "          ",
        ],
        'F' => seq![
            "  _______ ",
            " |  _____|",
            " | |__    ",
            " |  __|   ",
            " | |      ",
            " |_|      ",
            "          ",
        ],
        'G' => seq![
            "  _______ ",
            " / _____/ ",
            "| |   __  ",
            "| |  |_ | ",
            "| |___| | ",
            " \\_____/  ",
            "          ",
        ],
        'H' => seq![
            "  _   _   ",
            " | | | |  ",
            " | |_| |  ",
            " |  _  |  ",
            " | | | |  ",
            " |_| |_|  ",
            "          ",
        ],
        'I' => seq![
            "  _____ ", " |_   _|", "   | |  ", "   | |  ", "  _| |_ ", " |_____|", "        ",
        ],
        'J' => seq![
            "       __ ",
            "      |  |",
            "      |  |",
            "  __  |  |",
            " |  |_|  |",
            " |_______/",
            "          ",
        ],
        'K' => seq![
            "  _  __   ",
            " | |/ /   ",
            " | ' /    ",
            " |  <     ",
            " | . \\    ",
            " |_|\\_\\   ",
            "          ",
        ],
        'L' => seq![
            "  _       ",
            " | |      ",
            " | |      ",
            " | |      ",
            " | |_____ ",
            " |_______|",
            "          ",
        ],
        'M' => seq![
            "  __    __ ",
            " |  \\  /  |",
            " |   \\/   |",
            " | |\\  /| |",
            " | | \\/ | |",
            " |_|    |_|",
            "           ",
        ],
        'N' => seq![
            "  _     _ ",
            " | \\   | |",
            " |  \\  | |",
            " |   \\ | |",
            " | |\\ \\| |",
            " |_| \\___/",
            "          ",
        ],
        'O' => seq![
            "  ______  ",
            " / ____ \\ ",
            "| |    | |",
            "| |    | |",
            "| |____| |",
            " \\______/ ",
            "          ",
        ],
        'P' => seq![
            "  ______  ",
            " |  ___ \\ ",
            " | |___) |",
            " |  ____/ ",
            " | |      ",
            " |_|      ",
            "          ",
        ],
        'Q' => seq![
            "  ______  ",
            " / ____ \\ ",
            "| |    | |",
            "| |  _ | |",
            "| |_| \\| |",
            " \\_____\\_\\",
            "          ",
        ],
        'R' => seq![
            "  ______  ",
            " |  ___ \\ ",
            " | |___) |",
            " |  _  _/ ",
            " | | \\ \\  ",
            " |_|  \\_\\ ",
            "          ",
        ],
        'S' => seq![
            "  _______ ",
            " / ____  |",
            "| (___  | ",
            " \\___ \\ | ",
            " ____) | |",
            "|________|",
            "          ",
        ],
        'T' => seq![
            "  ________ ",
            " |__  ____|",
            "    | |    ",
            "    | |    ",
            "    | |    ",
            "    |_|    ",
            "           ",
        ],
        'U' => seq![
            "  _     _ ",
            " | |   | |",
            " | |   | |",
            " | |   | |",
            " | |___| |",
            "  \\_____/ ",
            "          ",
        ],
        'V' => seq![
            "  _     _ ",
            " | |   | |",
            " | |   | |",
            "  \\ \\ / / ",
            "   \\ V /  ",
            "    \\_/   ",
            "          ",
        ],
        'W' => seq![
            "  _       _ ",
            " | |     | |",
            " | |     | |",
            " |  \\ _ /  |",
            "  \\ |_| /  ",
            "   |___|   ",
            "           ",
        ],
        'X' => seq![
            "  _     _ ",
            "  \\ \\   / /",
            "   \\ \\_/ / ",
            "    > < /  ",
            "   / /\\ \\  ",
            "  /_/  \\_\\ ",
            "          ",
        ],
        'Y' => seq![
            "  _     _ ",
            "  \\ \\   / /",
            "   \\ \\_/ / ",
            "    \\   /  ",
            "     | |   ",
            "     |_|   ",
            "          ",
        ],
        'Z' => seq![
            "  ________ ",
            " |______  |",
            "       / / ",
            "      / /  ",
            "     / /__ ",
            "    /_____|",
            "          ",
        ],
        ' ' => seq![
            "     ", "     ", "     ", "     ", "     ", "     ", "     ",
        ],
        _ => seq![
            "     ", " ??? ", "     ", " ??? ", "     ", "     ", "     ",
        ],
    }
}

/// The glyph of `ch` in the 3D font (a placeholder for characters it
/// does not draw).
fn font_3d_glyph(ch: char) -> (r: Option<Vec<&'static str>>)
    ensures
        r is Some && r->0@ == font_3d_table(ch),
        r->0@.len() == 7,
{
    match to_ascii_upper(ch) {
        'A' => Some(vec![
            "    ___    ",
            "   /   |   ",
            "  / /| |   ",
            " / ___ |   ",
            "/_/  |_|__ ",
            "     /____|",
            "           ",
        ]),
        'B' => Some(vec![
            "  ______  ",
            " |  ___ \\ ",
            " | |___) |",
            " |  ___  <",
            " | |___) |",
            " |______/ ",
            "          ",
        ]),
        'C' => Some(vec![
            "  _______ ",
            " / _____/ ",
            "| |       ",
            "| |       ",
            "| |_____  ",
            " \\_____/  ",
            "          ",
        ]),
        'D' => Some(vec![
            "  _____   ",
            " |  __ \\  ",
            " | |  \\ \\ ",
            " | |   | |",
            " | |__/ / ",
            " |_____/  ",
            "          ",
        ]),
        'E' => Some(vec![
            "  _______ ",
            " |  _____|",
            " | |__    ",
            " |  __|   ",
            " | |_____ ",
            " |_______|",
            "          ",
        ]),
        'F' => Some(vec![
            "  _______ ",
            " |  _____|",
            " | |__    ",
            " |  __|   ",
            " | |      ",
            " |_|      ",
            "          ",
        ]),
        'G' => Some(vec![
            "  _______ ",
            " / _____/ ",
            "| |   __  ",
            "| |  |_ | ",
            "| |___| | ",
            " \\_____/  ",
            "          ",
        ]),
        'H' => Some(vec![
            "  _   _   ",
            " | | | |  ",
            " | |_| |  ",
            " |  _  |  ",
            " | | | |  ",
            " |_| |_|  ",
            "          ",
        ]),
        'I' => Some(vec![
            "  _____ ", " |_   _|", "   | |  ", "   | |  ", "  _| |_ ", " |_____|", "        ",
        ]),
        'J' => Some(vec![
            "       __ ",
            "      |  |",
            "      |  |",
            "  __  |  |",
            " |  |_|  |",
            " |_______/",
            "          ",
        ]),
        'K' => Some(vec![
            "  _  __   ",
            " | |/ /   ",
            " | ' /    ",
            " |  <     ",
            " | . \\    ",
            " |_|\\_\\   ",
            "          ",
        ]),
        'L' => Some(vec![
            "  _       ",
            " | |      ",
            " | |      ",
            " | |      ",
            " | |_____ ",
            " |_______|",
            "          ",
        ]),
        'M' => Some(vec![
            "  __    __ ",
            " |  \\  /  |",
            " |   \\/   |",
            " | |\\  /| |",
            " | | \\/ | |",
            " |_|    |_|",
            "           ",
        ]),
        'N' => Some(vec![
            "  _     _ ",
            " | \\   | |",
            " |  \\  | |",
            " |   \\ | |",
            " | |\\ \\| |",
            " |_| \\___/",
            "          ",
        ]),
        'O' => Some(vec![
            "  ______  ",
            " / ____ \\ ",
            "| |    | |",
            "| |    | |",
            "| |____| |",
            " \\______/ ",
            "          ",
        ]),
        'P' => Some(vec![
            "  ______  ",
            " |  ___ \\ ",
            " | |___) |",
            " |  ____/ ",
            " | |      ",
            " |_|      ",
            "          ",
        ]),
        'Q' => Some(vec![
            "  ______  ",
            " / ____ \\ ",
            "| |    | |",
            "| |  _ | |",
            "| |_| \\| |",
            " \\_____\\_\\",
            "          ",
        ]),
        'R' => Some(vec![
            "  ______  ",
            " |  ___ \\ ",
            " | |___) |",
            " |  _  _/ ",
            " | | \\ \\  ",
            " |_|  \\_\\ ",
            "          ",
        ]),
        'S' => Some(vec![
            "  _______ ",
            " / ____  |",
            "| (___  | ",
            " \\___ \\ | ",
            " ____) | |",
            "|________|",
            "          ",
        ]),
        'T' => Some(vec![
            "  ________ ",
            " |__  ____|",
            "    | |    ",
            "    | |    ",
            "    | |    ",
            "    |_|    ",
            "           ",
        ]),
        'U' => Some(vec![
            "  _     _ ",
            " | |   | |",
            " | |   | |",
            " | |   | |",
            " | |___| |",
            "  \\_____/ ",
            "          ",
        ]),
        'V' => Some(vec![
            "  _     _ ",
            " | |   | |",
            " | |   | |",
            "  \\ \\ / / ",
            "   \\ V /  ",
            "    \\_/   ",
            "          ",
        ]),
        'W' => Some(vec![
            "  _       _ ",
            " | |     | |",
            " | |     | |",
            " |  \\ _ /  |",
            "  \\ |_| /  ",
            "   |___|   ",
            "           ",
        ]),
        'X' => Some(vec![
            "  _     _ ",
            "  \\ \\   / /",
            "   \\ \\_/ / ",
            "    > < /  ",
            "   / /\\ \\  ",
            "  /_/  \\_\\ ",
            "          ",
        ]),
        'Y' => Some(vec![
            "  _     _ ",
            "  \\ \\   / /",
            "   \\ \\_/ / ",
            "    \\   /  ",
            "     | |   ",
            "     |_|   ",
            "          ",
        ]),
        'Z' => Some(vec![
            "  ________ ",
            " |______  |",
            "       / / ",
            "      / /  ",
            "     / /__ ",
            "    /_____|",
            "          ",
        ]),
        ' ' => Some(vec![
            "     ", "     ", "     ", "     ", "     ", "     ", "     ",
        ]),
        _ => Some(vec![
            "     ", " ??? ", "     ", " ??? ", "     ", "     ", "     ",
        ]),
    }
}

/// The lines of `c` in the Bubble font: its glyph for `c` in upper case,
/// or the font's placeholder for characters it does not draw.
pub open spec fn bubble_table(c: char) -> Seq<&'static str> {
    match ascii_upper(c) {
        'A' => seq!["  ⓐ  ", " ⓐ ⓐ ", "ⓐⓐⓐⓐⓐ", "ⓐ   ⓐ"],
        'B' => seq!["ⓑⓑⓑⓑ ", "ⓑ   ⓑ", "ⓑⓑⓑⓑ ", "ⓑⓑⓑⓑ "],
        'C' => seq![" ⓒⓒⓒⓒ", "ⓒ    ", "ⓒ    ", " ⓒⓒⓒⓒ"],
        'D' => seq!["ⓓⓓⓓ  ", "ⓓ  ⓓ ", "ⓓ   ⓓ", "ⓓⓓⓓ  "],
        'E' => seq!["ⓔⓔⓔⓔⓔ", "ⓔⓔⓔ  ", "ⓔ    ", "ⓔⓔⓔⓔⓔ"],
        'F' => seq!["ⓕⓕⓕⓕⓕ", "ⓕⓕⓕ  ", "ⓕ    ", "ⓕ    "],
        'G' => seq![" ⓖⓖⓖⓖ", "ⓖ    ", "ⓖ  ⓖⓖ", " ⓖⓖⓖⓖ"],
        'H' => seq!["ⓗ   ⓗ", "ⓗⓗⓗⓗⓗ", "ⓗ   ⓗ", "ⓗ   ⓗ"],
        'I' => seq!["ⓘⓘⓘⓘⓘ", "  ⓘ  ", "  ⓘ  ", "ⓘⓘⓘⓘⓘ"],
        'J' => seq!["    ⓙ", "    ⓙ", "ⓙ   ⓙ", " ⓙⓙⓙ "],
        'K' => seq!["ⓚ  ⓚ ", "ⓚ ⓚ  ", "ⓚⓚ   ", "ⓚ  ⓚ "],
        'L' => seq!["ⓛ    ", "ⓛ    ", "ⓛ    ", "ⓛⓛⓛⓛⓛ"],
        'M' => seq!["ⓜ   ⓜ", "ⓜⓜ ⓜⓜ", "ⓜ ⓜ ⓜ", "ⓜ   ⓜ"],
        'N' => seq!["ⓝ   ⓝ", "ⓝⓝ  ⓝ", "ⓝ ⓝ ⓝ", "ⓝ  ⓝⓝ"],
        'O' => seq![" ⓞⓞⓞ ", "ⓞ   ⓞ", "ⓞ   ⓞ", " ⓞⓞⓞ "],
        'P' => seq!["ⓟⓟⓟⓟ ", "ⓟ   ⓟ", "ⓟⓟⓟⓟ ", "ⓟ    "],
        'Q' => seq![" ⓠⓠⓠ ", "ⓠ   ⓠ", "ⓠ  ⓠ ", " ⓠⓠ ⓠ"],
        'R' => seq!["ⓡⓡⓡⓡ ", "ⓡ   ⓡ", "ⓡⓡⓡⓡ ", "ⓡ   ⓡ"],
        'S' => seq![" ⓢⓢⓢⓢ", "ⓢ    ", " ⓢⓢⓢ ", "ⓢⓢⓢⓢ "],
        'T' => seq!["ⓣⓣⓣⓣⓣ", "  ⓣ  ", "  ⓣ  ", "  ⓣ  "],
        'U' => seq!["ⓤ   ⓤ", "ⓤ   ⓤ", "ⓤ   ⓤ", " ⓤⓤⓤ "],
        'V' => seq!["ⓥ   ⓥ", "ⓥ   ⓥ", " ⓥ ⓥ ", "  ⓥ  "],
        'W' => seq!["ⓦ   ⓦ", "ⓦ ⓦ ⓦ", "ⓦⓦ ⓦⓦ", "ⓦ   ⓦ"],
        'X' => seq!["ⓧ   ⓧ", " ⓧ ⓧ ", "  ⓧ  ", "ⓧ   ⓧ"],
        'Y' => seq!["ⓨ   ⓨ", " ⓨ ⓨ ", "  ⓨ  ", "  ⓨ  "],
        'Z' => seq!["ⓩⓩⓩⓩⓩ", "   ⓩ ", "  ⓩ  ", "ⓩⓩⓩⓩⓩ"],
        ' ' => seq!["    ", "    ", "    ", "    "],
        _ => seq!["ⓧ", "ⓧ", "ⓧ", "ⓧ"],
    }
}

/// The glyph of `ch` in the Bubble font (a placeholder for characters it
/// does not draw).
fn bubble_glyph(ch: char) -> (r: Option<Vec<&'static str>>)
    ensures
        r is Some && r->0@ == bubble_table(ch),
        r->0@.len() == 4,
{
    match to_ascii_upper(ch) {
        'A' => Some(vec!["  ⓐ  ", " ⓐ ⓐ ", "ⓐⓐⓐⓐⓐ", "ⓐ   ⓐ"]),
        'B' => Some(vec!["ⓑⓑⓑⓑ ", "ⓑ   ⓑ", "ⓑⓑⓑⓑ ", "ⓑⓑⓑⓑ "]),
        'C' => Some(vec![" ⓒⓒⓒⓒ", "ⓒ    ", "ⓒ    ", " ⓒⓒⓒⓒ"]),
        'D' => Some(vec!["ⓓⓓⓓ  ", "ⓓ  ⓓ ", "ⓓ   ⓓ", "ⓓⓓⓓ  "]),
        'E' => Some(vec!["ⓔⓔⓔⓔⓔ", "ⓔⓔⓔ  ", "ⓔ    ", "ⓔⓔⓔⓔⓔ"]),
        'F' => Some(vec!["ⓕⓕⓕⓕⓕ", "ⓕⓕⓕ  ", "ⓕ    ", "ⓕ    "]),
        'G' => Some(vec![" ⓖⓖⓖⓖ", "ⓖ    ", "ⓖ  ⓖⓖ", " ⓖⓖⓖⓖ"]),
        'H' => Some(vec!["ⓗ   ⓗ", "ⓗⓗⓗⓗⓗ", "ⓗ   ⓗ", "ⓗ   ⓗ"]),
        'I' => Some(vec!["ⓘⓘⓘⓘⓘ", "  ⓘ  ", "  ⓘ  ", "ⓘⓘⓘⓘⓘ"]),
        'J' => Some(vec!["    ⓙ", "    ⓙ", "ⓙ   ⓙ", " ⓙⓙⓙ "]),
        'K' => Some(vec!["ⓚ  ⓚ ", "ⓚ ⓚ  ", "ⓚⓚ   ", "ⓚ  ⓚ "]),
        'L' => Some(vec!["ⓛ    ", "ⓛ    ", "ⓛ    ", "ⓛⓛⓛⓛⓛ"]),
        'M' => Some(vec!["ⓜ   ⓜ", "ⓜⓜ ⓜⓜ", "ⓜ ⓜ ⓜ", "ⓜ   ⓜ"]),
        'N' => Some(vec!["ⓝ   ⓝ", "ⓝⓝ  ⓝ", "ⓝ ⓝ ⓝ", "ⓝ  ⓝⓝ"]),
        'O' => Some(vec![" ⓞⓞⓞ ", "ⓞ   ⓞ", "ⓞ   ⓞ", " ⓞⓞⓞ "]),
        'P' => Some(vec!["ⓟⓟⓟⓟ ", "ⓟ   ⓟ", "ⓟⓟⓟⓟ ", "ⓟ    "]),
        'Q' => Some(vec![" ⓠⓠⓠ ", "ⓠ   ⓠ", "ⓠ  ⓠ ", " ⓠⓠ ⓠ"]),
        'R' => Some(vec!["ⓡⓡⓡⓡ ", "ⓡ   ⓡ", "ⓡⓡⓡⓡ ", "ⓡ   ⓡ"]),
        'S' => Some(vec![" ⓢⓢⓢⓢ", "ⓢ    ", " ⓢⓢⓢ ", "ⓢⓢⓢⓢ "]),
        'T' => Some(vec!["ⓣⓣⓣⓣⓣ", "  ⓣ  ", "  ⓣ  ", "  ⓣ  "]),
        'U' => Some(vec!["ⓤ   ⓤ", "ⓤ   ⓤ", "ⓤ   ⓤ", " ⓤⓤⓤ "]),
        'V' => Some(vec!["ⓥ   ⓥ", "ⓥ   ⓥ", " ⓥ ⓥ ", "  ⓥ  "]),
        'W' => Some(vec!["ⓦ   ⓦ", "ⓦ ⓦ ⓦ", "ⓦⓦ ⓦⓦ", "ⓦ   ⓦ"]),
        'X' => Some(vec!["ⓧ   ⓧ", " ⓧ ⓧ ", "  ⓧ  ", "ⓧ   ⓧ"]),
        'Y' => Some(vec!["ⓨ   ⓨ", " ⓨ ⓨ ", "  ⓨ  ", "  ⓨ  "]),
        'Z' => Some(vec!["ⓩⓩⓩⓩⓩ", "   ⓩ ", "  ⓩ  ", "ⓩⓩⓩⓩⓩ"]),
        ' ' => Some(vec!["    ", "    ", "    ", "    "]),
        _ => Some(vec!["ⓧ", "ⓧ", "ⓧ", "ⓧ"]),
    }
}

/// The lines of `c` in the Graffiti font: its glyph for `c` in upper case,
/// or the font's placeholder for characters it does not draw.
pub open spec fn graffiti_table(c: char) -> Seq<&'static str> {
    match ascii_upper(c) {
        'A' => seq![
            "   __   ",
            "  /  \\  ",
            " /    \\ ",
            "/======\\",
            "|      |",
            "|      |",
        ],
        'B' => seq![
            "======\\ ",
            "|      \\",
            "|======/",
            "|      \\",
            "|======/",
            "        ",
        ],
        'C' => seq![
            " /=====\\",
            "|       ",
            "|       ",
            "|       ",
            " \\=====/",
            "        ",
        ],
        'D' => seq![
            "=====\\  ",
            "|     \\ ",
            "|      |",
            "|     / ",
            "=====/  ",
            "        ",
        ],
        'E' => seq![
            "========", "|       ", "|=====  ", "|       ", "========", "        ",
        ],
        'F' => seq![
            "========", "|       ", "|=====  ", "|       ", "|       ", "        ",
        ],
        'G' => seq![
            " /=====\\",
            "|       ",
            "|   ====",
            "|      |",
            " \\=====/",
            "        ",
        ],
        'H' => seq![
            "|      |", "|      |", "|======|", "|      |", "|      |", "        ",
        ],
        'I' => seq![
            "========", "   ||   ", "   ||   ", "   ||   ", "========", "        ",
        ],
        'J' => seq![
            "     ===", "      | ", "      | ", "|     | ", " \\====/", "        ",
        ],
        'K' => seq![
            "|    / ", "|   /  ", "|==/   ", "|   \\  ", "|    \\ ", "       ",
        ],
        'L' => seq![
            "|      ", "|      ", "|      ", "|      ", "|======", "       ",
        ],
        'M' => seq![
            "|\\    /|",
            "| \\  / |",
            "|  \\/  |",
            "|      |",
            "|      |",
            "        ",
        ],
        'N' => seq![
            "|\\     |",
            "| \\    |",
            "|  \\   |",
            "|   \\  |",
            "|    \\ |",
            "        ",
        ],
        'O' => seq![
            " /====\\ ",
            "|      |",
            "|      |",
            "|      |",
            " \\====/ ",
            "        ",
        ],
        'P' => seq![
            "======\\ ",
            "|      |",
            "|======/",
            "|       ",
            "|       ",
            "        ",
        ],
        'Q' => seq![
            " /====\\ ",
            "|      |",
            "|   \\  |",
            "|    \\ |",
            " \\====\\|",
            "        ",
        ],
        'R' => seq![
            "======\\ ",
            "|      |",
            "|=====/ ",
            "|    \\  ",
            "|     \\ ",
            "        ",
        ],
        'S' => seq![
            " /=====\\",
            "|       ",
            " \\====\\ ",
            "       |",
            "\\=====/",
            "        ",
        ],
        'T' => seq![
            "========", "   ||   ", "   ||   ", "   ||   ", "   ||   ", "        ",
        ],
        'U' => seq![
            "|      |",
            "|      |",
            "|      |",
            "|      |",
            " \\====/ ",
            "        ",
        ],
        'V' => seq![
            "|      |",
            "|      |",
            " \\    / ",
            "  \\  /  ",
            "   \\/   ",
            "        ",
        ],
        'W' => seq![
            "|      |",
            "|      |",
            "|  /\\  |",
            "| /  \\ |",
            "|/    \\|",
            "        ",
        ],
        'X' => seq![
            "\\      /",
            " \\    / ",
            "  \\  /  ",
            "  /  \\  ",
            " /    \\ ",
            "        ",
        ],
        'Y' => seq![
            "\\      /",
            " \\    / ",
            "  \\  /  ",
            "   ||   ",
            "   ||   ",
            "        ",
        ],
        'Z' => seq![
            "========", "     /  ", "   /    ", " /      ", "========", "        ",
        ],
        ' ' => seq!["    ", "    ", "    ", "    ", "    ", "    "],
        _ => seq!["    ", " ?? ", "    ", " ?? ", "    ", "    "],
    }
}

/// The glyph of `ch` in the Graffiti font (a placeholder for characters it
/// does not draw).
fn graffiti_glyph(ch: char) -> (r: Option<Vec<&'static str>>)
    ensures
        r is Some && r->0@ == graffiti_table(ch),
        r->0@.len() == 6,
{
    match to_ascii_upper(ch) {
        'A' => Some(vec![
            "   __   ",
            "  /  \\  ",
            " /    \\ ",
            "/======\\",
            "|      |",
            "|      |",
        ]),
        'B' => Some(vec![
            "======\\ ",
            "|      \\",
            "|======/",
            "|      \\",
            "|======/",
            "        ",
        ]),
        'C' => Some(vec![
            " /=====\\",
            "|       ",
            "|       ",
            "|       ",
            " \\=====/",
            "        ",
        ]),
        'D' => Some(vec![
            "=====\\  ",
            "|     \\ ",
            "|      |",
            "|     / ",
            "=====/  ",
            "        ",
        ]),
        'E' => Some(vec![
            "========", "|       ", "|=====  ", "|       ", "========", "        ",
        ]),
        'F' => Some(vec![
            "========", "|       ", "|=====  ", "|       ", "|       ", "        ",
        ]),
        'G' => Some(vec![
            " /=====\\",
            "|       ",
            "|   ====",
            "|      |",
            " \\=====/",
            "        ",
        ]),
        'H' => Some(vec![
            "|      |", "|      |", "|======|", "|      |", "|      |", "        ",
        ]),
        'I' => Some(vec![
            "========", "   ||   ", "   ||   ", "   ||   ", "========", "        ",
        ]),
        'J' => Some(vec![
            "     ===", "      | ", "      | ", "|     | ", " \\====/", "        ",
        ]),
        'K' => Some(vec![
            "|    / ", "|   /  ", "|==/   ", "|   \\  ", "|    \\ ", "       ",
        ]),
        'L' => Some(vec![
            "|      ", "|      ", "|      ", "|      ", "|======", "       ",
        ]),
        'M' => Some(vec![
            "|\\    /|",
            "| \\  / |",
            "|  \\/  |",
            "|      |",
            "|      |",
            "        ",
        ]),
        'N' => Some(vec![
            "|\\     |",
            "| \\    |",
            "|  \\   |",
            "|   \\  |",
            "|    \\ |",
            "        ",
        ]),
        'O' => Some(vec![
            " /====\\ ",
            "|      |",
            "|      |",
            "|      |",
            " \\====/ ",
            "        ",
        ]),
        'P' => Some(vec![
            "======\\ ",
            "|      |",
            "|======/",
            "|       ",
            "|       ",
            "        ",
        ]),
        'Q' => Some(vec![
            " /====\\ ",
            "|      |",
            "|   \\  |",
            "|    \\ |",
            " \\====\\|",
            "        ",
        ]),
        'R' => Some(vec![
            "======\\ ",
            "|      |",
            "|=====/ ",
            "|    \\  ",
            "|     \\ ",
            "        ",
        ]),
        'S' => Some(vec![
            " /=====\\",
            "|       ",
            " \\====\\ ",
            "       |",
            "\\=====/",
            "        ",
        ]),
        'T' => Some(vec![
            "========", "   ||   ", "   ||   ", "   ||   ", "   ||   ", "        ",
        ]),
        'U' => Some(vec![
            "|      |",
            "|      |",
            "|      |",
            "|      |",
            " \\====/ ",
            "        ",
        ]),
        'V' => Some(vec![
            "|      |",
            "|      |",
            " \\    / ",
            "  \\  /  ",
            "   \\/   ",
            "        ",
        ]),
        'W' => Some(vec![
            "|      |",
            "|      |",
            "|  /\\  |",
            "| /  \\ |",
            "|/    \\|",
            "        ",
        ]),
        'X' => Some(vec![
            "\\      /",
            " \\    / ",
            "  \\  /  ",
            "  /  \\  ",
            " /    \\ ",
            "        ",
        ]),
        'Y' => Some(vec![
            "\\      /",
            " \\    / ",
            "  \\  /  ",
            "   ||   ",
            "   ||   ",
            "        ",
        ]),
        'Z' => Some(vec![
            "========", "     /  ", "   /    ", " /      ", "========", "        ",
        ]),
        ' ' => Some(vec!["    ", "    ", "    ", "    ", "    ", "    "]),
        _ => Some(vec!["    ", " ?? ", "    ", " ?? ", "    ", "    "]),
    }
}

/// The lines of `c` in the Gothic font: its glyph for `c` in upper case,
/// or the font's placeholder for characters it does not draw.
pub open spec fn gothic_table(c: char) -> Seq<&'static str> {
    match ascii_upper(c) {
        'A' => seq![
            "     _     ",
            "    /_\\    ",
            "   //_\\\\   ",
            "  //___\\\\  ",
            " //     \\\\ ",
            "//       \\\\",
        ],
        'B' => seq![
            "_______ ",
            "||___  \\",
            "||    ) )",
            "||___  / ",
            "||    ) )",
            "||____/ ",
        ],
        'C' => seq![
            "  _____ ",
            " / ____\\",
            "| |     ",
            "| |     ",
            "| |____ ",
            " \\_____/",
        ],
        'D' => seq![
            "______  ",
            "||    \\ ",
            "||     \\",
            "||     /",
            "||    / ",
            "||___/  ",
        ],
        'E' => seq![
            "_______ ", "||_____|", "||___   ", "||___   ", "||_____ ", "||_____|",
        ],
        'F' => seq![
            "_______ ", "||_____|", "||___   ", "||___   ", "||      ", "||      ",
        ],
        'G' => seq![
            "  _____ ",
            " / ____\\",
            "| |  __ ",
            "| | |_ |",
            "| |__| |",
            " \\_____/",
        ],
        'H' => seq![
            "||   || ", "||   || ", "||___|| ", "||---|| ", "||   || ", "||   || ",
        ],
        'I' => seq![
            "______", " _||_ ", "  ||  ", "  ||  ", " _||_ ", "______",
        ],
        'J' => seq![
            "  ____ ", "   || ", "   || ", "   || ", "|\\_|| ", " \\__/ ",
        ],
        'K' => seq![
            "||  //", "|| // ", "||//  ", "||\\\\  ", "|| \\\\ ", "||  \\\\",
        ],
        'L' => seq![
            "||     ", "||     ", "||     ", "||     ", "||____ ", "||_____|",
        ],
        'M' => seq![
            "||\\  /||",
            "|| \\/ ||",
            "||    ||",
            "||    ||",
            "||    ||",
            "||    ||",
        ],
        'N' => seq![
            "||\\   ||",
            "|| \\  ||",
            "||  \\ ||",
            "||   \\||",
            "||    ||",
            "||    ||",
        ],
        'O' => seq![
            "  ____  ",
            " /    \\ ",
            "||    ||",
            "||    ||",
            "||    ||",
            " \\____/ ",
        ],
        'P' => seq![
            "______  ",
            "||    \\ ",
            "||____/ ",
            "||      ",
            "||      ",
            "||      ",
        ],
        'Q' => seq![
            "  ____  ",
            " /    \\ ",
            "||    ||",
            "||  \\ ||",
            "||   \\||",
            " \\____\\\\",
        ],
        'R' => seq![
            "______  ",
            "||    \\ ",
            "||____/ ",
            "||  \\   ",
            "||   \\  ",
            "||    \\ ",
        ],
        'S' => seq![
            " _____  ",
            "/  ___| ",
            "\\___ \\  ",
            "  ___)| ",
            " \\___/  ",
            "        ",
        ],
        'T' => seq![
            "________", "  _||_  ", "   ||   ", "   ||   ", "   ||   ", "   ||   ",
        ],
        'U' => seq![
            "||    ||",
            "||    ||",
            "||    ||",
            "||    ||",
            "||    ||",
            " \\____/ ",
        ],
        'V' => seq![
            "||    ||",
            "||    ||",
            " \\\\  // ",
            "  \\\\//  ",
            "   \\/   ",
            "        ",
        ],
        'W' => seq![
            "||    ||",
            "||    ||",
            "|| /\\ ||",
            "||/  \\||",
            "||    ||",
            "        ",
        ],
        'X' => seq![
            "\\\\    //",
            " \\\\  // ",
            "  \\\\//  ",
            "  //\\\\  ",
            " //  \\\\ ",
            "//    \\\\",
        ],
        'Y' => seq![
            "\\\\    //",
            " \\\\  // ",
            "  \\\\//  ",
            "   ||   ",
            "   ||   ",
            "   ||   ",
        ],
        'Z' => seq![
            "________",
            "______//",
            "    //  ",
            "  //    ",
            "//______",
            "________|",
        ],
        ' ' => seq!["    ", "    ", "    ", "    ", "    ", "    "],
        _ => seq!["    ", " ?? ", "    ", " ?? ", "    ", "    "],
    }
}

/// The glyph of `ch` in the Gothic font (a placeholder for characters it
/// does not draw).
fn gothic_glyph(ch: char) -> (r: Option<Vec<&'static str>>)
    ensures
        r is Some && r->0@ == gothic_table(ch),
        r->0@.len() == 6,
{
    match to_ascii_upper(ch) {
        'A' => Some(vec![
            "     _     ",
            "    /_\\    ",
            "   //_\\\\   ",
            "  //___\\\\  ",
            " //     \\\\ ",
            "//       \\\\",
        ]),
        'B' => Some(vec![
            "_______ ",
            "||___  \\",
            "||    ) )",
            "||___  / ",
            "||    ) )",
            "||____/ ",
        ]),
        'C' => Some(vec![
            "  _____ ",
            " / ____\\",
            "| |     ",
            "| |     ",
            "| |____ ",
            " \\_____/",
        ]),
        'D' => Some(vec![
            "______  ",
            "||    \\ ",
            "||     \\",
            "||     /",
            "||    / ",
            "||___/  ",
        ]),
        'E' => Some(vec![
            "_______ ", "||_____|", "||___   ", "||___   ", "||_____ ", "||_____|",
        ]),
        'F' => Some(vec![
            "_______ ", "||_____|", "||___   ", "||___   ", "||      ", "||      ",
        ]),
        'G' => Some(vec![
            "  _____ ",
            " / ____\\",
            "| |  __ ",
            "| | |_ |",
            "| |__| |",
            " \\_____/",
        ]),
        'H' => Some(vec![
            "||   || ", "||   || ", "||___|| ", "||---|| ", "||   || ", "||   || ",
        ]),
        'I' => Some(vec![
            "______", " _||_ ", "  ||  ", "  ||  ", " _||_ ", "______",
        ]),
        'J' => Some(vec![
            "  ____ ", "   || ", "   || ", "   || ", "|\\_|| ", " \\__/ ",
        ]),
        'K' => Some(vec![
            "||  //", "|| // ", "||//  ", "||\\\\  ", "|| \\\\ ", "||  \\\\",
        ]),
        'L' => Some(vec![
            "||     ", "||     ", "||     ", "||     ", "||____ ", "||_____|",
        ]),
        'M' => Some(vec![
            "||\\  /||",
            "|| \\/ ||",
            "||    ||",
            "||    ||",
            "||    ||",
            "||    ||",
        ]),
        'N' => Some(vec![
            "||\\   ||",
            "|| \\  ||",
            "||  \\ ||",
            "||   \\||",
            "||    ||",
            "||    ||",
        ]),
        'O' => Some(vec![
            "  ____  ",
            " /    \\ ",
            "||    ||",
            "||    ||",
            "||    ||",
            " \\____/ ",
        ]),
        'P' => Some(vec![
            "______  ",
            "||    \\ ",
            "||____/ ",
            "||      ",
            "||      ",
            "||      ",
        ]),
        'Q' => Some(vec![
            "  ____  ",
            " /    \\ ",
            "||    ||",
            "||  \\ ||",
            "||   \\||",
            " \\____\\\\",
        ]),
        'R' => Some(vec![
            "______  ",
            "||    \\ ",
            "||____/ ",
            "||  \\   ",
            "||   \\  ",
            "||    \\ ",
        ]),
        'S' => Some(vec![
            " _____  ",
            "/  ___| ",
            "\\___ \\  ",
            "  ___)| ",
            " \\___/  ",
            "        ",
        ]),
        'T' => Some(vec![
            "________", "  _||_  ", "   ||   ", "   ||   ", "   ||   ", "   ||   ",
        ]),
        'U' => Some(vec![
            "||    ||",
            "||    ||",
            "||    ||",
            "||    ||",
            "||    ||",
            " \\____/ ",
        ]),
        'V' => Some(vec![
            "||    ||",
            "||    ||",
            " \\\\  // ",
            "  \\\\//  ",
            "   \\/   ",
            "        ",
        ]),
        'W' => Some(vec![
            "||    ||",
            "||    ||",
            "|| /\\ ||",
            "||/  \\||",
            "||    ||",
            "        ",
        ]),
        'X' => Some(vec![
            "\\\\    //",
            " \\\\  // ",
            "  \\\\//  ",
            "  //\\\\  ",
            " //  \\\\ ",
            "//    \\\\",
        ]),
        'Y' => Some(vec![
            "\\\\    //",
            " \\\\  // ",
            "  \\\\//  ",
            "   ||   ",
            "   ||   ",
            "   ||   ",
        ]),
        'Z' => Some(vec![
            "________",
            "______//",
            "    //  ",
            "  //    ",
            "//______",
            "________|",
        ]),
        ' ' => Some(vec!["    ", "    ", "    ", "    ", "    ", "    "]),
        _ => Some(vec!["    ", " ?? ", "    ", " ?? ", "    ", "    "]),
    }
}

/// The lines of `c` in the Lean font: its glyph for `c` in upper case,
/// or the font's placeholder for characters it does not draw.
pub open spec fn lean_table(c: char) -> Seq<&'static str> {
    match ascii_upper(c) {
        'A' => seq![
            "    _/_/    ",
            "   _/  _/   ",
            "  _/_/_/_/  ",
            " _/    _/   ",
            "_/      _/  ",
        ],
        'B' => seq![
            "  _/_/_/   ",
            " _/    _/  ",
            "_/_/_/_/   ",
            "_/    _/   ",
            "_/_/_/     ",
        ],
        'C' => seq![
            "  _/_/_/_/ ",
            " _/        ",
            "_/         ",
            "_/         ",
            " _/_/_/_/  ",
        ],
        'D' => seq![
            "  _/_/_/   ",
            " _/    _/  ",
            "_/      _/ ",
            "_/    _/   ",
            "_/_/_/     ",
        ],
        'E' => seq![
            "  _/_/_/_/_/",
            " _/         ",
            "_/_/_/_/    ",
            "_/          ",
            "_/_/_/_/_/  ",
        ],
        'F' => seq![
            "  _/_/_/_/_/",
            " _/         ",
            "_/_/_/_/    ",
            "_/          ",
            "_/          ",
        ],
        'G' => seq![
            "  _/_/_/_/ ",
            " _/        ",
            "_/   _/_/  ",
            "_/      _/ ",
            " _/_/_/_/  ",
        ],
        'H' => seq![
            "  _/    _/  ",
            " _/    _/   ",
            "_/_/_/_/_/  ",
            "_/      _/  ",
            "_/      _/  ",
        ],
        'I' => seq![
            "  _/_/_/_/",
            "     _/   ",
            "    _/    ",
            "   _/     ",
            "_/_/_/_/  ",
        ],
        'J' => seq![
            "      _/_/",
            "        _/",
            "       _/ ",
            "      _/  ",
            "_/_/_/    ",
        ],
        'K' => seq![
            "  _/  _/  ",
            " _/ _/    ",
            "_/_/      ",
            "_/  _/    ",
            "_/    _/  ",
        ],
        'L' => seq![
            "  _/       ",
            " _/        ",
            "_/         ",
            "_/         ",
            "_/_/_/_/_/ ",
        ],
        'M' => seq![
            "  _/      _/  ",
            " _/_/  _/_/   ",
            "_/  _/_/  _/  ",
            "_/        _/  ",
            "_/        _/  ",
        ],
        'N' => seq![
            "  _/      _/ ",
            " _/_/    _/  ",
            "_/  _/  _/   ",
            "_/    _/_/   ",
            "_/      _/   ",
        ],
        'O' => seq![
            "   _/_/_/  ",
            "  _/    _/ ",
            " _/      _/",
            "_/      _/ ",
            " _/_/_/    ",
        ],
        'P' => seq![
            "  _/_/_/   ",
            " _/    _/  ",
            "_/_/_/     ",
            "_/         ",
            "_/         ",
        ],
        'Q' => seq![
            "   _/_/_/  ",
            "  _/    _/ ",
            " _/      _/",
            "_/    _/_/ ",
            " _/_/_/ _/ ",
        ],
        'R' => seq![
            "  _/_/_/   ",
            " _/    _/  ",
            "_/_/_/     ",
            "_/   _/    ",
            "_/     _/  ",
        ],
        'S' => seq![
            "  _/_/_/_/ ",
            " _/        ",
            " _/_/_/    ",
            "      _/   ",
            "_/_/_/     ",
        ],
        'T' => seq![
            "_/_/_/_/_/_/",
            "     _/     ",
            "    _/      ",
            "   _/       ",
            "  _/        ",
        ],
        'U' => seq![
            "  _/      _/",
            " _/      _/ ",
            "_/      _/  ",
            "_/    _/    ",
            " _/_/_/     ",
        ],
        'V' => seq![
            "  _/        _/",
            " _/        _/ ",
            "_/        _/  ",
            " _/      _/   ",
            "  _/_/_/_/    ",
        ],
        'W' => seq![
            "  _/          _/",
            " _/          _/ ",
            "_/    _/    _/  ",
            " _/  _/ _/ _/   ",
            "  _/      _/    ",
        ],
        'X' => seq![
            "  _/      _/",
            "   _/  _/   ",
            "    _/_/    ",
            "   _/  _/   ",
            "  _/    _/  ",
        ],
        'Y' => seq![
            "  _/      _/",
            "   _/  _/   ",
            "    _/_/    ",
            "     _/     ",
            "    _/      ",
        ],
        'Z' => seq![
            "_/_/_/_/_/_/",
            "       _/   ",
            "    _/      ",
            " _/         ",
            "_/_/_/_/_/_/",
        ],
        ' ' => seq!["     ", "     ", "     ", "     ", "     "],
        _ => seq!["     ", " ??? ", "     ", " ??? ", "     "],
    }
}

/// The glyph of `ch` in the Lean font (a placeholder for characters it
/// does not draw).
fn lean_glyph(ch: char) -> (r: Option<Vec<&'static str>>)
    ensures
        r is Some && r->0@ == lean_table(ch),
        r->0@.len() == 5,
{
    match to_ascii_upper(ch) {
        'A' => Some(vec![
            "    _/_/    ",
            "   _/  _/   ",
            "  _/_/_/_/  ",
            " _/    _/   ",
            "_/      _/  ",
        ]),
        'B' => Some(vec![
            "  _/_/_/   ",
            " _/    _/  ",
            "_/_/_/_/   ",
            "_/    _/   ",
            "_/_/_/     ",
        ]),
        'C' => Some(vec![
            "  _/_/_/_/ ",
            " _/        ",
            "_/         ",
            "_/         ",
            " _/_/_/_/  ",
        ]),
        'D' => Some(vec![
            "  _/_/_/   ",
            " _/    _/  ",
            "_/      _/ ",
            "_/    _/   ",
            "_/_/_/     ",
        ]),
        'E' => Some(vec![
            "  _/_/_/_/_/",
            " _/         ",
            "_/_/_/_/    ",
            "_/          ",
            "_/_/_/_/_/  ",
        ]),
        'F' => Some(vec![
            "  _/_/_/_/_/",
            " _/         ",
            "_/_/_/_/    ",
            "_/          ",
            "_/          ",
        ]),
        'G' => Some(vec![
            "  _/_/_/_/ ",
            " _/        ",
            "_/   _/_/  ",
            "_/      _/ ",
            " _/_/_/_/  ",
        ]),
        'H' => Some(vec![
            "  _/    _/  ",
            " _/    _/   ",
            "_/_/_/_/_/  ",
            "_/      _/  ",
            "_/      _/  ",
        ]),
        'I' => Some(vec![
            "  _/_/_/_/",
            "     _/   ",
            "    _/    ",
            "   _/     ",
            "_/_/_/_/  ",
        ]),
        'J' => Some(vec![
            "      _/_/",
            "        _/",
            "       _/ ",
            "      _/  ",
            "_/_/_/    ",
        ]),
        'K' => Some(vec![
            "  _/  _/  ",
            " _/ _/    ",
            "_/_/      ",
            "_/  _/    ",
            "_/    _/  ",
        ]),
        'L' => Some(vec![
            "  _/       ",
            " _/        ",
            "_/         ",
            "_/         ",
            "_/_/_/_/_/ ",
        ]),
        'M' => Some(vec![
            "  _/      _/  ",
            " _/_/  _/_/   ",
            "_/  _/_/  _/  ",
            "_/        _/  ",
            "_/        _/  ",
        ]),
        'N' => Some(vec![
            "  _/      _/ ",
            " _/_/    _/  ",
            "_/  _/  _/   ",
            "_/    _/_/   ",
            "_/      _/   ",
        ]),
        'O' => Some(vec![
            "   _/_/_/  ",
            "  _/    _/ ",
            " _/      _/",
            "_/      _/ ",
            " _/_/_/    ",
        ]),
        'P' => Some(vec![
            "  _/_/_/   ",
            " _/    _/  ",
            "_/_/_/     ",
            "_/         ",
            "_/         ",
        ]),
        'Q' => Some(vec![
            "   _/_/_/  ",
            "  _/    _/ ",
            " _/      _/",
            "_/    _/_/ ",
            " _/_/_/ _/ ",
        ]),
        'R' => Some(vec![
            "  _/_/_/   ",
            " _/    _/  ",
            "_/_/_/     ",
            "_/   _/    ",
            "_/     _/  ",
        ]),
        'S' => Some(vec![
            "  _/_/_/_/ ",
            " _/        ",
            " _/_/_/    ",
            "      _/   ",
            "_/_/_/     ",
        ]),
        'T' => Some(vec![
            "_/_/_/_/_/_/",
            "     _/     ",
            "    _/      ",
            "   _/       ",
            "  _/        ",
        ]),
        'U' => Some(vec![
            "  _/      _/",
            " _/      _/ ",
            "_/      _/  ",
            "_/    _/    ",
            " _/_/_/     ",
        ]),
        'V' => Some(vec![
            "  _/        _/",
            " _/        _/ ",
            "_/        _/  ",
            " _/      _/   ",
            "  _/_/_/_/    ",
        ]),
        'W' => Some(vec![
            "  _/          _/",
            " _/          _/ ",
            "_/    _/    _/  ",
            " _/  _/ _/ _/   ",
            "  _/      _/    ",
        ]),
        'X' => Some(vec![
            "  _/      _/",
            "   _/  _/   ",
            "    _/_/    ",
            "   _/  _/   ",
            "  _/    _/  ",
        ]),
        'Y' => Some(vec![
            "  _/      _/",
            "   _/  _/   ",
            "    _/_/    ",
            "     _/     ",
            "    _/      ",
        ]),
        'Z' => Some(vec![
            "_/_/_/_/_/_/",
            "       _/   ",
            "    _/      ",
            " _/         ",
            "_/_/_/_/_/_/",
        ]),
        ' ' => Some(vec!["     ", "     ", "     ", "     ", "     "]),
        _ => Some(vec!["     ", " ??? ", "     ", " ??? ", "     "]),
    }
}

/// The lines of `c` in the Isometric font: its glyph for `c` in upper case,
/// or the font's placeholder for characters it does not draw.
pub open spec fn isometric_table(c: char) -> Seq<&'static str> {
    match ascii_upper(c) {
        'A' => seq![
            "      ___     ",
            "     /\\  \\    ",
            "    /::\\  \\   ",
            "   /:/\\:\\  \\  ",
            "  /:/_\\:\\__\\ ",
            " /:/ `\\/__/ ",
            " \\/__/       ",
        ],
        'B' => seq![
            "   ___     ",
            "  /\\  \\    ",
            " |::\\  \\   ",
            " |:|:\\  \\  ",
            " |:| \\:\\__\\",
            " |:|  \\/__/",
            "  \\|__|     ",
        ],
        'C' => seq![
            "      ___   ",
            "     /\\__\\  ",
            "    /:/  /  ",
            "   /:/  /   ",
            "  /:/  /    ",
            " /:/__/     ",
            " \\/__/      ",
        ],
        'D' => seq![
            "   ___      ",
            "  /\\  \\     ",
            " |::\\  \\    ",
            " |:|:\\  \\   ",
            " |:| \\:\\__\\ ",
            " |:|  \\/__/ ",
            "  \\|__|      ",
        ],
        'E' => seq![
            "   _____   ",
            "  /\\  ___ \\ ",
            " |::\\/___/|",
            " |:::_____/",
            " |:::\\____\\",
            "  \\::/__/  ",
            "   \\/__/    ",
        ],
        'F' => seq![
            "   _____   ",
            "  /\\  ___ \\ ",
            " |::\\/___/|",
            " |::_____/ ",
            " |::|      ",
            "  \\|__|     ",
            "            ",
        ],
        'G' => seq![
            "      ____  ",
            "     /\\  __\\",
            "    |::|\\_\\|",
            "    |:|  __ ",
            "    |::|\\_\\|",
            "     \\:|\\_\\|",
            "      \\|__| ",
        ],
        'H' => seq![
            "   ___  ___ ",
            "  /\\  \\/\\  \\",
            " |::| |::| |",
            " |::|_|::| |",
            " |:::::/__/ ",
            " |::::|____ ",
            "  \\|__|     ",
        ],
        'I' => seq![
            "   _____ ",
            "  /\\__  \\",
            " |::| | |",
            " |::| | |",
            " |::| | |",
            " |::|_|/ ",
            "  \\/__/  ",
        ],
        'J' => seq![
            "     _____ ",
            "    /\\__  \\",
            "   /::| | |",
            "  /::/ | | ",
            " /::/__| | ",
            " \\:\\/___/ ",
            "  \\/__/    ",
        ],
        'K' => seq![
            "   ___  ___",
            "  /\\  \\/\\__\\",
            " |::|_\\:| |",
            " |:::__::| ",
            " |:|  |::| ",
            " |:|__|::| ",
            "  \\/__/    ",
        ],
        'L' => seq![
            "   ___     ",
            "  /\\  \\    ",
            " |::\\  \\   ",
            " |::\\  \\   ",
            " |::\\  \\   ",
            " |::::\\___\\",
            "  \\/__/    ",
        ],
        'M' => seq![
            "   ___ ___  ",
            "  /\\__/\\__\\ ",
            " |:| |:| | |",
            " |:| |:| | |",
            " |:|_|:|_| |",
            "  \\/_/\\/_/ /",
            "    \\/__/   ",
        ],
        'N' => seq![
            "   ___  ___ ",
            "  /\\__\\/\\  \\",
            " |::\\ \\::\\ \\",
            " |::\\ \\::\\  \\",
            " |::\\ \\::/__/",
            "  \\::\\/:/   ",
            "   \\/__/     ",
        ],
        'O' => seq![
            "      ___   ",
            "     /\\  \\  ",
            "    /::\\  \\ ",
            "   /:/\\:\\  \\",
            "  /:/ /::\\__\\",
            " /:/_/:/ /  ",
            " \\/__/::/   ",
        ],
        'P' => seq![
            "   _____  ",
            "  /\\  __ \\ ",
            " |::|___ \\|",
            " |:::____/ ",
            " |::|      ",
            " |::|      ",
            "  \\|__|     ",
        ],
        'Q' => seq![
            "      ___   ",
            "     /\\  \\  ",
            "    /::\\  \\ ",
            "   /:/\\:\\  \\",
            "  /:/ /::\\__\\",
            " /:/_/:/ _/ ",
            " \\:\\ \\/_/   ",
        ],
        'R' => seq![
            "   _____  ",
            "  /\\  __ \\ ",
            " |::|___ \\|",
            " |:::____/ ",
            " |::|_/ /  ",
            " |::/ /    ",
            "  \\/__/     ",
        ],
        'S' => seq![
            "      ___   ",
            "     /\\__\\  ",
            "    /:/ _/_ ",
            "   /:/ /\\__\\",
            "  /:/ /:/__/",
            " /:/_/::\\ \\ ",
            " \\/__/\\/__/ ",
        ],
        'T' => seq![
            "  _________ ",
            " /\\________\\",
            " \\/___ __::/",
            "     |::| / ",
            "    /:::|/  ",
            "   /:::/    ",
            "   \\/__/    ",
        ],
        'U' => seq![
            "   ___  ___ ",
            "  /\\  \\/\\  \\",
            " |::| |::| |",
            " |::| |::| |",
            " |::\\_/::/ /",
            "  \\::/\\/__/ ",
            "   \\/__/    ",
        ],
        'V' => seq![
            "  ___    ___ ",
            " /\\  \\  /\\  \\",
            " \\:\\  \\/:\\  \\",
            "  \\:\\__\\:\\__\\",
            "   \\/__/\\_\\/ ",
            "        \\/_/ ",
            "             ",
        ],
        'W' => seq![
            "  ___  ___  ___ ",
            " /\\  \\/\\  \\/\\  \\",
            " \\:\\  \\:\\  \\:\\  \\",
            "  \\:\\__\\:\\__\\:\\__\\",
            "   \\/__/\\_\\:\\/__/",
            "        /:/\\/__/ ",
            "        \\/__/    ",
        ],
        'X' => seq![
            "   ___  ___ ",
            "  /\\  \\/\\  \\",
            "  \\:\\::\\ \\:\\ ",
            "   \\:/::\\__\\",
            "   /:/\\/__/",
            "  /:/  /   ",
            "  \\/__/    ",
        ],
        'Y' => seq![
            "  ___    ___ ",
            " /\\  \\  /\\  \\",
            " \\:\\  \\/:\\__\\",
            "  \\:\\__::/  /",
            "   \\/_/:/  / ",
            "     /:/  /  ",
            "     \\/__/   ",
        ],
        'Z' => seq![
            "  _________ ",
            " /\\________\\",
            " \\/___ __::/",
            "  /:/\\::/ / ",
            " /:/\\::/ /  ",
            " \\/__\\/__/  ",
            "            ",
        ],
        ' ' => seq![
            "      ", "      ", "      ", "      ", "      ", "      ", "      ",
        ],
        _ => seq![
            "      ", " ???? ", "      ", " ???? ", "      ", "      ", "      ",
        ],
    }
}

/// The glyph of `ch` in the Isometric font (a placeholder for characters it
/// does not draw).
fn isometric_glyph(ch: char) -> (r: Option<Vec<&'static str>>)
    ensures
        r is Some && r->0@ == isometric_table(ch),
        r->0@.len() == 7,
{
    match to_ascii_upper(ch) {
        'A' => Some(vec![
            "      ___     ",
            "     /\\  \\    ",
            "    /::\\  \\   ",
            "   /:/\\:\\  \\  ",
            "  /:/_\\:\\__\\ ",
            " /:/ `\\/__/ ",
            " \\/__/       ",
        ]),
        'B' => Some(vec![
            "   ___     ",
            "  /\\  \\    ",
            " |::\\  \\   ",
            " |:|:\\  \\  ",
            " |:| \\:\\__\\",
            " |:|  \\/__/",
            "  \\|__|     ",
        ]),
        'C' => Some(vec![
            "      ___   ",
            "     /\\__\\  ",
            "    /:/  /  ",
            "   /:/  /   ",
            "  /:/  /    ",
            " /:/__/     ",
            " \\/__/      ",
        ]),
        'D' => Some(vec![
            "   ___      ",
            "  /\\  \\     ",
            " |::\\  \\    ",
            " |:|:\\  \\   ",
            " |:| \\:\\__\\ ",
            " |:|  \\/__/ ",
            "  \\|__|      ",
        ]),
        'E' => Some(vec![
            "   _____   ",
            "  /\\  ___ \\ ",
            " |::\\/___/|",
            " |:::_____/",
            " |:::\\____\\",
            "  \\::/__/  ",
            "   \\/__/    ",
        ]),
        'F' => Some(vec![
            "   _____   ",
            "  /\\  ___ \\ ",
            " |::\\/___/|",
            " |::_____/ ",
            " |::|      ",
            "  \\|__|     ",
            "            ",
        ]),
        'G' => Some(vec![
            "      ____  ",
            "     /\\  __\\",
            "    |::|\\_\\|",
            "    |:|  __ ",
            "    |::|\\_\\|",
            "     \\:|\\_\\|",
            "      \\|__| ",
        ]),
        'H' => Some(vec![
            "   ___  ___ ",
            "  /\\  \\/\\  \\",
            " |::| |::| |",
            " |::|_|::| |",
            " |:::::/__/ ",
            " |::::|____ ",
            "  \\|__|     ",
        ]),
        'I' => Some(vec![
            "   _____ ",
            "  /\\__  \\",
            " |::| | |",
            " |::| | |",
            " |::| | |",
            " |::|_|/ ",
            "  \\/__/  ",
        ]),
        'J' => Some(vec![
            "     _____ ",
            "    /\\__  \\",
            "   /::| | |",
            "  /::/ | | ",
            " /::/__| | ",
            " \\:\\/___/ ",
            "  \\/__/    ",
        ]),
        'K' => Some(vec![
            "   ___  ___",
            "  /\\  \\/\\__\\",
            " |::|_\\:| |",
            " |:::__::| ",
            " |:|  |::| ",
            " |:|__|::| ",
            "  \\/__/    ",
        ]),
        'L' => Some(vec![
            "   ___     ",
            "  /\\  \\    ",
            " |::\\  \\   ",
            " |::\\  \\   ",
            " |::\\  \\   ",
            " |::::\\___\\",
            "  \\/__/    ",
        ]),
        'M' => Some(vec![
            "   ___ ___  ",
            "  /\\__/\\__\\ ",
            " |:| |:| | |",
            " |:| |:| | |",
            " |:|_|:|_| |",
            "  \\/_/\\/_/ /",
            "    \\/__/   ",
        ]),
        'N' => Some(vec![
            "   ___  ___ ",
            "  /\\__\\/\\  \\",
            " |::\\ \\::\\ \\",
            " |::\\ \\::\\  \\",
            " |::\\ \\::/__/",
            "  \\::\\/:/   ",
            "   \\/__/     ",
        ]),
        'O' => Some(vec![
            "      ___   ",
            "     /\\  \\  ",
            "    /::\\  \\ ",
            "   /:/\\:\\  \\",
            "  /:/ /::\\__\\",
            " /:/_/:/ /  ",
            " \\/__/::/   ",
        ]),
        'P' => Some(vec![
            "   _____  ",
            "  /\\  __ \\ ",
            " |::|___ \\|",
            " |:::____/ ",
            " |::|      ",
            " |::|      ",
            "  \\|__|     ",
        ]),
        'Q' => Some(vec![
            "      ___   ",
            "     /\\  \\  ",
            "    /::\\  \\ ",
            "   /:/\\:\\  \\",
            "  /:/ /::\\__\\",
            " /:/_/:/ _/ ",
            " \\:\\ \\/_/   ",
        ]),
        'R' => Some(vec![
            "   _____  ",
            "  /\\  __ \\ ",
            " |::|___ \\|",
            " |:::____/ ",
            " |::|_/ /  ",
            " |::/ /    ",
            "  \\/__/     ",
        ]),
        'S' => Some(vec![
            "      ___   ",
            "     /\\__\\  ",
            "    /:/ _/_ ",
            "   /:/ /\\__\\",
            "  /:/ /:/__/",
            " /:/_/::\\ \\ ",
            " \\/__/\\/__/ ",
        ]),
        'T' => Some(vec![
            "  _________ ",
            " /\\________\\",
            " \\/___ __::/",
            "     |::| / ",
            "    /:::|/  ",
            "   /:::/    ",
            "   \\/__/    ",
        ]),
        'U' => Some(vec![
            "   ___  ___ ",
            "  /\\  \\/\\  \\",
            " |::| |::| |",
            " |::| |::| |",
            " |::\\_/::/ /",
            "  \\::/\\/__/ ",
            "   \\/__/    ",
        ]),
        'V' => Some(vec![
            "  ___    ___ ",
            " /\\  \\  /\\  \\",
            " \\:\\  \\/:\\  \\",
            "  \\:\\__\\:\\__\\",
            "   \\/__/\\_\\/ ",
            "        \\/_/ ",
            "             ",
        ]),
        'W' => Some(vec![
            "  ___  ___  ___ ",
            " /\\  \\/\\  \\/\\  \\",
            " \\:\\  \\:\\  \\:\\  \\",
            "  \\:\\__\\:\\__\\:\\__\\",
            "   \\/__/\\_\\:\\/__/",
            "        /:/\\/__/ ",
            "        \\/__/    ",
        ]),
        'X' => Some(vec![
            "   ___  ___ ",
            "  /\\  \\/\\  \\",
            "  \\:\\::\\ \\:\\ ",
            "   \\:/::\\__\\",
            "   /:/\\/__/",
            "  /:/  /   ",
            "  \\/__/    ",
        ]),
        'Y' => Some(vec![
            "  ___    ___ ",
            " /\\  \\  /\\  \\",
            " \\:\\  \\/:\\__\\",
            "  \\:\\__::/  /",
            "   \\/_/:/  / ",
            "     /:/  /  ",
            "     \\/__/   ",
        ]),
        'Z' => Some(vec![
            "  _________ ",
            " /\\________\\",
            " \\/___ __::/",
            "  /:/\\::/ / ",
            " /:/\\::/ /  ",
            " \\/__\\/__/  ",
            "            ",
        ]),
        ' ' => Some(vec![
            "      ", "      ", "      ", "      ", "      ", "      ", "      ",
        ]),
        _ => Some(vec![
            "      ", " ???? ", "      ", " ???? ", "      ", "      ", "      ",
        ]),
    }
}

/// The lines of `c` in the Star Wars font: its glyph for `c` in upper case,
/// or the font's placeholder for characters it does not draw.
pub open spec fn starwars_table(c: char) -> Seq<&'static str> {
    match ascii_upper(c) {
        'A' => seq![
            ".     ", "|     ", "|___  ", "|   | ", "|   | ", "      ",
        ],
        'B' => seq![
            "____  ", "|   \\ ", "|___/ ", "|   \\ ", "|___/ ", "      ",
        ],
        'C' => seq![
            " ____ ", "/    |", "|     ", "|     ", "\\____|", "      ",
        ],
        'D' => seq![
            "____  ", "|   \\ ", "|    |", "|   / ", "|___/ ", "      ",
        ],
        'E' => seq![
            "_____ ", "|     ", "|__   ", "|     ", "|____ ", "      ",
        ],
        'F' => seq![
            "_____ ", "|     ", "|__   ", "|     ", "|     ", "      ",
        ],
        'G' => seq![
            " ____ ", "/    |", "| __ |", "|   ||", "\\___/|", "      ",
        ],
        'H' => seq![
            "|   | ", "|   | ", "|___| ", "|   | ", "|   | ", "      ",
        ],
        'I' => seq![
            "_____ ", "  |   ", "  |   ", "  |   ", "__|__ ", "      ",
        ],
        'J' => seq![
            "  ___ ", "    | ", "    | ", "|   | ", " \\__/ ", "      ",
        ],
        'K' => seq![
            "|   / ", "|  /  ", "|-<   ", "|  \\  ", "|   \\ ", "      ",
        ],
        'L' => seq![
            "|     ", "|     ", "|     ", "|     ", "|____ ", "      ",
        ],
        'M' => seq![
            "|\\  /|", "| \\/ |", "|    |", "|    |", "|    |", "      ",
        ],
        'N' => seq![
            "|\\   |", "| \\  |", "|  \\ |", "|   \\|", "|    |", "      ",
        ],
        'O' => seq![
            " ____ ", "/    \\", "|    |", "|    |", "\\____/", "      ",
        ],
        'P' => seq![
            "____  ", "|   \\ ", "|___/ ", "|     ", "|     ", "      ",
        ],
        'Q' => seq![
            " ____ ", "/    \\", "|    |", "|  \\ |", "\\___\\|", "      ",
        ],
        'R' => seq![
            "____  ", "|   \\ ", "|___/ ", "|  \\  ", "|   \\ ", "      ",
        ],
        'S' => seq![
            " ____ ", "/    |", "\\___  ", "    \\ ", "|___/ ", "      ",
        ],
        'T' => seq![
            "_____ ", "  |   ", "  |   ", "  |   ", "  |   ", "      ",
        ],
        'U' => seq![
            "|   | ", "|   | ", "|   | ", "|   | ", " \\__/ ", "      ",
        ],
        'V' => seq!["|   |", "|   |", " \\ / ", " \\ / ", "  V  ", "     "],
        'W' => seq![
            "|    |", "|    |", "|    |", "| /\\ |", "|/  \\|", "      ",
        ],
        'X' => seq![
            "\\   /", " \\ / ", "  X  ", " / \\ ", "/   \\", "     ",
        ],
        'Y' => seq!["\\   /", " \\ / ", "  |  ", "  |  ", "  |  ", "     "],
        'Z' => seq!["_____", "   / ", "  /  ", " /   ", "/____|", "     "],
        ' ' => seq!["    ", "    ", "    ", "    ", "    ", "    "],
        _ => seq!["    ", " ?? ", "    ", " ?? ", "    ", "    "],
    }
}

/// The glyph of `ch` in the Star Wars font (a placeholder for characters it
/// does not draw).
fn starwars_glyph(ch: char) -> (r: Option<Vec<&'static str>>)
    ensures
        r is Some && r->0@ == starwars_table(ch),
        r->0@.len() == 6,
{
    match to_ascii_upper(ch) {
        'A' => Some(vec![
            ".     ", "|     ", "|___  ", "|   | ", "|   | ", "      ",
        ]),
        'B' => Some(vec![
            "____  ", "|   \\ ", "|___/ ", "|   \\ ", "|___/ ", "      ",
        ]),
        'C' => Some(vec![
            " ____ ", "/    |", "|     ", "|     ", "\\____|", "      ",
        ]),
        'D' => Some(vec![
            "____  ", "|   \\ ", "|    |", "|   / ", "|___/ ", "      ",
        ]),
        'E' => Some(vec![
            "_____ ", "|     ", "|__   ", "|     ", "|____ ", "      ",
        ]),
        'F' => Some(vec![
            "_____ ", "|     ", "|__   ", "|     ", "|     ", "      ",
        ]),
        'G' => Some(vec![
            " ____ ", "/    |", "| __ |", "|   ||", "\\___/|", "      ",
        ]),
        'H' => Some(vec![
            "|   | ", "|   | ", "|___| ", "|   | ", "|   | ", "      ",
        ]),
        'I' => Some(vec![
            "_____ ", "  |   ", "  |   ", "  |   ", "__|__ ", "      ",
        ]),
        'J' => Some(vec![
            "  ___ ", "    | ", "    | ", "|   | ", " \\__/ ", "      ",
        ]),
        'K' => Some(vec![
            "|   / ", "|  /  ", "|-<   ", "|  \\  ", "|   \\ ", "      ",
        ]),
        'L' => Some(vec![
            "|     ", "|     ", "|     ", "|     ", "|____ ", "      ",
        ]),
        'M' => Some(vec![
            "|\\  /|", "| \\/ |", "|    |", "|    |", "|    |", "      ",
        ]),
        'N' => Some(vec![
            "|\\   |", "| \\  |", "|  \\ |", "|   \\|", "|    |", "      ",
        ]),
        'O' => Some(vec![
            " ____ ", "/    \\", "|    |", "|    |", "\\____/", "      ",
        ]),
        'P' => Some(vec![
            "____  ", "|   \\ ", "|___/ ", "|     ", "|     ", "      ",
        ]),
        'Q' => Some(vec![
            " ____ ", "/    \\", "|    |", "|  \\ |", "\\___\\|", "      ",
        ]),
        'R' => Some(vec![
            "____  ", "|   \\ ", "|___/ ", "|  \\  ", "|   \\ ", "      ",
        ]),
        'S' => Some(vec![
            " ____ ", "/    |", "\\___  ", "    \\ ", "|___/ ", "      ",
        ]),
        'T' => Some(vec![
            "_____ ", "  |   ", "  |   ", "  |   ", "  |   ", "      ",
        ]),
        'U' => Some(vec![
            "|   | ", "|   | ", "|   | ", "|   | ", " \\__/ ", "      ",
        ]),
        'V' => Some(vec!["|   |", "|   |", " \\ / ", " \\ / ", "  V  ", "     "]),
        'W' => Some(vec![
            "|    |", "|    |", "|    |", "| /\\ |", "|/  \\|", "      ",
        ]),
        'X' => Some(vec![
            "\\   /", " \\ / ", "  X  ", " / \\ ", "/   \\", "     ",
        ]),
        'Y' => Some(vec!["\\   /", " \\ / ", "  |  ", "  |  ", "  |  ", "     "]),
        'Z' => Some(vec!["_____", "   / ", "  /  ", " /   ", "/____|", "     "]),
        ' ' => Some(vec!["    ", "    ", "    ", "    ", "    ", "    "]),
        _ => Some(vec!["    ", " ?? ", "    ", " ?? ", "    ", "    "]),
    }
}

/// The lines of `c` in the Cyberlarge font: its glyph for `c` in upper case,
/// or the font's placeholder for characters it does not draw.
pub open spec fn cyberlarge_table(c: char) -> Seq<&'static str> {
    match ascii_upper(c) {
        'A' => seq![
            "   /\\   ",
            "  /  \\  ",
            " / /\\ \\ ",
            "/ /__\\ \\",
            "\\        \\",
            "         ",
        ],
        'B' => seq![
            "______  ",
            "| ___ \\ ",
            "| |_/ / ",
            "| ___ \\ ",
            "| |_/ / ",
            "|_____/ ",
        ],
        'C' => seq![
            "  _____ ",
            " / ___ \\",
            "| |   |_|",
            "| |      ",
            "| |___   ",
            " \\_____\\ ",
        ],
        'D' => seq![
            "______  ",
            "|  _  \\ ",
            "| | | | ",
            "| |_| | ",
            "|_____/ ",
            "        ",
        ],
        'E' => seq![
            "_______ ", "|  ___| ", "| |___  ", "|  ___| ", "| |___  ", "|_____| ",
        ],
        'F' => seq![
            "_______ ", "|  ___| ", "| |___  ", "|  ___| ", "| |     ", "|_|     ",
        ],
        'G' => seq![
            "  _____ ",
            " / ___ \\",
            "| |   |_|",
            "| |  __ ",
            "| |__|  |",
            " \\______/",
        ],
        'H' => seq![
            "_     _ ",
            "| |   | |",
            "| |___| |",
            "|  ___  |",
            "| |   | |",
            "|_|   |_|",
        ],
        'I' => seq![
            "_____ ", "|_   _|", "  | |  ", "  | |  ", " _| |_ ", "|_____|",
        ],
        'J' => seq![
            "    _ ", "   | |", "   | |", "_  | |", "| |_| |", " \\___/ ",
        ],
        'K' => seq![
            "_   __",
            "| | / /",
            "| |/ / ",
            "|   <  ",
            "| |\\ \\ ",
            "|_| \\_\\",
        ],
        'L' => seq![
            "_      ", "| |     ", "| |     ", "| |     ", "| |___  ", "|______/",
        ],
        'M' => seq![
            "__    __",
            "|\\ \\  / /|",
            "| \\ \\/ / |",
            "|  \\  /  |",
            "|   \\/   |",
            "|        |",
        ],
        'N' => seq![
            "_     _ ",
            "| \\   | |",
            "|  \\  | |",
            "|   \\ | |",
            "|    \\| |",
            "|     \\_|",
        ],
        'O' => seq![
            "  ____  ",
            " / __ \\ ",
            "| |  | |",
            "| |  | |",
            "| |__| |",
            " \\____/ ",
        ],
        'P' => seq![
            "______  ",
            "| ___ \\ ",
            "| |_/ / ",
            "|  __/  ",
            "| |     ",
            "|_|     ",
        ],
        'Q' => seq![
            "  ____  ",
            " / __ \\ ",
            "| |  | |",
            "| |  | |",
            "| |_\\| |",
            " \\___\\_\\",
        ],
        'R' => seq![
            "______  ",
            "| ___ \\ ",
            "| |_/ / ",
            "|    /  ",
            "| |\\ \\  ",
            "|_| \\_\\ ",
        ],
        'S' => seq![
            "  ____ ",
            " / ___|",
            "| \\___ ",
            " \\___  \\",
            " ___/ /",
            "|____/ ",
        ],
        'T' => seq![
            "_______ ",
            "|__   __|",
            "   | |   ",
            "   | |   ",
            "   | |   ",
            "   |_|   ",
        ],
        'U' => seq![
            "_     _ ",
            "| |   | |",
            "| |   | |",
            "| |   | |",
            "| |___| |",
            " \\_____/ ",
        ],
        'V' => seq![
            "_     _ ",
            "| |   | |",
            "| |   | |",
            " \\ \\ / / ",
            "  \\ V /  ",
            "   \\_/   ",
        ],
        'W' => seq![
            "_       _ ",
            "| |     | |",
            "| |  _  | |",
            "| | / \\ | |",
            "| |/ / \\| |",
            "|___/ \\___|",
        ],
        'X' => seq![
            "_     _ ",
            " \\ \\ / / ",
            "  \\ V /  ",
            "   > <   ",
            "  / . \\  ",
            " /_/ \\_\\ ",
        ],
        'Y' => seq![
            "_     _ ",
            " \\ \\ / / ",
            "  \\ V /  ",
            "   | |   ",
            "   | |   ",
            "   |_|   ",
        ],
        'Z' => seq![
            "_______ ",
            "|__   __|",
            "   / /   ",
            "  / /    ",
            " / /___  ",
            "|_______|",
        ],
        ' ' => seq!["    ", "    ", "    ", "    ", "    ", "    "],
        _ => seq!["    ", " ?? ", "    ", " ?? ", "    ", "    "],
    }
}

/// The glyph of `ch` in the Cyberlarge font (a placeholder for characters it
/// does not draw).
fn cyberlarge_glyph(ch: char) -> (r: Option<Vec<&'static str>>)
    ensures
        r is Some && r->0@ == cyberlarge_table(ch),
        r->0@.len() == 6,
{
    match to_ascii_upper(ch) {
        'A' => Some(vec![
            "   /\\   ",
            "  /  \\  ",
            " / /\\ \\ ",
            "/ /__\\ \\",
            "\\        \\",
            "         ",
        ]),
        'B' => Some(vec![
            "______  ",
            "| ___ \\ ",
            "| |_/ / ",
            "| ___ \\ ",
            "| |_/ / ",
            "|_____/ ",
        ]),
        'C' => Some(vec![
            "  _____ ",
            " / ___ \\",
            "| |   |_|",
            "| |      ",
            "| |___   ",
            " \\_____\\ ",
        ]),
        'D' => Some(vec![
            "______  ",
            "|  _  \\ ",
            "| | | | ",
            "| |_| | ",
            "|_____/ ",
            "        ",
        ]),
        'E' => Some(vec![
            "_______ ", "|  ___| ", "| |___  ", "|  ___| ", "| |___  ", "|_____| ",
        ]),
        'F' => Some(vec![
            "_______ ", "|  ___| ", "| |___  ", "|  ___| ", "| |     ", "|_|     ",
        ]),
        'G' => Some(vec![
            "  _____ ",
            " / ___ \\",
            "| |   |_|",
            "| |  __ ",
            "| |__|  |",
            " \\______/",
        ]),
        'H' => Some(vec![
            "_     _ ",
            "| |   | |",
            "| |___| |",
            "|  ___  |",
            "| |   | |",
            "|_|   |_|",
        ]),
        'I' => Some(vec![
            "_____ ", "|_   _|", "  | |  ", "  | |  ", " _| |_ ", "|_____|",
        ]),
        'J' => Some(vec![
            "    _ ", "   | |", "   | |", "_  | |", "| |_| |", " \\___/ ",
        ]),
        'K' => Some(vec![
            "_   __",
            "| | / /",
            "| |/ / ",
            "|   <  ",
            "| |\\ \\ ",
            "|_| \\_\\",
        ]),
        'L' => Some(vec![
            "_      ", "| |     ", "| |     ", "| |     ", "| |___  ", "|______/",
        ]),
        'M' => Some(vec![
            "__    __",
            "|\\ \\  / /|",
            "| \\ \\/ / |",
            "|  \\  /  |",
            "|   \\/   |",
            "|        |",
        ]),
        'N' => Some(vec![
            "_     _ ",
            "| \\   | |",
            "|  \\  | |",
            "|   \\ | |",
            "|    \\| |",
            "|     \\_|",
        ]),
        'O' => Some(vec![
            "  ____  ",
            " / __ \\ ",
            "| |  | |",
            "| |  | |",
            "| |__| |",
            " \\____/ ",
        ]),
        'P' => Some(vec![
            "______  ",
            "| ___ \\ ",
            "| |_/ / ",
            "|  __/  ",
            "| |     ",
            "|_|     ",
        ]),
        'Q' => Some(vec![
            "  ____  ",
            " / __ \\ ",
            "| |  | |",
            "| |  | |",
            "| |_\\| |",
            " \\___\\_\\",
        ]),
        'R' => Some(vec![
            "______  ",
            "| ___ \\ ",
            "| |_/ / ",
            "|    /  ",
            "| |\\ \\  ",
            "|_| \\_\\ ",
        ]),
        'S' => Some(vec![
            "  ____ ",
            " / ___|",
            "| \\___ ",
            " \\___  \\",
            " ___/ /",
            "|____/ ",
        ]),
        'T' => Some(vec![
            "_______ ",
            "|__   __|",
            "   | |   ",
            "   | |   ",
            "   | |   ",
            "   |_|   ",
        ]),
        'U' => Some(vec![
            "_     _ ",
            "| |   | |",
            "| |   | |",
            "| |   | |",
            "| |___| |",
            " \\_____/ ",
        ]),
        'V' => Some(vec![
            "_     _ ",
            "| |   | |",
            "| |   | |",
            " \\ \\ / / ",
            "  \\ V /  ",
            "   \\_/   ",
        ]),
        'W' => Some(vec![
            "_       _ ",
            "| |     | |",
            "| |  _  | |",
            "| | / \\ | |",
            "| |/ / \\| |",
            "|___/ \\___|",
        ]),
        'X' => Some(vec![
            "_     _ ",
            " \\ \\ / / ",
            "  \\ V /  ",
            "   > <   ",
            "  / . \\  ",
            " /_/ \\_\\ ",
        ]),
        'Y' => Some(vec![
            "_     _ ",
            " \\ \\ / / ",
            "  \\ V /  ",
            "   | |   ",
            "   | |   ",
            "   |_|   ",
        ]),
        'Z' => Some(vec![
            "_______ ",
            "|__   __|",
            "   / /   ",
            "  / /    ",
            " / /___  ",
            "|_______|",
        ]),
        ' ' => Some(vec!["    ", "    ", "    ", "    ", "    ", "    "]),
        _ => Some(vec!["    ", " ?? ", "    ", " ?? ", "    ", "    "]),
    }
}

/// The lines of `c` in the Alligator font: its glyph for `c` in upper case,
/// or the font's placeholder for characters it does not draw.
pub open spec fn alligator_table(c: char) -> Seq<&'static str> {
    match ascii_upper(c) {
        'A' => seq!["      ", " /\\   ", "/--\\  ", "/  \\/\\", "      "],
        'B' => seq!["      ", "|\\  /|", "|/\\/\\|", "|\\  /|", "      "],
        'C' => seq![
            "      ",
            "/\\/\\/\\",
            "\\/    ",
            "/\\/\\/\\",
            "      ",
        ],
        'D' => seq!["      ", "|\\  /|", "| \\/ |", "|/\\/\\|", "      "],
        'E' => seq!["      ", "|/\\/\\|", "|/\\/  ", "|/\\/\\|", "      "],
        'F' => seq!["      ", "|/\\/\\|", "|/\\/  ", "|     ", "      "],
        'G' => seq!["      ", "/\\/\\/|", "\\/  \\/", "/\\/\\/|", "      "],
        'H' => seq!["      ", "|\\/\\/|", "|    |", "|/\\/\\|", "      "],
        'I' => seq!["     ", "/\\/\\ ", " /\\  ", "/\\/\\ ", "     "],
        'J' => seq!["      ", " /\\/\\|", "    /|", "/\\/\\||", "      "],
        'K' => seq!["     ", "|\\/\\ ", "|/\\  ", "|\\/\\ ", "     "],
        'L' => seq!["      ", "|     ", "|     ", "|/\\/\\|", "      "],
        'M' => seq![
            "       ",
            "|\\ /\\ /|",
            "| V  V |",
            "|      |",
            "       ",
        ],
        'N' => seq!["      ", "|\\  /|", "| \\/ |", "|    |", "      "],
        'O' => seq![
            "      ",
            "/\\/\\/\\",
            "\\/  \\/",
            "/\\/\\/\\",
            "      ",
        ],
        'P' => seq!["      ", "|/\\/\\|", "|/\\/  ", "|     ", "      "],
        'Q' => seq![
            "      ",
            "/\\/\\/\\",
            "\\/  \\/",
            "/\\/\\\\|",
            "      ",
        ],
        'R' => seq!["      ", "|/\\/\\|", "|/\\/  ", "|\\/\\ ", "      "],
        'S' => seq!["      ", " /\\/\\|", "|/\\/  ", "|/\\/\\ ", "      "],
        'T' => seq!["      ", "|/\\/\\|", "  /\\  ", "  \\/  ", "      "],
        'U' => seq!["      ", "|\\/\\/|", "|    |", " \\/\\/ ", "      "],
        'V' => seq!["     ", "|\\/\\|", " \\\\// ", "  \\/  ", "     "],
        'W' => seq![
            "       ",
            "|\\/\\/\\|",
            "| /\\/\\ |",
            " \\/  \\/ ",
            "       ",
        ],
        'X' => seq!["     ", "\\\\/\\/", " /\\/ ", "\\/\\/\\", "     "],
        'Y' => seq!["     ", "\\\\/\\/", " /\\/ ", "  /\\  ", "     "],
        'Z' => seq!["      ", "/\\/\\/|", "  /\\/ ", "|/\\/\\ ", "      "],
        ' ' => seq!["   ", "   ", "   ", "   ", "   "],
        _ => seq!["  ", "??", "??", "??", "  "],
    }
}

/// The glyph of `ch` in the Alligator font (a placeholder for characters it
/// does not draw).
fn alligator_glyph(ch: char) -> (r: Option<Vec<&'static str>>)
    ensures
        r is Some && r->0@ == alligator_table(ch),
        r->0@.len() == 5,
{
    match to_ascii_upper(ch) {
        'A' => Some(vec!["      ", " /\\   ", "/--\\  ", "/  \\/\\", "      "]),
        'B' => Some(vec!["      ", "|\\  /|", "|/\\/\\|", "|\\  /|", "      "]),
        'C' => Some(vec![
            "      ",
            "/\\/\\/\\",
            "\\/    ",
            "/\\/\\/\\",
            "      ",
        ]),
        'D' => Some(vec!["      ", "|\\  /|", "| \\/ |", "|/\\/\\|", "      "]),
        'E' => Some(vec!["      ", "|/\\/\\|", "|/\\/  ", "|/\\/\\|", "      "]),
        'F' => Some(vec!["      ", "|/\\/\\|", "|/\\/  ", "|     ", "      "]),
        'G' => Some(vec!["      ", "/\\/\\/|", "\\/  \\/", "/\\/\\/|", "      "]),
        'H' => Some(vec!["      ", "|\\/\\/|", "|    |", "|/\\/\\|", "      "]),
        'I' => Some(vec!["     ", "/\\/\\ ", " /\\  ", "/\\/\\ ", "     "]),
        'J' => Some(vec!["      ", " /\\/\\|", "    /|", "/\\/\\||", "      "]),
        'K' => Some(vec!["     ", "|\\/\\ ", "|/\\  ", "|\\/\\ ", "     "]),
        'L' => Some(vec!["      ", "|     ", "|     ", "|/\\/\\|", "      "]),
        'M' => Some(vec![
            "       ",
            "|\\ /\\ /|",
            "| V  V |",
            "|      |",
            "       ",
        ]),
        'N' => Some(vec!["      ", "|\\  /|", "| \\/ |", "|    |", "      "]),
        'O' => Some(vec![
            "      ",
            "/\\/\\/\\",
            "\\/  \\/",
            "/\\/\\/\\",
            "      ",
        ]),
        'P' => Some(vec!["      ", "|/\\/\\|", "|/\\/  ", "|     ", "      "]),
        'Q' => Some(vec![
            "      ",
            "/\\/\\/\\",
            "\\/  \\/",
            "/\\/\\\\|",
            "      ",
        ]),
        'R' => Some(vec!["      ", "|/\\/\\|", "|/\\/  ", "|\\/\\ ", "      "]),
        'S' => Some(vec!["      ", " /\\/\\|", "|/\\/  ", "|/\\/\\ ", "      "]),
        'T' => Some(vec!["      ", "|/\\/\\|", "  /\\  ", "  \\/  ", "      "]),
        'U' => Some(vec!["      ", "|\\/\\/|", "|    |", " \\/\\/ ", "      "]),
        'V' => Some(vec!["     ", "|\\/\\|", " \\\\// ", "  \\/  ", "     "]),
        'W' => Some(vec![
            "       ",
            "|\\/\\/\\|",
            "| /\\/\\ |",
            " \\/  \\/ ",
            "       ",
        ]),
        'X' => Some(vec!["     ", "\\\\/\\/", " /\\/ ", "\\/\\/\\", "     "]),
        'Y' => Some(vec!["     ", "\\\\/\\/", " /\\/ ", "  /\\  ", "     "]),
        'Z' => Some(vec!["      ", "/\\/\\/|", "  /\\/ ", "|/\\/\\ ", "      "]),
        ' ' => Some(vec!["   ", "   ", "   ", "   ", "   "]),
        _ => Some(vec!["  ", "??", "??", "??", "  "]),
    }
}

/// The lines of `c` in the Roman font: its glyph for `c` in upper case,
/// or the font's placeholder for characters it does not draw.
pub open spec fn roman_table(c: char) -> Seq<&'static str> {
    match ascii_upper(c) {
        'A' => seq![
            ".oOOOo.  ",
            ".O    o  ",
            "o      O ",
            "O.    .O ",
            " oOooOoOo",
            "       O ",
        ],
        'B' => seq![
            "OOOoOoo. ",
            "o     `O ",
            "O      o ",
            "o     .O ",
            "OOooOoo' ",
            "         ",
        ],
        'C' => seq![
            "  .oOOOo. ",
            " .O    o. ",
            " o        ",
            " o        ",
            " `OoooooO'",
            "          ",
        ],
        'D' => seq![
            "OOOoOoo. ",
            "o     `O ",
            "O      o ",
            "o     .O ",
            "OOooOoo' ",
            "         ",
        ],
        'E' => seq![
            "OOooOooO", "o       ", "O       ", "o       ", "OOooOooO", "        ",
        ],
        'F' => seq![
            "OOooOooO", "o       ", "O       ", "o       ", "O       ", "        ",
        ],
        'G' => seq![
            "  .oOOOo. ",
            " .O    o  ",
            " o      O ",
            " O.    .O ",
            " `oOooOoo ",
            "        O ",
        ],
        'H' => seq![
            "o      O", "O      o", "oOooOOoo", "O      O", "o      o", "        ",
        ],
        'I' => seq![
            "oOoOOoOo", "   o    ", "   O    ", "   o    ", "oOoOOoOo", "        ",
        ],
        'J' => seq![
            "      O", "      o", "      O", "o    .O", "`oooO' ", "       ",
        ],
        'K' => seq![
            "o   .O ", "O  .o  ", "oOo    ", "O  `o  ", "o   .O ", "       ",
        ],
        'L' => seq![
            "o      ", "O      ", "o      ", "O      ", "OooOOoo", "       ",
        ],
        'M' => seq![
            "O     o ", "Oo   oO ", "O O O o ", "o  `o  O", "O     O ", "        ",
        ],
        'N' => seq![
            "o\\    o ",
            "O `o  O ",
            "o  `O o ",
            "O   `oO ",
            "O     o ",
            "        ",
        ],
        'O' => seq![
            "  .oOOOo. ",
            " .O    Oo ",
            " o      O ",
            " O      o ",
            " `OoooOO' ",
            "          ",
        ],
        'P' => seq![
            "OOOoOoo.", "O     `o", "o     .O", "OOooOO' ", "o       ", "        ",
        ],
        'Q' => seq![
            "  .oOOOo.  ",
            " .O    oO  ",
            " o      O  ",
            " O    oO' O",
            " `OoooOO  o",
            "           ",
        ],
        'R' => seq![
            "OOOoOoo. ",
            "O     `O ",
            "o     .O ",
            "OOooOO'  ",
            "o    `o  ",
            "         ",
        ],
        'S' => seq![
            "  .oOOOo.",
            " .O    o ",
            " `o      ",
            " .oOoO'  ",
            "o     .o ",
            "         ",
        ],
        'T' => seq![
            "oOoOOoOOo",
            "    o    ",
            "    O    ",
            "    o    ",
            "    O    ",
            "         ",
        ],
        'U' => seq![
            "o      O", "O      o", "o      O", "O      o", " oOooOo ", "        ",
        ],
        'V' => seq![
            "O      o", "o      O", " O    o ", "  o  O  ", "   Oo   ", "        ",
        ],
        'W' => seq![
            "O          o",
            "o          O",
            "O   .Oo.   o",
            " o.O'  'O.o ",
            "  O'    'O  ",
            "            ",
        ],
        'X' => seq![
            "o     O", " O   o ", "  oOo  ", " O   o ", "o     O", "       ",
        ],
        'Y' => seq![
            "o     O", " O   o ", "  ooo  ", "   O   ", "   o   ", "       ",
        ],
        'Z' => seq![
            "OooOOoo", "     o ", "   .O  ", "  oOo  ", "OOOooOO", "       ",
        ],
        ' ' => seq!["    ", "    ", "    ", "    ", "    ", "    "],
        _ => seq!["    ", " ?? ", "    ", " ?? ", "    ", "    "],
    }
}

/// The glyph of `ch` in the Roman font (a placeholder for characters it
/// does not draw).
fn roman_glyph(ch: char) -> (r: Option<Vec<&'static str>>)
    ensures
        r is Some && r->0@ == roman_table(ch),
        r->0@.len() == 6,
{
    match to_ascii_upper(ch) {
        'A' => Some(vec![
            ".oOOOo.  ",
            ".O    o  ",
            "o      O ",
            "O.    .O ",
            " oOooOoOo",
            "       O ",
        ]),
        'B' => Some(vec![
            "OOOoOoo. ",
            "o     `O ",
            "O      o ",
            "o     .O ",
            "OOooOoo' ",
            "         ",
        ]),
        'C' => Some(vec![
            "  .oOOOo. ",
            " .O    o. ",
            " o        ",
            " o        ",
            " `OoooooO'",
            "          ",
        ]),
        'D' => Some(vec![
            "OOOoOoo. ",
            "o     `O ",
            "O      o ",
            "o     .O ",
            "OOooOoo' ",
            "         ",
        ]),
        'E' => Some(vec![
            "OOooOooO", "o       ", "O       ", "o       ", "OOooOooO", "        ",
        ]),
        'F' => Some(vec![
            "OOooOooO", "o       ", "O       ", "o       ", "O       ", "        ",
        ]),
        'G' => Some(vec![
            "  .oOOOo. ",
            " .O    o  ",
            " o      O ",
            " O.    .O ",
            " `oOooOoo ",
            "        O ",
        ]),
        'H' => Some(vec![
            "o      O", "O      o", "oOooOOoo", "O      O", "o      o", "        ",
        ]),
        'I' => Some(vec![
            "oOoOOoOo", "   o    ", "   O    ", "   o    ", "oOoOOoOo", "        ",
        ]),
        'J' => Some(vec![
            "      O", "      o", "      O", "o    .O", "`oooO' ", "       ",
        ]),
        'K' => Some(vec![
            "o   .O ", "O  .o  ", "oOo    ", "O  `o  ", "o   .O ", "       ",
        ]),
        'L' => Some(vec![
            "o      ", "O      ", "o      ", "O      ", "OooOOoo", "       ",
        ]),
        'M' => Some(vec![
            "O     o ", "Oo   oO ", "O O O o ", "o  `o  O", "O     O ", "        ",
        ]),
        'N' => Some(vec![
            "o\\    o ",
            "O `o  O ",
            "o  `O o ",
            "O   `oO ",
            "O     o ",
            "        ",
        ]),
        'O' => Some(vec![
            "  .oOOOo. ",
            " .O    Oo ",
            " o      O ",
            " O      o ",
            " `OoooOO' ",
            "          ",
        ]),
        'P' => Some(vec![
            "OOOoOoo.", "O     `o", "o     .O", "OOooOO' ", "o       ", "        ",
        ]),
        'Q' => Some(vec![
            "  .oOOOo.  ",
            " .O    oO  ",
            " o      O  ",
            " O    oO' O",
            " `OoooOO  o",
            "           ",
        ]),
        'R' => Some(vec![
            "OOOoOoo. ",
            "O     `O ",
            "o     .O ",
            "OOooOO'  ",
            "o    `o  ",
            "         ",
        ]),
        'S' => Some(vec![
            "  .oOOOo.",
            " .O    o ",
            " `o      ",
            " .oOoO'  ",
            "o     .o ",
            "         ",
        ]),
        'T' => Some(vec![
            "oOoOOoOOo",
            "    o    ",
            "    O    ",
            "    o    ",
            "    O    ",
            "         ",
        ]),
        'U' => Some(vec![
            "o      O", "O      o", "o      O", "O      o", " oOooOo ", "        ",
        ]),
        'V' => Some(vec![
            "O      o", "o      O", " O    o ", "  o  O  ", "   Oo   ", "        ",
        ]),
        'W' => Some(vec![
            "O          o",
            "o          O",
            "O   .Oo.   o",
            " o.O'  'O.o ",
            "  O'    'O  ",
            "            ",
        ]),
        'X' => Some(vec![
            "o     O", " O   o ", "  oOo  ", " O   o ", "o     O", "       ",
        ]),
        'Y' => Some(vec![
            "o     O", " O   o ", "  ooo  ", "   O   ", "   o   ", "       ",
        ]),
        'Z' => Some(vec![
            "OooOOoo", "     o ", "   .O  ", "  oOo  ", "OOOooOO", "       ",
        ]),
        ' ' => Some(vec!["    ", "    ", "    ", "    ", "    ", "    "]),
        _ => Some(vec!["    ", " ?? ", "    ", " ?? ", "    ", "    "]),
    }
}

/// The lines of `c` in the Thick font: its glyph for `c` in upper case,
/// or the font's placeholder for characters it does not draw.
pub open spec fn thick_table(c: char) -> Seq<&'static str> {
    match ascii_upper(c) {
        'A' => seq![
            "   AA   ", "  AAAA  ", " AA  AA ", " AAAAAA ", "AA    AA",
        ],
        'B' => seq!["BBBBB  ", "BB   BB", "BBBBB  ", "BB   BB", "BBBBB  "],
        'C' => seq![" CCCCC ", "CC     ", "CC     ", "CC     ", " CCCCC "],
        'D' => seq!["DDDDD  ", "DD   DD", "DD   DD", "DD   DD", "DDDDD  "],
        'E' => seq!["EEEEEE", "EE    ", "EEEE  ", "EE    ", "EEEEEE"],
        'F' => seq!["FFFFFF", "FF    ", "FFFF  ", "FF    ", "FF    "],
        'G' => seq![" GGGGG ", "GG     ", "GG  GGG", "GG   GG", " GGGGG "],
        'H' => seq!["HH   HH", "HH   HH", "HHHHHHH", "HH   HH", "HH   HH"],
        'I' => seq!["IIIII", "  II ", "  II ", "  II ", "IIIII"],
        'J' => seq!["    JJ", "    JJ", "    JJ", "JJ  JJ", " JJJJ "],
        'K' => seq!["KK  KK", "KK KK ", "KKKK  ", "KK KK ", "KK  KK"],
        'L' => seq!["LL    ", "LL    ", "LL    ", "LL    ", "LLLLLL"],
        'M' => seq![
            "MM    MM", "MMM  MMM", "MM MM MM", "MM    MM", "MM    MM",
        ],
        'N' => seq!["NN   NN", "NNN  NN", "NN N NN", "NN  NNN", "NN   NN"],
        'O' => seq![" OOOOO ", "OO   OO", "OO   OO", "OO   OO", " OOOOO "],
        'P' => seq!["PPPPP ", "PP   PP", "PPPPP ", "PP    ", "PP    "],
        'Q' => seq![" QQQQQ ", "QQ   QQ", "QQ Q QQ", "QQ  QQ ", " QQQ QQ"],
        'R' => seq!["RRRRR ", "RR   RR", "RRRRR ", "RR RR ", "RR  RR"],
        'S' => seq![" SSSSS", "SS    ", " SSSS ", "    SS", "SSSSS "],
        'T' => seq!["TTTTTT", "  TT  ", "  TT  ", "  TT  ", "  TT  "],
        'U' => seq!["UU   UU", "UU   UU", "UU   UU", "UU   UU", " UUUUU "],
        'V' => seq!["VV   VV", "VV   VV", " VV VV ", " VV VV ", "  VVV  "],
        'W' => seq![
            "WW    WW", "WW    WW", "WW WW WW", "WWW  WWW", "WW    WW",
        ],
        'X' => seq!["XX   XX", " XX XX ", "  XXX  ", " XX XX ", "XX   XX"],
        'Y' => seq!["YY   YY", " YY YY ", "  YYY  ", "  YY   ", "  YY   "],
        'Z' => seq!["ZZZZZZ", "   ZZ ", "  ZZ  ", " ZZ   ", "ZZZZZZ"],
        ' ' => seq!["    ", "    ", "    ", "    ", "    "],
        _ => seq!["    ", " ?? ", "    ", " ?? ", "    "],
    }
}

/// The glyph of `ch` in the Thick font (a placeholder for characters it
/// does not draw).
fn thick_glyph(ch: char) -> (r: Option<Vec<&'static str>>)
    ensures
        r is Some && r->0@ == thick_table(ch),
        r->0@.len() == 5,
{
    match to_ascii_upper(ch) {
        'A' => Some(vec![
            "   AA   ", "  AAAA  ", " AA  AA ", " AAAAAA ", "AA    AA",
        ]),
        'B' => Some(vec!["BBBBB  ", "BB   BB", "BBBBB  ", "BB   BB", "BBBBB  "]),
        'C' => Some(vec![" CCCCC ", "CC     ", "CC     ", "CC     ", " CCCCC "]),
        'D' => Some(vec!["DDDDD  ", "DD   DD", "DD   DD", "DD   DD", "DDDDD  "]),
        'E' => Some(vec!["EEEEEE", "EE    ", "EEEE  ", "EE    ", "EEEEEE"]),
        'F' => Some(vec!["FFFFFF", "FF    ", "FFFF  ", "FF    ", "FF    "]),
        'G' => Some(vec![" GGGGG ", "GG     ", "GG  GGG", "GG   GG", " GGGGG "]),
        'H' => Some(vec!["HH   HH", "HH   HH", "HHHHHHH", "HH   HH", "HH   HH"]),
        'I' => Some(vec!["IIIII", "  II ", "  II ", "  II ", "IIIII"]),
        'J' => Some(vec!["    JJ", "    JJ", "    JJ", "JJ  JJ", " JJJJ "]),
        'K' => Some(vec!["KK  KK", "KK KK ", "KKKK  ", "KK KK ", "KK  KK"]),
        'L' => Some(vec!["LL    ", "LL    ", "LL    ", "LL    ", "LLLLLL"]),
        'M' => Some(vec![
            "MM    MM", "MMM  MMM", "MM MM MM", "MM    MM", "MM    MM",
        ]),
        'N' => Some(vec!["NN   NN", "NNN  NN", "NN N NN", "NN  NNN", "NN   NN"]),
        'O' => Some(vec![" OOOOO ", "OO   OO", "OO   OO", "OO   OO", " OOOOO "]),
        'P' => Some(vec!["PPPPP ", "PP   PP", "PPPPP ", "PP    ", "PP    "]),
        'Q' => Some(vec![" QQQQQ ", "QQ   QQ", "QQ Q QQ", "QQ  QQ ", " QQQ QQ"]),
        'R' => Some(vec!["RRRRR ", "RR   RR", "RRRRR ", "RR RR ", "RR  RR"]),
        'S' => Some(vec![" SSSSS", "SS    ", " SSSS ", "    SS", "SSSSS "]),
        'T' => Some(vec!["TTTTTT", "  TT  ", "  TT  ", "  TT  ", "  TT  "]),
        'U' => Some(vec!["UU   UU", "UU   UU", "UU   UU", "UU   UU", " UUUUU "]),
        'V' => Some(vec!["VV   VV", "VV   VV", " VV VV ", " VV VV ", "  VVV  "]),
        'W' => Some(vec![
            "WW    WW", "WW    WW", "WW WW WW", "WWW  WWW", "WW    WW",
        ]),
        'X' => Some(vec!["XX   XX", " XX XX ", "  XXX  ", " XX XX ", "XX   XX"]),
        'Y' => Some(vec!["YY   YY", " YY YY ", "  YYY  ", "  YY   ", "  YY   "]),
        'Z' => Some(vec!["ZZZZZZ", "   ZZ ", "  ZZ  ", " ZZ   ", "ZZZZZZ"]),
        ' ' => Some(vec!["    ", "    ", "    ", "    ", "    "]),
        _ => Some(vec!["    ", " ?? ", "    ", " ?? ", "    "]),
    }
}

/// The lines of `c` in the Ogre font: its glyph for `c` in upper case,
/// or the font's placeholder for characters it does not draw.
pub open spec fn ogre_table(c: char) -> Seq<&'static str> {
    match ascii_upper(c) {
        'A' => seq![
            "        _ ",
            "       / \\",
            "      / _ \\",
            "     / ___ \\",
            "    /_/   \\_\\",
            "            ",
            "            ",
        ],
        'B' => seq![
            "  ____  ",
            " | __ ) ",
            " |  _ \\ ",
            " | |_) |",
            " |____/ ",
            "        ",
            "        ",
        ],
        'C' => seq![
            "   ____ ",
            "  / ___|",
            " | |    ",
            " | |___ ",
            "  \\____|",
            "        ",
            "        ",
        ],
        'D' => seq![
            "  ____  ",
            " |  _ \\ ",
            " | | | |",
            " | |_| |",
            " |____/ ",
            "        ",
            "        ",
        ],
        'E' => seq![
            "  _____ ", " | ____|", " |  _|  ", " | |___ ", " |_____|", "        ", "        ",
        ],
        'F' => seq![
            "  _____ ", " |  ___|", " | |_   ", " |  _|  ", " |_|    ", "        ", "        ",
        ],
        'G' => seq![
            "   ____ ",
            "  / ___|",
            " | |  _ ",
            " | |_| |",
            "  \\____|",
            "        ",
            "        ",
        ],
        'H' => seq![
            "  _   _ ", " | | | |", " | |_| |", " |  _  |", " |_| |_|", "        ", "        ",
        ],
        'I' => seq![
            "  ___ ", " |_ _|", "  | | ", "  | | ", " |___|", "      ", "      ",
        ],
        'J' => seq![
            "      _ ",
            "     | |",
            "  _  | |",
            " | |_| |",
            "  \\___/ ",
            "        ",
            "        ",
        ],
        'K' => seq![
            "  _  __",
            " | |/ /",
            " | ' / ",
            " | . \\ ",
            " |_|\\_\\",
            "       ",
            "       ",
        ],
        'L' => seq![
            "  _     ", " | |    ", " | |    ", " | |___ ", " |_____|", "        ", "        ",
        ],
        'M' => seq![
            "  __  __ ",
            " |  \\/  |",
            " | |\\/| |",
            " | |  | |",
            " |_|  |_|",
            "         ",
            "         ",
        ],
        'N' => seq![
            "  _   _ ",
            " | \\ | |",
            " |  \\| |",
            " | |\\  |",
            " |_| \\_|",
            "        ",
            "        ",
        ],
        'O' => seq![
            "   ___  ",
            "  / _ \\ ",
            " | | | |",
            " | |_| |",
            "  \\___/ ",
            "        ",
            "        ",
        ],
        'P' => seq![
            "  ____  ",
            " |  _ \\ ",
            " | |_) |",
            " |  __/ ",
            " |_|    ",
            "        ",
            "        ",
        ],
        'Q' => seq![
            "   ___  ",
            "  / _ \\ ",
            " | | | |",
            " | |_| |",
            "  \\___\\_\\",
            "        ",
            "        ",
        ],
        'R' => seq![
            "  ____  ",
            " |  _ \\ ",
            " | |_) |",
            " |  _ < ",
            " |_| \\_\\",
            "        ",
            "        ",
        ],
        'S' => seq![
            "  ____  ",
            " / ___| ",
            " \\___ \\ ",
            "  ___) |",
            " |____/ ",
            "        ",
            "        ",
        ],
        'T' => seq![
            "  _____ ", " |_   _|", "   | |  ", "   | |  ", "   |_|  ", "        ", "        ",
        ],
        'U' => seq![
            "  _   _ ",
            " | | | |",
            " | | | |",
            " | |_| |",
            "  \\___/ ",
            "        ",
            "        ",
        ],
        'V' => seq![
            "__     __",
            "\\ \\   / /",
            " \\ \\ / / ",
            "  \\ V /  ",
            "   \\_/   ",
            "         ",
            "         ",
        ],
        'W' => seq![
            "__        __",
            "\\ \\      / /",
            " \\ \\ /\\ / / ",
            "  \\ V  V /  ",
            "   \\_/\\_/   ",
            "            ",
            "            ",
        ],
        'X' => seq![
            "__  __", "\\ \\/ /", " \\  / ", " /  \\ ", "/_/\\_\\", "      ", "      ",
        ],
        'Y' => seq![
            "__   __",
            "\\ \\ / /",
            " \\ V / ",
            "  | |  ",
            "  |_|  ",
            "       ",
            "       ",
        ],
        'Z' => seq![
            "  _____", " |__  /", "   / / ", "  / /_ ", " /____|", "       ", "       ",
        ],
        ' ' => seq![
            "     ", "     ", "     ", "     ", "     ", "     ", "     ",
        ],
        _ => seq![
            "     ", " ??? ", "     ", " ??? ", "     ", "     ", "     ",
        ],
    }
}

/// The glyph of `ch` in the Ogre font (a placeholder for characters it
/// does not draw).
fn ogre_glyph(ch: char) -> (r: Option<Vec<&'static str>>)
    ensures
        r is Some && r->0@ == ogre_table(ch),
        r->0@.len() == 7,
{
    match to_ascii_upper(ch) {
        'A' => Some(vec![
            "        _ ",
            "       / \\",
            "      / _ \\",
            "     / ___ \\",
            "    /_/   \\_\\",
            "            ",
            "            ",
        ]),
        'B' => Some(vec![
            "  ____  ",
            " | __ ) ",
            " |  _ \\ ",
            " | |_) |",
            " |____/ ",
            "        ",
            "        ",
        ]),
        'C' => Some(vec![
            "   ____ ",
            "  / ___|",
            " | |    ",
            " | |___ ",
            "  \\____|",
            "        ",
            "        ",
        ]),
        'D' => Some(vec![
            "  ____  ",
            " |  _ \\ ",
            " | | | |",
            " | |_| |",
            " |____/ ",
            "        ",
            "        ",
        ]),
        'E' => Some(vec![
            "  _____ ", " | ____|", " |  _|  ", " | |___ ", " |_____|", "        ", "        ",
        ]),
        'F' => Some(vec![
            "  _____ ", " |  ___|", " | |_   ", " |  _|  ", " |_|    ", "        ", "        ",
        ]),
        'G' => Some(vec![
            "   ____ ",
            "  / ___|",
            " | |  _ ",
            " | |_| |",
            "  \\____|",
            "        ",
            "        ",
        ]),
        'H' => Some(vec![
            "  _   _ ", " | | | |", " | |_| |", " |  _  |", " |_| |_|", "        ", "        ",
        ]),
        'I' => Some(vec![
            "  ___ ", " |_ _|", "  | | ", "  | | ", " |___|", "      ", "      ",
        ]),
        'J' => Some(vec![
            "      _ ",
            "     | |",
            "  _  | |",
            " | |_| |",
            "  \\___/ ",
            "        ",
            "        ",
        ]),
        'K' => Some(vec![
            "  _  __",
            " | |/ /",
            " | ' / ",
            " | . \\ ",
            " |_|\\_\\",
            "       ",
            "       ",
        ]),
        'L' => Some(vec![
            "  _     ", " | |    ", " | |    ", " | |___ ", " |_____|", "        ", "        ",
        ]),
        'M' => Some(vec![
            "  __  __ ",
            " |  \\/  |",
            " | |\\/| |",
            " | |  | |",
            " |_|  |_|",
            "         ",
            "         ",
        ]),
        'N' => Some(vec![
            "  _   _ ",
            " | \\ | |",
            " |  \\| |",
            " | |\\  |",
            " |_| \\_|",
            "        ",
            "        ",
        ]),
        'O' => Some(vec![
            "   ___  ",
            "  / _ \\ ",
            " | | | |",
            " | |_| |",
            "  \\___/ ",
            "        ",
            "        ",
        ]),
        'P' => Some(vec![
            "  ____  ",
            " |  _ \\ ",
            " | |_) |",
            " |  __/ ",
            " |_|    ",
            "        ",
            "        ",
        ]),
        'Q' => Some(vec![
            "   ___  ",
            "  / _ \\ ",
            " | | | |",
            " | |_| |",
            "  \\___\\_\\",
            "        ",
            "        ",
        ]),
        'R' => Some(vec![
            "  ____  ",
            " |  _ \\ ",
            " | |_) |",
            " |  _ < ",
            " |_| \\_\\",
            "        ",
            "        ",
        ]),
        'S' => Some(vec![
            "  ____  ",
            " / ___| ",
            " \\___ \\ ",
            "  ___) |",
            " |____/ ",
            "        ",
            "        ",
        ]),
        'T' => Some(vec![
            "  _____ ", " |_   _|", "   | |  ", "   | |  ", "   |_|  ", "        ", "        ",
        ]),
        'U' => Some(vec![
            "  _   _ ",
            " | | | |",
            " | | | |",
            " | |_| |",
            "  \\___/ ",
            "        ",
            "        ",
        ]),
        'V' => Some(vec![
            "__     __",
            "\\ \\   / /",
            " \\ \\ / / ",
            "  \\ V /  ",
            "   \\_/   ",
            "         ",
            "         ",
        ]),
        'W' => Some(vec![
            "__        __",
            "\\ \\      / /",
            " \\ \\ /\\ / / ",
            "  \\ V  V /  ",
            "   \\_/\\_/   ",
            "            ",
            "            ",
        ]),
        'X' => Some(vec![
            "__  __", "\\ \\/ /", " \\  / ", " /  \\ ", "/_/\\_\\", "      ", "      ",
        ]),
        'Y' => Some(vec![
            "__   __",
            "\\ \\ / /",
            " \\ V / ",
            "  | |  ",
            "  |_|  ",
            "       ",
            "       ",
        ]),
        'Z' => Some(vec![
            "  _____", " |__  /", "   / / ", "  / /_ ", " /____|", "       ", "       ",
        ]),
        ' ' => Some(vec![
            "     ", "     ", "     ", "     ", "     ", "     ", "     ",
        ]),
        _ => Some(vec![
            "     ", " ??? ", "     ", " ??? ", "     ", "     ", "     ",
        ]),
    }
}

/// The lines of `c` in the Ivrit font: its glyph for `c` in upper case,
/// or the font's placeholder for characters it does not draw.
pub open spec fn ivrit_table(c: char) -> Seq<&'static str> {
    match ascii_upper(c) {
        'A' => seq![
            "  ___   ",
            " /   \\  ",
            "|  _  | ",
            "| | | | ",
            "|_| |_| ",
        ],
        'B' => seq!["______ ", "|   __)", "|  |_  ", "|   __)", "|______)"],
        'C' => seq![" _____ ", "( ___ )", "|  ___|", "| |___ ", " \\___/ "],
        'D' => seq![
            "______ ", "(  __  )", "| |  | |", "| |__| |", "(______)",
        ],
        'E' => seq![
            "______ ", "|  ____|", "| |____ ", "|  ____|", "|______|",
        ],
        'F' => seq![
            "______ ", "|  ____|", "| |____ ", "|  ____|", "|_|     ",
        ],
        'G' => seq![
            " _____ ",
            "( ___ )",
            "|   __| ",
            "| |___  ",
            " \\____| ",
        ],
        'H' => seq![
            "_    _ ", "| |  | |", "|_|__|_|", "| |  | |", "|_|  |_|",
        ],
        'I' => seq!["______ ", " |  |  ", " |  |  ", " |  |  ", " |__|  "],
        'J' => seq!["  ____ ", "    |  ", "    |  ", " |  |  ", " |__|  "],
        'K' => seq![
            "_   __ ",
            "| | / /",
            "|  < < ",
            "| |\\  \\",
            "|_| \\_\\",
        ],
        'L' => seq![
            "_      ", "| |     ", "| |     ", "| |____ ", "|______|",
        ],
        'M' => seq![
            "__   __ ", "| |_| | ", "|  _  | ", "| | | | ", "|_| |_| ",
        ],
        'N' => seq![
            "__    _ ",
            "| \\  | |",
            "|  \\ | |",
            "| |\\ \\| |",
            "|_| \\__|",
        ],
        'O' => seq![" _____ ", "|  _  |", "| |_| |", "|  _  |", "|_| |_|"],
        'P' => seq![
            "______ ", "|   __ )", "|  |__) ", "|   ___/", "|__|    ",
        ],
        'Q' => seq![
            " _____ ",
            "|  _  |",
            "| |_| |",
            "|  _\\_\\",
            "|_|  \\_\\",
        ],
        'R' => seq![
            "______ ",
            "|   __ )",
            "|  |__) ",
            "|   __/ ",
            "|__|  \\ ",
        ],
        'S' => seq![
            " ____  ",
            "/  __\\ ",
            "\\___  \\",
            " ___/  /",
            "/_____/ ",
        ],
        'T' => seq!["______ ", "  |  | ", "  |  | ", "  |  | ", "  |__| "],
        'U' => seq![
            "_    _ ",
            "| |  | |",
            "| |  | |",
            "| |__| |",
            " \\____/ ",
        ],
        'V' => seq![
            "_    _ ",
            "| |  | |",
            " \\ \\/ / ",
            "  \\  /  ",
            "   \\/   ",
        ],
        'W' => seq![
            "__    __ ",
            "| |  | | ",
            "| |/\\| | ",
            "|  /\\  | ",
            "|_/  \\_| ",
        ],
        'X' => seq!["_   _ ", " \\ / ", "  X  ", " / \\ ", "|_| |_|"],
        'Y' => seq!["_   _ ", " \\ / ", "  |  ", "  |  ", "  |  "],
        'Z' => seq!["______ ", "    / /", "   / / ", "  / /  ", "/____|  "],
        ' ' => seq!["    ", "    ", "    ", "    ", "    "],
        _ => seq!["    ", " ?? ", "    ", " ?? ", "    "],
    }
}

/// The glyph of `ch` in the Ivrit font (a placeholder for characters it
/// does not draw).
fn ivrit_glyph(ch: char) -> (r: Option<Vec<&'static str>>)
    ensures
        r is Some && r->0@ == ivrit_table(ch),
        r->0@.len() == 5,
{
    match to_ascii_upper(ch) {
        'A' => Some(vec![
            "  ___   ",
            " /   \\  ",
            "|  _  | ",
            "| | | | ",
            "|_| |_| ",
        ]),
        'B' => Some(vec!["______ ", "|   __)", "|  |_  ", "|   __)", "|______)"]),
        'C' => Some(vec![" _____ ", "( ___ )", "|  ___|", "| |___ ", " \\___/ "]),
        'D' => Some(vec![
            "______ ", "(  __  )", "| |  | |", "| |__| |", "(______)",
        ]),
        'E' => Some(vec![
            "______ ", "|  ____|", "| |____ ", "|  ____|", "|______|",
        ]),
        'F' => Some(vec![
            "______ ", "|  ____|", "| |____ ", "|  ____|", "|_|     ",
        ]),
        'G' => Some(vec![
            " _____ ",
            "( ___ )",
            "|   __| ",
            "| |___  ",
            " \\____| ",
        ]),
        'H' => Some(vec![
            "_    _ ", "| |  | |", "|_|__|_|", "| |  | |", "|_|  |_|",
        ]),
        'I' => Some(vec!["______ ", " |  |  ", " |  |  ", " |  |  ", " |__|  "]),
        'J' => Some(vec!["  ____ ", "    |  ", "    |  ", " |  |  ", " |__|  "]),
        'K' => Some(vec![
            "_   __ ",
            "| | / /",
            "|  < < ",
            "| |\\  \\",
            "|_| \\_\\",
        ]),
        'L' => Some(vec![
            "_      ", "| |     ", "| |     ", "| |____ ", "|______|",
        ]),
        'M' => Some(vec![
            "__   __ ", "| |_| | ", "|  _  | ", "| | | | ", "|_| |_| ",
        ]),
        'N' => Some(vec![
            "__    _ ",
            "| \\  | |",
            "|  \\ | |",
            "| |\\ \\| |",
            "|_| \\__|",
        ]),
        'O' => Some(vec![" _____ ", "|  _  |", "| |_| |", "|  _  |", "|_| |_|"]),
        'P' => Some(vec![
            "______ ", "|   __ )", "|  |__) ", "|   ___/", "|__|    ",
        ]),
        'Q' => Some(vec![
            " _____ ",
            "|  _  |",
            "| |_| |",
            "|  _\\_\\",
            "|_|  \\_\\",
        ]),
        'R' => Some(vec![
            "______ ",
            "|   __ )",
            "|  |__) ",
            "|   __/ ",
            "|__|  \\ ",
        ]),
        'S' => Some(vec![
            " ____  ",
            "/  __\\ ",
            "\\___  \\",
            " ___/  /",
            "/_____/ ",
        ]),
        'T' => Some(vec!["______ ", "  |  | ", "  |  | ", "  |  | ", "  |__| "]),
        'U' => Some(vec![
            "_    _ ",
            "| |  | |",
            "| |  | |",
            "| |__| |",
            " \\____/ ",
        ]),
        'V' => Some(vec![
            "_    _ ",
            "| |  | |",
            " \\ \\/ / ",
            "  \\  /  ",
            "   \\/   ",
        ]),
        'W' => Some(vec![
            "__    __ ",
            "| |  | | ",
            "| |/\\| | ",
            "|  /\\  | ",
            "|_/  \\_| ",
        ]),
        'X' => Some(vec!["_   _ ", " \\ / ", "  X  ", " / \\ ", "|_| |_|"]),
        'Y' => Some(vec!["_   _ ", " \\ / ", "  |  ", "  |  ", "  |  "]),
        'Z' => Some(vec!["______ ", "    / /", "   / / ", "  / /  ", "/____|  "]),
        ' ' => Some(vec!["    ", "    ", "    ", "    ", "    "]),
        _ => Some(vec!["    ", " ?? ", "    ", " ?? ", "    "]),
    }
}

/// The lines of `c` in the Rectangles font: its glyph for `c` in upper case,
/// or the font's placeholder for characters it does not draw.
pub open spec fn rectangles_table(c: char) -> Seq<&'static str> {
    match ascii_upper(c) {
        'A' => seq!["┌───┐", "│┌─┐│", "│└─┘│", "│   │", "└   ┘"],
        'B' => seq!["┌───┐", "│┌─┘│", "│└─┐│", "│┌─┘│", "└───┘"],
        'C' => seq!["┌────", "│    ", "│    ", "│    ", "└────"],
        'D' => seq!["┌───┐", "│   │", "│   │", "│   │", "└───┘"],
        'E' => seq!["┌────", "│───┐", "│    ", "│───┘", "└────"],
        'F' => seq!["┌────", "│───┐", "│    ", "│    ", "└    "],
        'G' => seq!["┌────", "│    ", "│ ───", "│   │", "└───┘"],
        'H' => seq!["┌   ┐", "│   │", "│───│", "│   │", "└   ┘"],
        'I' => seq!["────┐", "  │ │", "  │ │", "  │ │", "────┘"],
        'J' => seq!["────┐", "   ││", "   ││", "┌──┘│", "└───┘"],
        'K' => seq!["┌  ┌┘", "│ ┌┘ ", "│─┤  ", "│ └┐ ", "└  └┐"],
        'L' => seq!["┌    ", "│    ", "│    ", "│    ", "└────"],
        'M' => seq!["┌─┐ ┌─┐", "│ └┬┘ │", "│     │", "│     │", "└     ┘"],
        'N' => seq!["┌─┐  ┐", "│ └┐ │", "│  └┐│", "│   └│", "└    ┘"],
        'O' => seq!["┌───┐", "│   │", "│   │", "│   │", "└───┘"],
        'P' => seq!["┌───┐", "│   │", "│───┘", "│    ", "└    "],
        'Q' => seq!["┌───┐", "│   │", "│   │", "│  ─┤", "└───┴"],
        'R' => seq!["┌───┐", "│   │", "│───┤", "│  └┐", "└   └"],
        'S' => seq!["┌────", "│    ", "└───┐", "    │", "────┘"],
        'T' => seq![
            "────┬────",
            "    │    ",
            "    │    ",
            "    │    ",
            "    └    ",
        ],
        'U' => seq!["┌   ┐", "│   │", "│   │", "│   │", "└───┘"],
        'V' => seq!["┐   ┌", "│   │", "│   │", "└┐ ┌┘", " └─┘ "],
        'W' => seq!["┐     ┌", "│     │", "│  │  │", "│ ─┼─ │", "└──┴──┘"],
        'X' => seq!["┐   ┌", "└┐ ┌┘", " └─┘ ", "┌┴─┴┐", "┘   └"],
        'Y' => seq!["┐   ┌", "└┐ ┌┘", " └─┘ ", "  │  ", "  └  "],
        'Z' => seq!["────┐", "  ┌─┘", " ┌┘  ", "┌┘   ", "└────"],
        ' ' => seq!["    ", "    ", "    ", "    ", "    "],
        _ => seq!["    ", " ?? ", "    ", " ?? ", "    "],
    }
}

/// The glyph of `ch` in the Rectangles font (a placeholder for characters it
/// does not draw).
fn rectangles_glyph(ch: char) -> (r: Option<Vec<&'static str>>)
    ensures
        r is Some && r->0@ == rectangles_table(ch),
        r->0@.len() == 5,
{
    match to_ascii_upper(ch) {
        'A' => Some(vec!["┌───┐", "│┌─┐│", "│└─┘│", "│   │", "└   ┘"]),
        'B' => Some(vec!["┌───┐", "│┌─┘│", "│└─┐│", "│┌─┘│", "└───┘"]),
        'C' => Some(vec!["┌────", "│    ", "│    ", "│    ", "└────"]),
        'D' => Some(vec!["┌───┐", "│   │", "│   │", "│   │", "└───┘"]),
        'E' => Some(vec!["┌────", "│───┐", "│    ", "│───┘", "└────"]),
        'F' => Some(vec!["┌────", "│───┐", "│    ", "│    ", "└    "]),
        'G' => Some(vec!["┌────", "│    ", "│ ───", "│   │", "└───┘"]),
        'H' => Some(vec!["┌   ┐", "│   │", "│───│", "│   │", "└   ┘"]),
        'I' => Some(vec!["────┐", "  │ │", "  │ │", "  │ │", "────┘"]),
        'J' => Some(vec!["────┐", "   ││", "   ││", "┌──┘│", "└───┘"]),
        'K' => Some(vec!["┌  ┌┘", "│ ┌┘ ", "│─┤  ", "│ └┐ ", "└  └┐"]),
        'L' => Some(vec!["┌    ", "│    ", "│    ", "│    ", "└────"]),
        'M' => Some(vec!["┌─┐ ┌─┐", "│ └┬┘ │", "│     │", "│     │", "└     ┘"]),
        'N' => Some(vec!["┌─┐  ┐", "│ └┐ │", "│  └┐│", "│   └│", "└    ┘"]),
        'O' => Some(vec!["┌───┐", "│   │", "│   │", "│   │", "└───┘"]),
        'P' => Some(vec!["┌───┐", "│   │", "│───┘", "│    ", "└    "]),
        'Q' => Some(vec!["┌───┐", "│   │", "│   │", "│  ─┤", "└───┴"]),
        'R' => Some(vec!["┌───┐", "│   │", "│───┤", "│  └┐", "└   └"]),
        'S' => Some(vec!["┌────", "│    ", "└───┐", "    │", "────┘"]),
        'T' => Some(vec![
            "────┬────",
            "    │    ",
            "    │    ",
            "    │    ",
            "    └    ",
        ]),
        'U' => Some(vec!["┌   ┐", "│   │", "│   │", "│   │", "└───┘"]),
        'V' => Some(vec!["┐   ┌", "│   │", "│   │", "└┐ ┌┘", " └─┘ "]),
        'W' => Some(vec!["┐     ┌", "│     │", "│  │  │", "│ ─┼─ │", "└──┴──┘"]),
        'X' => Some(vec!["┐   ┌", "└┐ ┌┘", " └─┘ ", "┌┴─┴┐", "┘   └"]),
        'Y' => Some(vec!["┐   ┌", "└┐ ┌┘", " └─┘ ", "  │  ", "  └  "]),
        'Z' => Some(vec!["────┐", "  ┌─┘", " ┌┘  ", "┌┘   ", "└────"]),
        ' ' => Some(vec!["    ", "    ", "    ", "    ", "    "]),
        _ => Some(vec!["    ", " ?? ", "    ", " ?? ", "    "]),
    }
}

/// The lines of `c` in `font` (its placeholder for characters it does not
/// draw).
pub open spec fn font_table(font: AsciiFont, c: char) -> Seq<&'static str> {
    match font {
        AsciiFont::Standard => standard_table(c),
        AsciiFont::Small => small_table(c),
        AsciiFont::Block => block_table(c),
        AsciiFont::Banner => banner_table(c),
        AsciiFont::Mini => mini_table(c),
        AsciiFont::Shadow => shadow_table(c),
        AsciiFont::Slant => slant_table(c),
        AsciiFont::Big => big_table(c),
        AsciiFont::Doom => doom_table(c),
        AsciiFont::Script => script_table(c),
        AsciiFont::Digital => digital_table(c),
        AsciiFont::ThreeD => font_3d_table(c),
        AsciiFont::Bubble => bubble_table(c),
        AsciiFont::Graffiti => graffiti_table(c),
        AsciiFont::Gothic => gothic_table(c),
        AsciiFont::Lean => lean_table(c),
        AsciiFont::Isometric => isometric_table(c),
        AsciiFont::StarWars => starwars_table(c),
        AsciiFont::Cyberlarge => cyberlarge_table(c),
        AsciiFont::Alligator => alligator_table(c),
        AsciiFont::Roman => roman_table(c),
        AsciiFont::Thick => thick_table(c),
        AsciiFont::Ogre => ogre_table(c),
        AsciiFont::Ivrit => ivrit_table(c),
        AsciiFont::Rectangles => rectangles_table(c),
    }
}

/// The lines of `c` in `font`, as character sequences.
pub open spec fn font_lines(font: AsciiFont, c: char) -> Seq<Seq<char>> {
    glyph_view(font_table(font, c))
}

/// Letters are drawn the same in either case: every font gives a letter
/// and its upper- and lower-case forms one glyph.
pub proof fn law_glyph_ignores_case(font: AsciiFont, c: char)
    ensures
        font_table(font, c) == font_table(font, ascii_upper(c)),
        font_table(font, c) == font_table(font, ascii_lower(c)),
{
    if 'a' <= c <= 'z' {
        assert(ascii_lower(ascii_upper(c)) == c);
        assert(ascii_upper(ascii_upper(c)) == ascii_upper(c));
    } else if 'A' <= c <= 'Z' {
        assert(ascii_upper(ascii_lower(c)) == c);
        assert(ascii_lower(ascii_lower(c)) == ascii_lower(c));
    }
}

/// The glyph of each character of `text` in `font`.
pub open spec fn text_glyphs(font: AsciiFont, text: Seq<char>) -> Seq<Option<Seq<Seq<char>>>> {
    Seq::new(text.len(), |k: int| Some(font_lines(font, text[k])))
}

/// The views of a glyph's lines.
pub open spec fn glyph_view(v: Seq<&'static str>) -> Seq<Seq<char>> {
    v.map_values(|s: &'static str| s@)
}

/// The lines of a rendering after one more character: each line of its
/// glyph appended to the line with the same number, or a space on every
/// line where the character has no glyph.
pub open spec fn add_glyph(rows: Seq<Seq<char>>, g: Option<Seq<Seq<char>>>) -> Seq<Seq<char>> {
    match g {
        Some(lines) => Seq::new(
            rows.len(),
            |i: int|
                if i < lines.len() {
                    rows[i] + lines[i]
                } else {
                    rows[i]
                },
        ),
        None => Seq::new(rows.len(), |i: int| rows[i].push(' ')),
    }
}

/// The `height` lines of a rendering of the glyphs `gs`, in order.
pub open spec fn render_rows(height: nat, gs: Seq<Option<Seq<Seq<char>>>>) -> Seq<Seq<char>>
    decreases gs.len(),
{
    if gs.len() == 0 {
        Seq::new(height, |i: int| Seq::<char>::empty())
    } else {
        add_glyph(render_rows(height, gs.drop_last()), gs.last())
    }
}

/// `rows` joined with line feeds between them.
pub open spec fn join_lines(rows: Seq<Seq<char>>) -> Seq<char>
    decreases rows.len(),
{
    if rows.len() == 0 {
        Seq::empty()
    } else if rows.len() == 1 {
        rows[0]
    } else {
        join_lines(rows.drop_last()).push('\n') + rows.last()
    }
}

/// `rows` joined with line feeds between them.
pub fn join_with_newlines(rows: &Vec<String>) -> (s: String)
    ensures
        s@ == join_lines(string_views(rows@)),
{
    let ghost rv = string_views(rows@);
    let mut s = String::new();
    let mut i: usize = 0;
    while i < rows.len()
        invariant
            i <= rows@.len(),
            rv == string_views(rows@),
            s@ == join_lines(rv.take(i as int)),
        decreases rows@.len() - i,
    {
        let ghost before = s@;
        if i > 0 {
            push_char(&mut s, '\n');
        }
        crate::text::append_str(&mut s, rows[i].as_str());
        proof {
            assert(rv.take(i + 1).drop_last() =~= rv.take(i as int));
            if i == 0 {
                assert(before =~= Seq::<char>::empty());
            }
        }
        i = i + 1;
    }
    assert(rv.take(rows@.len() as int) =~= rv);
    s
}

impl AsciiFont {
    /// The display name of the font.
    pub fn name(&self) -> (s: &'static str)
        ensures
            s@ == font_name(*self),
    {
        match self {
            AsciiFont::Standard => "Standard",
            AsciiFont::Small => "Small",
            AsciiFont::Block => "Block",
            AsciiFont::Banner => "Banner",
            AsciiFont::Mini => "Mini",
            AsciiFont::Shadow => "Shadow",
            AsciiFont::Slant => "Slant",
            AsciiFont::Big => "Big",
            AsciiFont::Doom => "Doom",
            AsciiFont::Script => "Script",
            AsciiFont::Digital => "Digital",
            AsciiFont::ThreeD => "3D",
            AsciiFont::Bubble => "Bubble",
            AsciiFont::Graffiti => "Graffiti",
            AsciiFont::Gothic => "Gothic",
            AsciiFont::Lean => "Lean",
            AsciiFont::Isometric => "Isometric",
            AsciiFont::StarWars => "Star Wars",
            AsciiFont::Cyberlarge => "Cyberlarge",
            AsciiFont::Alligator => "Alligator",
            AsciiFont::Roman => "Roman",
            AsciiFont::Thick => "Thick",
            AsciiFont::Ogre => "Ogre",
            AsciiFont::Ivrit => "Ivrit",
            AsciiFont::Rectangles => "Rectangles",
        }
    }

    /// The number of lines of each glyph.
    pub fn height(&self) -> (h: usize)
        ensures
            h == font_height(*self),
    {
        match self {
            AsciiFont::Standard => 6,
            AsciiFont::Small => 5,
            AsciiFont::Block => 5,
            AsciiFont::Banner => 3,
            AsciiFont::Mini => 3,
            AsciiFont::Shadow => 4,
            AsciiFont::Slant => 6,
            AsciiFont::Big => 8,
            AsciiFont::Doom => 8,
            AsciiFont::Script => 5,
            AsciiFont::Digital => 5,
            AsciiFont::ThreeD => 7,
            AsciiFont::Bubble => 4,
            AsciiFont::Graffiti => 6,
            AsciiFont::Gothic => 6,
            AsciiFont::Lean => 5,
            AsciiFont::Isometric => 7,
            AsciiFont::StarWars => 6,
            AsciiFont::Cyberlarge => 6,
            AsciiFont::Alligator => 5,
            AsciiFont::Roman => 6,
            AsciiFont::Thick => 5,
            AsciiFont::Ogre => 7,
            AsciiFont::Ivrit => 5,
            AsciiFont::Rectangles => 5,
        }
    }

    /// The glyph of `ch` in this font: always one, of the font's height.
    pub fn glyph(&self, ch: char) -> (r: Option<Vec<&'static str>>)
        ensures
            r is Some && r->0@ == font_table(*self, ch),
            r->0@.len() == font_height(*self),
    {
        match self {
            AsciiFont::Standard => standard_glyph(ch),
            AsciiFont::Small => small_glyph(ch),
            AsciiFont::Block => block_glyph(ch),
            AsciiFont::Banner => banner_glyph(ch),
            AsciiFont::Mini => mini_glyph(ch),
            AsciiFont::Shadow => shadow_glyph(ch),
            AsciiFont::Slant => slant_glyph(ch),
            AsciiFont::Big => big_glyph(ch),
            AsciiFont::Doom => doom_glyph(ch),
            AsciiFont::Script => script_glyph(ch),
            AsciiFont::Digital => digital_glyph(ch),
            AsciiFont::ThreeD => font_3d_glyph(ch),
            AsciiFont::Bubble => bubble_glyph(ch),
            AsciiFont::Graffiti => graffiti_glyph(ch),
            AsciiFont::Gothic => gothic_glyph(ch),
            AsciiFont::Lean => lean_glyph(ch),
            AsciiFont::Isometric => isometric_glyph(ch),
            AsciiFont::StarWars => starwars_glyph(ch),
            AsciiFont::Cyberlarge => cyberlarge_glyph(ch),
            AsciiFont::Alligator => alligator_glyph(ch),
            AsciiFont::Roman => roman_glyph(ch),
            AsciiFont::Thick => thick_glyph(ch),
            AsciiFont::Ogre => ogre_glyph(ch),
            AsciiFont::Ivrit => ivrit_glyph(ch),
            AsciiFont::Rectangles => rectangles_glyph(ch),
        }
    }

    /// `text` written in this font: the font's lines joined by line feeds,
    /// each line holding the same line of every character's glyph in turn.
    pub fn render(&self, text: &str) -> (s: String)
        ensures
            s@ == join_lines(render_rows(font_height(*self), text_glyphs(*self, text@))),
    {
        let h = self.height();
        let mut lines: Vec<String> = Vec::new();
        let mut i: usize = 0;
        while i < h
            invariant
                i <= h,
                h == font_height(*self),
                lines@.len() == i,
                forall|j: int| 0 <= j < i ==> (#[trigger] lines@[j])@ == Seq::<char>::empty(),
            decreases h - i,
        {
            lines.push(String::new());
            i = i + 1;
        }
        let chars = chars_of(text);
        let ghost mut gs: Seq<Option<Seq<Seq<char>>>> = Seq::empty();
        assert(string_views(lines@) =~= render_rows(h as nat, gs));
        assert(gs =~= text_glyphs(*self, text@).take(0));
        let mut k: usize = 0;
        while k < chars.len()
            invariant
                k <= chars@.len(),
                chars@ == text@,
                h == font_height(*self),
                lines@.len() == h,
                gs == text_glyphs(*self, text@).take(k as int),
                string_views(lines@) == render_rows(h as nat, gs),
            decreases chars@.len() - k,
        {
            let g = self.glyph(chars[k]);
            let ghost rows0 = string_views(lines@);
            let ghost gv = glyph_view(g->0@);
            match g {
                Some(glyph) => {
                    let mut j: usize = 0;
                    while j < glyph.len()
                        invariant
                            j <= glyph@.len(),
                            glyph@.len() == h,
                            lines@.len() == h,
                            rows0.len() == h,
                            gv == glyph_view(glyph@),
                            string_views(lines@) == Seq::new(
                                rows0.len(),
                                |i: int|
                                    if i < j && i < gv.len() {
                                        rows0[i] + gv[i]
                                    } else {
                                        rows0[i]
                                    },
                            ),
                        decreases glyph@.len() - j,
                    {
                        if j < lines.len() {
                            let ghost before = string_views(lines@);
                            let mut line = lines[j].clone();
                            assert(line@ == before[j as int]);
                            crate::text::append_str(&mut line, glyph[j]);
                            assert(glyph@[j as int]@ == gv[j as int]);
                            lines.set(j, line);
                            assert(string_views(lines@) =~= before.update(
                                j as int,
                                before[j as int] + gv[j as int],
                            ));
                        }
                        j = j + 1;
                        assert(string_views(lines@) =~= Seq::new(
                            rows0.len(),
                            |i: int|
                                if i < j && i < gv.len() {
                                    rows0[i] + gv[i]
                                } else {
                                    rows0[i]
                                },
                        ));
                    }
                },
                None => {},
            }
            proof {
                let old_gs = gs;
                gs = gs.push(Some(gv));
                assert(gs.drop_last() =~= old_gs);
                assert(string_views(lines@) =~= add_glyph(rows0, Some(gv)));
                assert(gs =~= text_glyphs(*self, text@).take(k + 1));
            }
            k = k + 1;
        }
        assert(gs =~= text_glyphs(*self, text@));
        join_with_newlines(&lines)
    }
}

/// Every font, in menu order.
pub fn all_fonts() -> (v: Vec<AsciiFont>)
    ensures
        v@ == seq![
            AsciiFont::Standard,
            AsciiFont::Small,
            AsciiFont::Block,
            AsciiFont::Banner,
            AsciiFont::Mini,
            AsciiFont::Shadow,
            AsciiFont::Slant,
            AsciiFont::Big,
            AsciiFont::Doom,
            AsciiFont::Script,
            AsciiFont::Digital,
            AsciiFont::ThreeD,
            AsciiFont::Bubble,
            AsciiFont::Graffiti,
            AsciiFont::Gothic,
            AsciiFont::Lean,
            AsciiFont::Isometric,
            AsciiFont::StarWars,
            AsciiFont::Cyberlarge,
            AsciiFont::Alligator,
            AsciiFont::Roman,
            AsciiFont::Thick,
            AsciiFont::Ogre,
            AsciiFont::Ivrit,
            AsciiFont::Rectangles,
        ],
{
    vec![
        FONT_STANDARD,
        FONT_SMALL,
        FONT_BLOCK,
        FONT_BANNER,
        FONT_MINI,
        FONT_SHADOW,
        FONT_SLANT,
        FONT_BIG,
        FONT_DOOM,
        FONT_SCRIPT,
        FONT_DIGITAL,
        FONT_3D,
        FONT_BUBBLE,
        FONT_GRAFFITI,
        FONT_GOTHIC,
        FONT_LEAN,
        FONT_ISOMETRIC,
        FONT_STARWARS,
        FONT_CYBERLARGE,
        FONT_ALLIGATOR,
        FONT_ROMAN,
        FONT_THICK,
        FONT_OGRE,
        FONT_IVRIT,
        FONT_RECTANGLES,
    ]
}

} // verus!
