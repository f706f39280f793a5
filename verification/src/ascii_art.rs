//! Character sets and filters for turning pictures into text, the colour
//! cube used for coloured output, and the built-in corgi pictures.

use vstd::prelude::*;

verus! {

/// Character sets for pictures made of text, from dark to light.
#[derive(Debug, Clone, Copy, PartialEq, Eq, Structural)]
pub enum CharacterSet {
    /// Simple set: " .:-=+*#@"
    Simple,
    /// Detailed set with more gradations
    Detailed,
    /// Unicode block characters
    Blocks,
    /// Braille characters for high detail
    Braille,
}

/// The characters of `set`, from dark to light.
pub open spec fn charset_chars(set: CharacterSet) -> Seq<char> {
    match set {
        CharacterSet::Simple => seq![' ', '.', ':', '-', '=', '+', '*', '#', '@'],
        CharacterSet::Detailed => seq![
            ' ', '.', '\'', '`', '^', '"', ',', ':', ';', 'I', 'l', '!', 'i', '>', '<', '~',
            '+', '_', '-', '?', ']', '[', '}', '{', '1', ')', '(', '|', '\\', '/', 't', 'f',
            'j', 'r', 'x', 'n', 'u', 'v', 'c', 'z', 'X', 'Y', 'U', 'J', 'C', 'L', 'Q', '0',
            'O', 'Z', 'm', 'w', 'q', 'p', 'd', 'b', 'k', 'h', 'a', 'o', '*', '#', 'M', 'W',
            '&', '8', '%', 'B', '@', '$',
        ],
        CharacterSet::Blocks => seq![' ', '░', '▒', '▓', '█'],
        CharacterSet::Braille => seq![' ', '⠁', '⠃', '⠇', '⠏', '⠟', '⠿', '⡿', '⣿'],
    }
}

/// The display name of `set`.
pub open spec fn charset_name(set: CharacterSet) -> Seq<char> {
    match set {
        CharacterSet::Simple => "Simple"@,
        CharacterSet::Detailed => "Detailed"@,
        CharacterSet::Blocks => "Blocks"@,
        CharacterSet::Braille => "Braille"@,
    }
}

impl CharacterSet {
    /// The characters of this set, from dark to light.
    pub fn chars(&self) -> (v: Vec<char>)
        ensures
            v@ == charset_chars(*self),
    {
        match self {
            CharacterSet::Simple => vec![' ', '.', ':', '-', '=', '+', '*', '#', '@'],
            CharacterSet::Detailed => vec![
                ' ', '.', '\'', '`', '^', '"', ',', ':', ';', 'I', 'l', '!', 'i', '>', '<', '~',
                '+', '_', '-', '?', ']', '[', '}', '{', '1', ')', '(', '|', '\\', '/', 't', 'f',
                'j', 'r', 'x', 'n', 'u', 'v', 'c', 'z', 'X', 'Y', 'U', 'J', 'C', 'L', 'Q', '0',
                'O', 'Z', 'm', 'w', 'q', 'p', 'd', 'b', 'k', 'h', 'a', 'o', '*', '#', 'M', 'W',
                '&', '8', '%', 'B', '@', '$',
            ],
            CharacterSet::Blocks => vec![' ', '░', '▒', '▓', '█'],
            CharacterSet::Braille => vec![' ', '⠁', '⠃', '⠇', '⠏', '⠟', '⠿', '⡿', '⣿'],
        }
    }

    /// Every character set, in menu order.
    pub fn all() -> (v: Vec<CharacterSet>)
        ensures
            v@ == seq![CharacterSet::Simple, CharacterSet::Detailed, CharacterSet::Blocks, CharacterSet::Braille],
    {
        vec![CharacterSet::Simple, CharacterSet::Detailed, CharacterSet::Blocks, CharacterSet::Braille]
    }

    /// The display name of this set.
    pub fn name(&self) -> (s: &'static str)
        ensures
            s@ == charset_name(*self),
    {
        match self {
            CharacterSet::Simple => "Simple",
            CharacterSet::Detailed => "Detailed",
            CharacterSet::Blocks => "Blocks",
            CharacterSet::Braille => "Braille",
        }
    }
}

/// Image processing filters.
#[derive(Debug, Clone, Copy, PartialEq, Eq, Structural)]
pub enum ImageFilter {
    /// No filter - use original brightness
    Unfiltered,
    /// Sobel edge detection
    EdgeDetect,
    /// High contrast
    HighContrast,
    /// Posterize (reduce colour levels)
    Posterize,
    /// Dithering for better gradients
    Dither,
}

impl Default for ImageFilter {
    fn default() -> (f: Self)
        ensures
            f == ImageFilter::Unfiltered,
    {
        ImageFilter::Unfiltered
    }
}

/// The display name of `filter`.
pub open spec fn filter_name(filter: ImageFilter) -> Seq<char> {
    match filter {
        ImageFilter::Unfiltered => "None"@,
        ImageFilter::EdgeDetect => "Edge Detect"@,
        ImageFilter::HighContrast => "High Contrast"@,
        ImageFilter::Posterize => "Posterize"@,
        ImageFilter::Dither => "Dither"@,
    }
}

impl ImageFilter {
    /// Every filter, in menu order.
    pub fn all() -> (v: Vec<ImageFilter>)
        ensures
            v@ == seq![
                ImageFilter::Unfiltered,
                ImageFilter::EdgeDetect,
                ImageFilter::HighContrast,
                ImageFilter::Posterize,
                ImageFilter::Dither,
            ],
    {
        vec![
            ImageFilter::Unfiltered,
            ImageFilter::EdgeDetect,
            ImageFilter::HighContrast,
            ImageFilter::Posterize,
            ImageFilter::Dither,
        ]
    }

    /// The display name of this filter.
    pub fn name(&self) -> (s: &'static str)
        ensures
            s@ == filter_name(*self),
    {
        match self {
            ImageFilter::Unfiltered => "None",
            ImageFilter::EdgeDetect => "Edge Detect",
            ImageFilter::HighContrast => "High Contrast",
            ImageFilter::Posterize => "Posterize",
            ImageFilter::Dither => "Dither",
        }
    }
}

/// A colour channel on the six steps of the colour cube (0..=5).
pub open spec fn cube_step(v: u8) -> int {
    (v as int * 5) / 255
}

/// The ANSI 256-colour index nearest to an RGB colour in the 6x6x6 colour
/// cube (indices 16 to 231).
pub open spec fn cube_index(r: u8, g: u8, b: u8) -> int {
    16 + 36 * cube_step(r) + 6 * cube_step(g) + cube_step(b)
}

/// The ANSI 256-colour index of an RGB colour in the 6x6x6 colour cube.
pub fn rgb_to_ansi(r: u8, g: u8, b: u8) -> (c: u8)
    ensures
        c == cube_index(r, g, b),
        16 <= c <= 231,
{
    let r5 = (r as u32 * 5 / 255) as u8;
    let g5 = (g as u32 * 5 / 255) as u8;
    let b5 = (b as u32 * 5 / 255) as u8;
    16 + 36 * r5 + 6 * g5 + b5
}

/// The built-in corgi pictures.
pub struct CorgiArt;

impl CorgiArt {
    /// Every picture with its name, in order.
    pub fn all() -> (v: Vec<(&'static str, &'static str)>)
        ensures
            v@.len() == 6,
            v@[0].0@ == "Classic"@ && v@[0].1 == Self::CLASSIC,
            v@[1].0@ == "Sitting"@ && v@[1].1 == Self::SITTING,
            v@[2].0@ == "Running"@ && v@[2].1 == Self::RUNNING,
            v@[3].0@ == "Happy"@ && v@[3].1 == Self::HAPPY,
            v@[4].0@ == "Sleepy"@ && v@[4].1 == Self::SLEEPY,
            v@[5].0@ == "Pixel (CorgiTerm Mascot)"@ && v@[5].1 == Self::PIXEL,
    {
        vec![
            ("Classic", Self::CLASSIC),
            ("Sitting", Self::SITTING),
            ("Running", Self::RUNNING),
            ("Happy", Self::HAPPY),
            ("Sleepy", Self::SLEEPY),
            ("Pixel (CorgiTerm Mascot)", Self::PIXEL),
        ]
    }

    /// The picture that a clock reading of `seconds` picks: the pictures of
    /// `all` in turn, one per second.
    pub fn pick(seconds: u64) -> (art: &'static str)
        ensures
            art == Self::all_pictures()[(seconds % 6) as int],
    {
        let arts = [Self::CLASSIC, Self::SITTING, Self::RUNNING, Self::HAPPY, Self::SLEEPY, Self::PIXEL];
        let i = (seconds % 6) as usize;
        arts[i]
    }

    /// The pictures, in order.
    pub open spec fn all_pictures() -> Seq<&'static str> {
        seq![Self::CLASSIC, Self::SITTING, Self::RUNNING, Self::HAPPY, Self::SLEEPY, Self::PIXEL]
    }

    /// A picture chosen by the clock.
    pub fn random() -> (art: &'static str)
        ensures
            Self::all_pictures().contains(art),
    {
        let art = Self::pick(crate::clock::unix_seconds());
        art
    }

    pub const CLASSIC: &'static str = r#"
   ／＞　 フ
  | 　_　_|
／` ミ＿xノ
/　　　　 |
/　 ヽ　　ﾉ
│　　|　|　|
/ ￣|　　|　|
| ( ￣ヽ＿_ヽ_)__)
＼二つ
"#;

    pub const SITTING: &'static str = r#"
    __
   /  \
  |    |  /\_/\
  |    | ( o.o )
   \__/   > ^ <
    ||   /|   |\
    ||   \|___|/
   (  )
    ||
   (__)"#;

    pub const RUNNING: &'static str = r#"
     __
    /  \  _/|
   |    |/ /
   |    | /
    \__/ /
     /| |___
    < | |   \
     \|_|___/
       | |
       |_|"#;

    pub const HAPPY: &'static str = r#"
     /\_/\
    ( ^.^ )
   C(")(")
    _|  |_
   /  ||  \
  (__)||(__)"#;

    pub const SLEEPY: &'static str = r#"
     /\_/\
    ( -.- ) zzZ
   C(")(")
    _|  |_
   /  ||  \
  (__)||(__)"#;

    pub const PIXEL: &'static str = r#"
    ████████
  ██░░██░░██
  ██░░██░░██  PIXEL
  ██████████  CorgiTerm Mascot
██░░██████░░██
██░░░░░░░░░░██
██░░██░░██░░██
  ████  ████
  ██      ██
  ▓▓      ▓▓
NES-style Tri-Color Corgi!"#;

    pub const WELCOME: &'static str = r#"
  ╔═══════════════════════════════════════════╗
  ║                                           ║
  ║     ██████╗ ██████╗ ██████╗  ██████╗ ██╗ ║
  ║    ██╔════╝██╔═══██╗██╔══██╗██╔════╝ ██║ ║
  ║    ██║     ██║   ██║██████╔╝██║  ███╗██║ ║
  ║    ██║     ██║   ██║██╔══██╗██║   ██║██║ ║
  ║    ╚██████╗╚██████╔╝██║  ██║╚██████╔╝██║ ║
  ║     ╚═════╝ ╚═════╝ ╚═╝  ╚═╝ ╚═════╝ ╚═╝ ║
  ║                                           ║
  ║          TERM - Terminal Emulator         ║
  ║                                           ║
  ║         Welcome to CorgiTerm! 🐕          ║
  ║     Making terminals friendly & fun       ║
  ║                                           ║
  ╚═══════════════════════════════════════════╝

       ／＞　 フ
      | 　_　_|     Type 'help' to get started
    ／` ミ＿xノ     Press Ctrl+Space for AI help
   /　　　　 |      Tools → ASCII Art Generator
  /　 ヽ　　ﾉ
  │　　|　|　|
"#;
}

} // verus!
