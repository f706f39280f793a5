//! Colour themes: the built-in ones and the manager that holds the
//! available themes and the one in use.

use vstd::prelude::*;
use crate::text::str_eq;

verus! {

/// A complete color theme
#[derive(Debug, Clone)]
pub struct Theme {
    /// Theme name
    pub name: String,
    /// Theme author
    pub author: Option<String>,
    /// Theme description
    pub description: Option<String>,
    /// Is this a dark theme?
    pub is_dark: bool,
    /// Terminal colors
    pub colors: TerminalColors,
    /// UI colors
    pub ui: UiColors,
    /// Cursor colors
    pub cursor: CursorColors,
    /// Selection colors
    pub selection: SelectionColors,
}

/// Standard terminal colors (16 ANSI + extras)
#[derive(Debug, Clone)]
pub struct TerminalColors {
    /// Primary foreground
    pub foreground: String,
    /// Primary background
    pub background: String,
    /// Bold text color
    pub bold: Option<String>,
    /// Dim text color
    pub dim: Option<String>,
    /// ANSI color 0 (Black)
    pub black: String,
    /// ANSI color 1 (Red)
    pub red: String,
    /// ANSI color 2 (Green)
    pub green: String,
    /// ANSI color 3 (Yellow)
    pub yellow: String,
    /// ANSI color 4 (Blue)
    pub blue: String,
    /// ANSI color 5 (Magenta)
    pub magenta: String,
    /// ANSI color 6 (Cyan)
    pub cyan: String,
    /// ANSI color 7 (White)
    pub white: String,
    /// ANSI color 8 (Bright Black)
    pub bright_black: String,
    /// ANSI color 9 (Bright Red)
    pub bright_red: String,
    /// ANSI color 10 (Bright Green)
    pub bright_green: String,
    /// ANSI color 11 (Bright Yellow)
    pub bright_yellow: String,
    /// ANSI color 12 (Bright Blue)
    pub bright_blue: String,
    /// ANSI color 13 (Bright Magenta)
    pub bright_magenta: String,
    /// ANSI color 14 (Bright Cyan)
    pub bright_cyan: String,
    /// ANSI color 15 (Bright White)
    pub bright_white: String,
}

/// UI element colors
#[derive(Debug, Clone)]
pub struct UiColors {
    /// Sidebar background
    pub sidebar_bg: String,
    /// Sidebar text
    pub sidebar_fg: String,
    /// Tab bar background
    pub tab_bar_bg: String,
    /// Active tab background
    pub tab_active_bg: String,
    /// Active tab text
    pub tab_active_fg: String,
    /// Inactive tab background
    pub tab_inactive_bg: String,
    /// Inactive tab text
    pub tab_inactive_fg: String,
    /// Border color
    pub border: String,
    /// Accent color
    pub accent: String,
    /// Success color
    pub success: String,
    /// Warning color
    pub warning: String,
    /// Error color
    pub error: String,
    /// Info color
    pub info: String,
}

/// Cursor colors
#[derive(Debug, Clone)]
pub struct CursorColors {
    /// Cursor color
    pub cursor: String,
    /// Cursor text color
    pub cursor_text: String,
}

/// Selection colors
#[derive(Debug, Clone)]
pub struct SelectionColors {
    /// Selection background
    pub background: String,
    /// Selection text
    pub foreground: Option<String>,
}

impl Theme {
    /// Corgi Dark - The signature dark theme
    pub fn corgi_dark() -> (t: Self)
        ensures
            t.name@ == "Corgi Dark"@,
            t.author is Some && t.author->0@ == "CorgiTerm Team"@,
            t.description is Some && t.description->0@ == "The signature dark theme with warm corgi tones"@,
            t.is_dark,
            t.colors.foreground@ == "#E8DCC4"@,
            t.colors.background@ == "#1E1B16"@,
            t.colors.bold is Some && t.colors.bold->0@ == "#FFEFD5"@,
            t.colors.dim is Some && t.colors.dim->0@ == "#8B7355"@,
            t.colors.black@ == "#1E1B16"@,
            t.colors.red@ == "#E06C60"@,
            t.colors.green@ == "#A8C686"@,
            t.colors.yellow@ == "#E5C07B"@,
            t.colors.blue@ == "#6CA0DC"@,
            t.colors.magenta@ == "#C792EA"@,
            t.colors.cyan@ == "#7EC8A3"@,
            t.colors.white@ == "#E8DCC4"@,
            t.colors.bright_black@ == "#5C5346"@,
            t.colors.bright_red@ == "#F28779"@,
            t.colors.bright_green@ == "#C3E88D"@,
            t.colors.bright_yellow@ == "#FFCB6B"@,
            t.colors.bright_blue@ == "#82AAFF"@,
            t.colors.bright_magenta@ == "#D4BFFF"@,
            t.colors.bright_cyan@ == "#89DDFF"@,
            t.colors.bright_white@ == "#FFEFD5"@,
            t.ui.sidebar_bg@ == "#16140F"@,
            t.ui.sidebar_fg@ == "#C9B896"@,
            t.ui.tab_bar_bg@ == "#1E1B16"@,
            t.ui.tab_active_bg@ == "#2D2A23"@,
            t.ui.tab_active_fg@ == "#FFEFD5"@,
            t.ui.tab_inactive_bg@ == "#1E1B16"@,
            t.ui.tab_inactive_fg@ == "#8B7355"@,
            t.ui.border@ == "#3D3A33"@,
            t.ui.accent@ == "#E5A84B"@,
            t.ui.success@ == "#A8C686"@,
            t.ui.warning@ == "#E5C07B"@,
            t.ui.error@ == "#E06C60"@,
            t.ui.info@ == "#6CA0DC"@,
            t.cursor.cursor@ == "#E5A84B"@,
            t.cursor.cursor_text@ == "#1E1B16"@,
            t.selection.background@ == "#4D4536"@,
            t.selection.foreground is None,
    {
        Theme {
            name: "Corgi Dark".to_owned(),
            author: Some("CorgiTerm Team".to_owned()),
            description: Some("The signature dark theme with warm corgi tones".to_owned()),
            is_dark: true,
            colors: TerminalColors {
                foreground: "#E8DCC4".to_owned(),
                background: "#1E1B16".to_owned(),
                bold: Some("#FFEFD5".to_owned()),
                dim: Some("#8B7355".to_owned()),
                black: "#1E1B16".to_owned(),
                red: "#E06C60".to_owned(),
                green: "#A8C686".to_owned(),
                yellow: "#E5C07B".to_owned(),
                blue: "#6CA0DC".to_owned(),
                magenta: "#C792EA".to_owned(),
                cyan: "#7EC8A3".to_owned(),
                white: "#E8DCC4".to_owned(),
                bright_black: "#5C5346".to_owned(),
                bright_red: "#F28779".to_owned(),
                bright_green: "#C3E88D".to_owned(),
                bright_yellow: "#FFCB6B".to_owned(),
                bright_blue: "#82AAFF".to_owned(),
                bright_magenta: "#D4BFFF".to_owned(),
                bright_cyan: "#89DDFF".to_owned(),
                bright_white: "#FFEFD5".to_owned(),
            },
            ui: UiColors {
                sidebar_bg: "#16140F".to_owned(),
                sidebar_fg: "#C9B896".to_owned(),
                tab_bar_bg: "#1E1B16".to_owned(),
                tab_active_bg: "#2D2A23".to_owned(),
                tab_active_fg: "#FFEFD5".to_owned(),
                tab_inactive_bg: "#1E1B16".to_owned(),
                tab_inactive_fg: "#8B7355".to_owned(),
                border: "#3D3A33".to_owned(),
                accent: "#E5A84B".to_owned(),
                success: "#A8C686".to_owned(),
                warning: "#E5C07B".to_owned(),
                error: "#E06C60".to_owned(),
                info: "#6CA0DC".to_owned(),
            },
            cursor: CursorColors {
                cursor: "#E5A84B".to_owned(),
                cursor_text: "#1E1B16".to_owned(),
            },
            selection: SelectionColors {
                background: "#4D4536".to_owned(),
                foreground: None,
            },
        }
    }

    /// Corgi Light - The signature light theme
    pub fn corgi_light() -> (t: Self)
        ensures
            t.name@ == "Corgi Light"@,
            t.author is Some && t.author->0@ == "CorgiTerm Team"@,
            t.description is Some && t.description->0@ == "A warm, inviting light theme"@,
            !t.is_dark,
            t.colors.foreground@ == "#3D3A33"@,
            t.colors.background@ == "#FFF8EE"@,
            t.colors.bold is Some && t.colors.bold->0@ == "#1E1B16"@,
            t.colors.dim is Some && t.colors.dim->0@ == "#8B7355"@,
            t.colors.black@ == "#3D3A33"@,
            t.colors.red@ == "#C74440"@,
            t.colors.green@ == "#6A8F4A"@,
            t.colors.yellow@ == "#B8860B"@,
            t.colors.blue@ == "#4A7AAF"@,
            t.colors.magenta@ == "#8B5A9E"@,
            t.colors.cyan@ == "#2A9D8F"@,
            t.colors.white@ == "#FFF8EE"@,
            t.colors.bright_black@ == "#6B6359"@,
            t.colors.bright_red@ == "#D65D55"@,
            t.colors.bright_green@ == "#7FA863"@,
            t.colors.bright_yellow@ == "#D4A017"@,
            t.colors.bright_blue@ == "#5D8EC4"@,
            t.colors.bright_magenta@ == "#A06DB5"@,
            t.colors.bright_cyan@ == "#3EB4A5"@,
            t.colors.bright_white@ == "#FFFFFF"@,
            t.ui.sidebar_bg@ == "#F5EBD9"@,
            t.ui.sidebar_fg@ == "#3D3A33"@,
            t.ui.tab_bar_bg@ == "#FFF8EE"@,
            t.ui.tab_active_bg@ == "#FFFFFF"@,
            t.ui.tab_active_fg@ == "#1E1B16"@,
            t.ui.tab_inactive_bg@ == "#F5EBD9"@,
            t.ui.tab_inactive_fg@ == "#6B6359"@,
            t.ui.border@ == "#E5D9C3"@,
            t.ui.accent@ == "#D4881C"@,
            t.ui.success@ == "#6A8F4A"@,
            t.ui.warning@ == "#B8860B"@,
            t.ui.error@ == "#C74440"@,
            t.ui.info@ == "#4A7AAF"@,
            t.cursor.cursor@ == "#D4881C"@,
            t.cursor.cursor_text@ == "#FFF8EE"@,
            t.selection.background@ == "#E5D9C3"@,
            t.selection.foreground is None,
    {
        Theme {
            name: "Corgi Light".to_owned(),
            author: Some("CorgiTerm Team".to_owned()),
            description: Some("A warm, inviting light theme".to_owned()),
            is_dark: false,
            colors: TerminalColors {
                foreground: "#3D3A33".to_owned(),
                background: "#FFF8EE".to_owned(),
                bold: Some("#1E1B16".to_owned()),
                dim: Some("#8B7355".to_owned()),
                black: "#3D3A33".to_owned(),
                red: "#C74440".to_owned(),
                green: "#6A8F4A".to_owned(),
                yellow: "#B8860B".to_owned(),
                blue: "#4A7AAF".to_owned(),
                magenta: "#8B5A9E".to_owned(),
                cyan: "#2A9D8F".to_owned(),
                white: "#FFF8EE".to_owned(),
                bright_black: "#6B6359".to_owned(),
                bright_red: "#D65D55".to_owned(),
                bright_green: "#7FA863".to_owned(),
                bright_yellow: "#D4A017".to_owned(),
                bright_blue: "#5D8EC4".to_owned(),
                bright_magenta: "#A06DB5".to_owned(),
                bright_cyan: "#3EB4A5".to_owned(),
                bright_white: "#FFFFFF".to_owned(),
            },
            ui: UiColors {
                sidebar_bg: "#F5EBD9".to_owned(),
                sidebar_fg: "#3D3A33".to_owned(),
                tab_bar_bg: "#FFF8EE".to_owned(),
                tab_active_bg: "#FFFFFF".to_owned(),
                tab_active_fg: "#1E1B16".to_owned(),
                tab_inactive_bg: "#F5EBD9".to_owned(),
                tab_inactive_fg: "#6B6359".to_owned(),
                border: "#E5D9C3".to_owned(),
                accent: "#D4881C".to_owned(),
                success: "#6A8F4A".to_owned(),
                warning: "#B8860B".to_owned(),
                error: "#C74440".to_owned(),
                info: "#4A7AAF".to_owned(),
            },
            cursor: CursorColors {
                cursor: "#D4881C".to_owned(),
                cursor_text: "#FFF8EE".to_owned(),
            },
            selection: SelectionColors {
                background: "#E5D9C3".to_owned(),
                foreground: None,
            },
        }
    }

    /// Corgi Sunset - Warm orange/pink tones
    pub fn corgi_sunset() -> (t: Self)
        ensures
            t.name@ == "Corgi Sunset"@,
            t.author is Some && t.author->0@ == "CorgiTerm Team"@,
            t.description is Some && t.description->0@ == "Warm sunset colors for evening coding"@,
            t.is_dark,
            t.colors.foreground@ == "#F4E3CF"@,
            t.colors.background@ == "#1F1520"@,
            t.colors.bold is Some && t.colors.bold->0@ == "#FFE4C4"@,
            t.colors.dim is Some && t.colors.dim->0@ == "#9E7B89"@,
            t.colors.black@ == "#1F1520"@,
            t.colors.red@ == "#FF6B6B"@,
            t.colors.green@ == "#95D5B2"@,
            t.colors.yellow@ == "#FFD93D"@,
            t.colors.blue@ == "#6A9BD8"@,
            t.colors.magenta@ == "#E879A9"@,
            t.colors.cyan@ == "#74C7B8"@,
            t.colors.white@ == "#F4E3CF"@,
            t.colors.bright_black@ == "#614051"@,
            t.colors.bright_red@ == "#FF8585"@,
            t.colors.bright_green@ == "#B2E4C6"@,
            t.colors.bright_yellow@ == "#FFE566"@,
            t.colors.bright_blue@ == "#8BB8E8"@,
            t.colors.bright_magenta@ == "#F09AC0"@,
            t.colors.bright_cyan@ == "#93D8CC"@,
            t.colors.bright_white@ == "#FFE4C4"@,
            t.ui.sidebar_bg@ == "#180F18"@,
            t.ui.sidebar_fg@ == "#C9A7B5"@,
            t.ui.tab_bar_bg@ == "#1F1520"@,
            t.ui.tab_active_bg@ == "#352535"@,
            t.ui.tab_active_fg@ == "#FFE4C4"@,
            t.ui.tab_inactive_bg@ == "#1F1520"@,
            t.ui.tab_inactive_fg@ == "#9E7B89"@,
            t.ui.border@ == "#4A3545"@,
            t.ui.accent@ == "#FF8C5A"@,
            t.ui.success@ == "#95D5B2"@,
            t.ui.warning@ == "#FFD93D"@,
            t.ui.error@ == "#FF6B6B"@,
            t.ui.info@ == "#6A9BD8"@,
            t.cursor.cursor@ == "#FF8C5A"@,
            t.cursor.cursor_text@ == "#1F1520"@,
            t.selection.background@ == "#4A3545"@,
            t.selection.foreground is None,
    {
        Theme {
            name: "Corgi Sunset".to_owned(),
            author: Some("CorgiTerm Team".to_owned()),
            description: Some("Warm sunset colors for evening coding".to_owned()),
            is_dark: true,
            colors: TerminalColors {
                foreground: "#F4E3CF".to_owned(),
                background: "#1F1520".to_owned(),
                bold: Some("#FFE4C4".to_owned()),
                dim: Some("#9E7B89".to_owned()),
                black: "#1F1520".to_owned(),
                red: "#FF6B6B".to_owned(),
                green: "#95D5B2".to_owned(),
                yellow: "#FFD93D".to_owned(),
                blue: "#6A9BD8".to_owned(),
                magenta: "#E879A9".to_owned(),
                cyan: "#74C7B8".to_owned(),
                white: "#F4E3CF".to_owned(),
                bright_black: "#614051".to_owned(),
                bright_red: "#FF8585".to_owned(),
                bright_green: "#B2E4C6".to_owned(),
                bright_yellow: "#FFE566".to_owned(),
                bright_blue: "#8BB8E8".to_owned(),
                bright_magenta: "#F09AC0".to_owned(),
                bright_cyan: "#93D8CC".to_owned(),
                bright_white: "#FFE4C4".to_owned(),
            },
            ui: UiColors {
                sidebar_bg: "#180F18".to_owned(),
                sidebar_fg: "#C9A7B5".to_owned(),
                tab_bar_bg: "#1F1520".to_owned(),
                tab_active_bg: "#352535".to_owned(),
                tab_active_fg: "#FFE4C4".to_owned(),
                tab_inactive_bg: "#1F1520".to_owned(),
                tab_inactive_fg: "#9E7B89".to_owned(),
                border: "#4A3545".to_owned(),
                accent: "#FF8C5A".to_owned(),
                success: "#95D5B2".to_owned(),
                warning: "#FFD93D".to_owned(),
                error: "#FF6B6B".to_owned(),
                info: "#6A9BD8".to_owned(),
            },
            cursor: CursorColors {
                cursor: "#FF8C5A".to_owned(),
                cursor_text: "#1F1520".to_owned(),
            },
            selection: SelectionColors {
                background: "#4A3545".to_owned(),
                foreground: None,
            },
        }
    }

    /// Pembroke - Named after Pembroke Welsh Corgi
    pub fn pembroke() -> (t: Self)
        ensures
            t.name@ == "Pembroke"@,
            t.author is Some && t.author->0@ == "CorgiTerm Team"@,
            t.description is Some && t.description->0@ == "A regal theme inspired by the Pembroke Welsh Corgi"@,
            t.is_dark,
            t.colors.foreground@ == "#D4C5A9"@,
            t.colors.background@ == "#1A1614"@,
            t.colors.bold is Some && t.colors.bold->0@ == "#EFE4C9"@,
            t.colors.dim is Some && t.colors.dim->0@ == "#7A6E5D"@,
            t.colors.black@ == "#1A1614"@,
            t.colors.red@ == "#C75643"@,
            t.colors.green@ == "#8DAA6F"@,
            t.colors.yellow@ == "#D4A656"@,
            t.colors.blue@ == "#5B8FA8"@,
            t.colors.magenta@ == "#9E7682"@,
            t.colors.cyan@ == "#6B9E8A"@,
            t.colors.white@ == "#D4C5A9"@,
            t.colors.bright_black@ == "#5A524A"@,
            t.colors.bright_red@ == "#D66B5A"@,
            t.colors.bright_green@ == "#A4BF86"@,
            t.colors.bright_yellow@ == "#E4B86A"@,
            t.colors.bright_blue@ == "#72A4BC"@,
            t.colors.bright_magenta@ == "#B08C98"@,
            t.colors.bright_cyan@ == "#82B49E"@,
            t.colors.bright_white@ == "#EFE4C9"@,
            t.ui.sidebar_bg@ == "#14110F"@,
            t.ui.sidebar_fg@ == "#B8AA90"@,
            t.ui.tab_bar_bg@ == "#1A1614"@,
            t.ui.tab_active_bg@ == "#282420"@,
            t.ui.tab_active_fg@ == "#EFE4C9"@,
            t.ui.tab_inactive_bg@ == "#1A1614"@,
            t.ui.tab_inactive_fg@ == "#7A6E5D"@,
            t.ui.border@ == "#383430"@,
            t.ui.accent@ == "#C78B52"@,
            t.ui.success@ == "#8DAA6F"@,
            t.ui.warning@ == "#D4A656"@,
            t.ui.error@ == "#C75643"@,
            t.ui.info@ == "#5B8FA8"@,
            t.cursor.cursor@ == "#C78B52"@,
            t.cursor.cursor_text@ == "#1A1614"@,
            t.selection.background@ == "#3D3832"@,
            t.selection.foreground is None,
    {
        Theme {
            name: "Pembroke".to_owned(),
            author: Some("CorgiTerm Team".to_owned()),
            description: Some("A regal theme inspired by the Pembroke Welsh Corgi".to_owned()),
            is_dark: true,
            colors: TerminalColors {
                foreground: "#D4C5A9".to_owned(),
                background: "#1A1614".to_owned(),
                bold: Some("#EFE4C9".to_owned()),
                dim: Some("#7A6E5D".to_owned()),
                black: "#1A1614".to_owned(),
                red: "#C75643".to_owned(),
                green: "#8DAA6F".to_owned(),
                yellow: "#D4A656".to_owned(),
                blue: "#5B8FA8".to_owned(),
                magenta: "#9E7682".to_owned(),
                cyan: "#6B9E8A".to_owned(),
                white: "#D4C5A9".to_owned(),
                bright_black: "#5A524A".to_owned(),
                bright_red: "#D66B5A".to_owned(),
                bright_green: "#A4BF86".to_owned(),
                bright_yellow: "#E4B86A".to_owned(),
                bright_blue: "#72A4BC".to_owned(),
                bright_magenta: "#B08C98".to_owned(),
                bright_cyan: "#82B49E".to_owned(),
                bright_white: "#EFE4C9".to_owned(),
            },
            ui: UiColors {
                sidebar_bg: "#14110F".to_owned(),
                sidebar_fg: "#B8AA90".to_owned(),
                tab_bar_bg: "#1A1614".to_owned(),
                tab_active_bg: "#282420".to_owned(),
                tab_active_fg: "#EFE4C9".to_owned(),
                tab_inactive_bg: "#1A1614".to_owned(),
                tab_inactive_fg: "#7A6E5D".to_owned(),
                border: "#383430".to_owned(),
                accent: "#C78B52".to_owned(),
                success: "#8DAA6F".to_owned(),
                warning: "#D4A656".to_owned(),
                error: "#C75643".to_owned(),
                info: "#5B8FA8".to_owned(),
            },
            cursor: CursorColors {
                cursor: "#C78B52".to_owned(),
                cursor_text: "#1A1614".to_owned(),
            },
            selection: SelectionColors {
                background: "#3D3832".to_owned(),
                foreground: None,
            },
        }
    }
}

/// The names of a list of themes.
pub open spec fn theme_names(v: Seq<Theme>) -> Seq<Seq<char>> {
    v.map_values(|t: Theme| t.name@)
}

/// The themes available, by name, and the one in use.
pub struct ThemeManager {
    themes: Vec<Theme>,
    current: String,
}

impl ThemeManager {
    /// Names are distinct, and the theme in use is one of the themes.
    pub closed spec fn well_formed(self) -> bool {
        &&& forall|i: int, j: int|
            0 <= i < j < self.themes@.len() ==> (#[trigger] self.themes@[i]).name@ != (#[trigger] self.themes@[j]).name@
        &&& exists|i: int| 0 <= i < self.themes@.len() && (#[trigger] self.themes@[i]).name@ == self.current@
    }

    /// The themes, in the order they were added.
    pub closed spec fn themes(self) -> Seq<Theme> {
        self.themes@
    }

    /// The name of the theme in use.
    pub closed spec fn current_name(self) -> Seq<char> {
        self.current@
    }

    /// The built-in themes, with Corgi Dark in use.
    pub fn new() -> (m: Self)
        ensures
            m.well_formed(),
            theme_names(m.themes()) == seq!["Corgi Dark"@, "Corgi Light"@, "Corgi Sunset"@, "Pembroke"@],
            m.current_name() == "Corgi Dark"@,
    {
        let mut themes: Vec<Theme> = Vec::new();
        themes.push(Theme::corgi_dark());
        themes.push(Theme::corgi_light());
        themes.push(Theme::corgi_sunset());
        themes.push(Theme::pembroke());
        proof {
            reveal_strlit("Corgi Dark");
            reveal_strlit("Corgi Light");
            reveal_strlit("Corgi Sunset");
            reveal_strlit("Pembroke");
            assert(theme_names(themes@) =~= seq!["Corgi Dark"@, "Corgi Light"@, "Corgi Sunset"@, "Pembroke"@]);
            assert(themes@[0].name@[6] == 'D');
            assert(themes@[1].name@[6] == 'L');
            assert(themes@[2].name@[6] == 'S');
            assert(themes@[3].name@[0] == 'P');
        }
        let current = "Corgi Dark".to_owned();
        assert(themes@[0].name@ == current@);
        ThemeManager { themes, current }
    }

    /// The index of the theme named `name`.
    fn index_of(&self, name: &str) -> (r: Option<usize>)
        ensures
            match r {
                Some(i) => i < self.themes().len() && self.themes()[i as int].name@ == name@,
                None => !theme_names(self.themes()).contains(name@),
            },
    {
        let mut i: usize = 0;
        while i < self.themes.len()
            invariant
                i <= self.themes@.len(),
                forall|j: int| 0 <= j < i ==> (#[trigger] self.themes@[j]).name@ != name@,
            decreases self.themes@.len() - i,
        {
            if str_eq(self.themes[i].name.as_str(), name) {
                return Some(i);
            }
            i = i + 1;
        }
        proof {
            if theme_names(self.themes@).contains(name@) {
                let k = choose|k: int| 0 <= k < theme_names(self.themes@).len() && theme_names(self.themes@)[k] == name@;
                assert(self.themes@[k].name@ == name@);
            }
        }
        None
    }

    /// The theme in use.
    pub fn current(&self) -> (t: &Theme)
        requires
            self.well_formed(),
        ensures
            t.name@ == self.current_name(),
            self.themes().contains(*t),
    {
        let r = self.index_of(self.current.as_str());
        match r {
            Some(i) => &self.themes[i],
            None => {
                proof {
                    let k = choose|k: int| 0 <= k < self.themes@.len() && (#[trigger] self.themes@[k]).name@ == self.current@;
                    assert(theme_names(self.themes@)[k] == self.current@);
                }
                &self.themes[0]
            },
        }
    }

    /// Puts the theme named `name` in use, if there is one; whether there
    /// is.
    pub fn set_current(&mut self, name: &str) -> (found: bool)
        requires
            old(self).well_formed(),
        ensures
            final(self).well_formed(),
            found == theme_names(old(self).themes()).contains(name@),
            final(self).themes() == old(self).themes(),
            final(self).current_name() == if found {
                name@
            } else {
                old(self).current_name()
            },
    {
        match self.index_of(name) {
            Some(i) => {
                proof {
                    assert(theme_names(self.themes@)[i as int] == name@);
                }
                self.current = name.to_owned();
                true
            },
            None => false,
        }
    }

    /// The names of the themes.
    pub fn list(&self) -> (names: Vec<String>)
        ensures
            crate::text::string_views(names@) == theme_names(self.themes()),
    {
        let mut names: Vec<String> = Vec::new();
        let mut i: usize = 0;
        while i < self.themes.len()
            invariant
                i <= self.themes@.len(),
                crate::text::string_views(names@) == theme_names(self.themes@).take(i as int),
            decreases self.themes@.len() - i,
        {
            let ghost before = names@;
            names.push(self.themes[i].name.clone());
            assert(crate::text::string_views(names@) =~= crate::text::string_views(before).push(
                self.themes@[i as int].name@,
            ));
            assert(theme_names(self.themes@).take(i + 1) =~= theme_names(self.themes@).take(i as int).push(
                self.themes@[i as int].name@,
            ));
            i = i + 1;
        }
        assert(theme_names(self.themes@).take(self.themes@.len() as int) =~= theme_names(self.themes@));
        names
    }

    /// The theme named `name`.
    pub fn get(&self, name: &str) -> (r: Option<&Theme>)
        ensures
            match r {
                Some(t) => t.name@ == name@ && self.themes().contains(*t),
                None => !theme_names(self.themes()).contains(name@),
            },
    {
        match self.index_of(name) {
            Some(i) => Some(&self.themes[i]),
            None => None,
        }
    }

    /// Adds `theme`, in place of the theme with its name if there is one.
    pub fn insert(&mut self, theme: Theme)
        requires
            old(self).well_formed(),
        ensures
            final(self).well_formed(),
            theme_names(old(self).themes()).contains(theme.name@) ==> exists|i: int|
                0 <= i < old(self).themes().len() && old(self).themes()[i].name@ == theme.name@ && final(self).themes()
                    == old(self).themes().update(i, theme),
            !theme_names(old(self).themes()).contains(theme.name@) ==> final(self).themes() == old(
                self,
            ).themes().push(theme),
            final(self).current_name() == old(self).current_name(),
    {
        match self.index_of(theme.name.as_str()) {
            Some(i) => {
                proof {
                    assert(theme_names(self.themes@)[i as int] == theme.name@);
                    assert(theme_names(self.themes@.update(i as int, theme)) =~= theme_names(self.themes@).update(i as int, theme.name@));
                }
                self.themes.set(i, theme);
                proof {
                    let k = choose|k: int| 0 <= k < old(self).themes@.len() && (#[trigger] old(self).themes@[k]).name@ == self.current@;
                    assert(self.themes@[k].name@ == self.current@);
                    assert forall|a: int, b: int| 0 <= a < b < self.themes@.len() implies (#[trigger] self.themes@[a]).name@ != (#[trigger] self.themes@[b]).name@ by {
                        assert(old(self).themes@[a].name@ != old(self).themes@[b].name@);
                    }
                }
            },
            None => {
                self.themes.push(theme);
                proof {
                    let k = choose|k: int| 0 <= k < old(self).themes@.len() && (#[trigger] old(self).themes@[k]).name@ == self.current@;
                    assert(self.themes@[k].name@ == self.current@);
                    assert forall|a: int, b: int| 0 <= a < b < self.themes@.len() implies (#[trigger] self.themes@[a]).name@ != (#[trigger] self.themes@[b]).name@ by {
                        if b == self.themes@.len() - 1 {
                            assert(theme_names(old(self).themes@)[a] == old(self).themes@[a].name@);
                        }
                    }
                }
            },
        }
    }
}

impl Default for ThemeManager {
    fn default() -> (m: Self)
        ensures
            m.well_formed(),
            theme_names(m.themes()) == seq!["Corgi Dark"@, "Corgi Light"@, "Corgi Sunset"@, "Pembroke"@],
            m.current_name() == "Corgi Dark"@,
    {
        Self::new()
    }
}

} // verus!
