//! Settings: the sections of the configuration that hold no fractional
//! numbers, with their defaults.

use vstd::prelude::*;

verus! {

/// General application settings.
#[derive(Debug, Clone)]
pub struct GeneralConfig {
    /// Default shell
    pub shell: String,
    /// Starting directory
    pub working_directory: String,
    /// Check for updates
    pub check_updates: bool,
    /// Send anonymous usage statistics
    pub telemetry: bool,
    /// Language/locale
    pub language: String,
    /// Show welcome screen on first launch
    pub show_welcome: bool,
    /// Confirm before closing with active sessions
    pub confirm_close: bool,
    /// Restore sessions on startup
    pub restore_sessions: bool,
}

impl GeneralConfig {
    /// The defaults for a user whose `SHELL` variable is `shell_var` and
    /// whose home directory is `home`: that shell (`/bin/bash` when unset),
    /// starting in that directory (`/` when unknown), in English, checking
    /// for updates, without telemetry.
    pub fn from_environment(shell_var: Option<String>, home: Option<String>) -> (c: Self)
        ensures
            c.shell@ == match shell_var {
                Some(s) => s@,
                None => "/bin/bash"@,
            },
            c.working_directory@ == match home {
                Some(h) => h@,
                None => "/"@,
            },
            c.check_updates && !c.telemetry,
            c.language@ == "en"@,
            c.show_welcome && c.confirm_close && c.restore_sessions,
    {
        GeneralConfig {
            shell: match shell_var {
                Some(s) => s,
                None => "/bin/bash".to_owned(),
            },
            working_directory: match home {
                Some(h) => h,
                None => "/".to_owned(),
            },
            check_updates: true,
            telemetry: false,
            language: "en".to_owned(),
            show_welcome: true,
            confirm_close: true,
            restore_sessions: true,
        }
    }
}

/// Cursor styles.
#[derive(Debug, Clone, Copy, PartialEq, Eq, Structural)]
pub enum CursorStyle {
    Block,
    Underline,
    Bar,
    Hollow,
}

/// Window decoration styles.
#[derive(Debug, Clone, Copy, PartialEq, Eq, Structural)]
pub enum WindowDecorations {
    Full,
    /// No decorations at all
    NoDecorations,
    Transparent,
    Custom,
}

/// Tab bar position.
#[derive(Debug, Clone, Copy, PartialEq, Eq, Structural)]
pub enum TabPosition {
    Top,
    Bottom,
    Hidden,
}

/// Sidebar position.
#[derive(Debug, Clone, Copy, PartialEq, Eq, Structural)]
pub enum SidebarPosition {
    Left,
    Right,
}

/// Padding around the terminal, in pixels.
#[derive(Debug, Clone, Copy, PartialEq, Eq, Structural)]
pub struct Padding {
    pub top: u32,
    pub bottom: u32,
    pub left: u32,
    pub right: u32,
}

impl Default for Padding {
    /// 8 pixels on every side.
    fn default() -> (p: Self)
        ensures
            p == (Padding { top: 8, bottom: 8, left: 8, right: 8 }),
    {
        Padding { top: 8, bottom: 8, left: 8, right: 8 }
    }
}

/// Bell notification style.
#[derive(Debug, Clone, Copy, PartialEq, Eq, Structural)]
pub enum BellStyle {
    /// No bell at all
    Off,
    Visual,
    Audible,
    Both,
}

/// When to close a tab whose shell exits.
#[derive(Debug, Clone, Copy, PartialEq, Eq, Structural)]
pub enum CloseOnExit {
    Always,
    Never,
    /// Only if the exit code is 0
    IfClean,
}

/// Terminal behavior settings.
#[derive(Debug, Clone)]
pub struct TerminalConfig {
    /// Scrollback lines
    pub scrollback_lines: usize,
    /// Scroll on output
    pub scroll_on_output: bool,
    /// Scroll on keystroke
    pub scroll_on_keystroke: bool,
    /// Mouse reporting
    pub mouse_reporting: bool,
    /// Copy on select
    pub copy_on_select: bool,
    /// Paste on middle click
    pub paste_on_middle_click: bool,
    /// Bell style
    pub bell_style: BellStyle,
    /// Bell audio file (if audible)
    pub bell_audio: Option<String>,
    /// Word separators for double-click selection
    pub word_separators: String,
    /// Enable hyperlinks
    pub hyperlinks: bool,
    /// Enable bracketed paste
    pub bracketed_paste: bool,
    /// Environment variables to set
    pub env: Vec<(String, String)>,
    /// TERM environment variable
    pub term: String,
    /// Close tab on exit
    pub close_on_exit: CloseOnExit,
}

impl Default for TerminalConfig {
    fn default() -> (c: Self)
        ensures
            c.scrollback_lines == 10000,
            !c.scroll_on_output && c.scroll_on_keystroke && c.mouse_reporting,
            !c.copy_on_select && c.paste_on_middle_click,
            c.bell_style == BellStyle::Visual,
            c.bell_audio is None,
            c.word_separators@ == " \t\n{}[]()\"'`,;:"@,
            c.hyperlinks && c.bracketed_paste,
            c.env@.len() == 0,
            c.term@ == "xterm-256color"@,
            c.close_on_exit == CloseOnExit::IfClean,
    {
        TerminalConfig {
            scrollback_lines: 10000,
            scroll_on_output: false,
            scroll_on_keystroke: true,
            mouse_reporting: true,
            copy_on_select: false,
            paste_on_middle_click: true,
            bell_style: BellStyle::Visual,
            bell_audio: None,
            word_separators: " \t\n{}[]()\"'`,;:".to_owned(),
            hyperlinks: true,
            bracketed_paste: true,
            env: Vec::new(),
            term: "xterm-256color".to_owned(),
            close_on_exit: CloseOnExit::IfClean,
        }
    }
}

/// A single keybinding.
#[derive(Debug, Clone)]
pub struct Keybinding {
    pub key: String,
    pub mods: Vec<String>,
    pub action: String,
}

/// Configurable keyboard shortcuts.
#[derive(Debug, Clone)]
pub struct ShortcutsConfig {
    pub new_tab: Option<String>,
    pub close_tab: Option<String>,
    pub next_tab: Option<String>,
    pub prev_tab: Option<String>,
    pub new_document_tab: Option<String>,
    pub switch_to_tab_1: Option<String>,
    pub switch_to_tab_2: Option<String>,
    pub switch_to_tab_3: Option<String>,
    pub switch_to_tab_4: Option<String>,
    pub switch_to_tab_5: Option<String>,
    pub switch_to_tab_6: Option<String>,
    pub switch_to_tab_7: Option<String>,
    pub switch_to_tab_8: Option<String>,
    pub switch_to_tab_9: Option<String>,
    pub split_horizontal: Option<String>,
    pub split_vertical: Option<String>,
    pub close_pane: Option<String>,
    pub focus_next_pane: Option<String>,
    pub focus_prev_pane: Option<String>,
    pub toggle_ai: Option<String>,
    pub quick_switcher: Option<String>,
    pub ssh_manager: Option<String>,
    pub snippets: Option<String>,
    pub ascii_art: Option<String>,
    pub open_file: Option<String>,
    pub quit: Option<String>,
}

/// Whether an optional text is the text `t`.
pub open spec fn is_some_text(o: Option<String>, t: Seq<char>) -> bool {
    match o {
        Some(s) => s@ == t,
        None => false,
    }
}

fn text(t: &str) -> (r: Option<String>)
    ensures
        is_some_text(r, t@),
{
    Some(t.to_owned())
}

impl Default for ShortcutsConfig {
    fn default() -> (c: Self)
        ensures
            is_some_text(c.new_tab, "Ctrl+T"@),
            is_some_text(c.close_tab, "Ctrl+W"@),
            is_some_text(c.next_tab, "Ctrl+Tab"@),
            is_some_text(c.prev_tab, "Ctrl+Shift+Tab"@),
            is_some_text(c.new_document_tab, "Ctrl+O"@),
            is_some_text(c.switch_to_tab_1, "Ctrl+1"@),
            is_some_text(c.switch_to_tab_2, "Ctrl+2"@),
            is_some_text(c.switch_to_tab_3, "Ctrl+3"@),
            is_some_text(c.switch_to_tab_4, "Ctrl+4"@),
            is_some_text(c.switch_to_tab_5, "Ctrl+5"@),
            is_some_text(c.switch_to_tab_6, "Ctrl+6"@),
            is_some_text(c.switch_to_tab_7, "Ctrl+7"@),
            is_some_text(c.switch_to_tab_8, "Ctrl+8"@),
            is_some_text(c.switch_to_tab_9, "Ctrl+9"@),
            is_some_text(c.split_horizontal, "Ctrl+Shift+H"@),
            is_some_text(c.split_vertical, "Ctrl+Shift+D"@),
            is_some_text(c.close_pane, "Ctrl+Shift+W"@),
            is_some_text(c.focus_next_pane, "Ctrl+Shift+]"@),
            is_some_text(c.focus_prev_pane, "Ctrl+Shift+["@),
            is_some_text(c.toggle_ai, "Ctrl+Shift+A"@),
            is_some_text(c.quick_switcher, "Ctrl+K"@),
            is_some_text(c.ssh_manager, "Ctrl+S"@),
            is_some_text(c.snippets, "Ctrl+Shift+S"@),
            is_some_text(c.ascii_art, "Ctrl+Shift+G"@),
            is_some_text(c.open_file, "Ctrl+Shift+O"@),
            is_some_text(c.quit, "Ctrl+Q"@),
    {
        ShortcutsConfig {
            new_tab: text("Ctrl+T"),
            close_tab: text("Ctrl+W"),
            next_tab: text("Ctrl+Tab"),
            prev_tab: text("Ctrl+Shift+Tab"),
            new_document_tab: text("Ctrl+O"),
            switch_to_tab_1: text("Ctrl+1"),
            switch_to_tab_2: text("Ctrl+2"),
            switch_to_tab_3: text("Ctrl+3"),
            switch_to_tab_4: text("Ctrl+4"),
            switch_to_tab_5: text("Ctrl+5"),
            switch_to_tab_6: text("Ctrl+6"),
            switch_to_tab_7: text("Ctrl+7"),
            switch_to_tab_8: text("Ctrl+8"),
            switch_to_tab_9: text("Ctrl+9"),
            split_horizontal: text("Ctrl+Shift+H"),
            split_vertical: text("Ctrl+Shift+D"),
            close_pane: text("Ctrl+Shift+W"),
            focus_next_pane: text("Ctrl+Shift+]"),
            focus_prev_pane: text("Ctrl+Shift+["),
            toggle_ai: text("Ctrl+Shift+A"),
            quick_switcher: text("Ctrl+K"),
            ssh_manager: text("Ctrl+S"),
            snippets: text("Ctrl+Shift+S"),
            ascii_art: text("Ctrl+Shift+G"),
            open_file: text("Ctrl+Shift+O"),
            quit: text("Ctrl+Q"),
        }
    }
}

/// Keyboard settings: custom bindings and the configurable shortcuts.
#[derive(Debug, Clone)]
pub struct KeybindingsConfig {
    /// Custom keybindings
    pub bindings: Vec<Keybinding>,
    /// Configurable shortcuts
    pub shortcuts: ShortcutsConfig,
}

impl Default for KeybindingsConfig {
    fn default() -> (c: Self)
        ensures
            c.bindings@.len() == 0,
            is_some_text(c.shortcuts.new_tab, "Ctrl+T"@),
            is_some_text(c.shortcuts.quit, "Ctrl+Q"@),
    {
        KeybindingsConfig { bindings: Vec::new(), shortcuts: ShortcutsConfig::default() }
    }
}

/// Command learning settings.
#[derive(Debug, Clone)]
pub struct LearningConfig {
    /// Enable command learning
    pub enabled: bool,
    /// Maximum history size for learning
    pub max_history: usize,
    /// Minimum pattern frequency for detection
    pub min_pattern_frequency: usize,
    /// Maximum pattern length
    pub max_pattern_length: usize,
    /// Learning window size (number of recent commands)
    pub window_size: usize,
    /// Auto-detect user preferences (e.g., exa vs ls)
    pub detect_preferences: bool,
    /// Suggest next command based on patterns
    pub suggest_next: bool,
    /// Show directory-specific suggestions
    pub directory_suggestions: bool,
    /// Privacy: opt out of learning
    pub opt_out: bool,
    /// Path to learning data file
    pub data_path: Option<String>,
}

impl Default for LearningConfig {
    fn default() -> (c: Self)
        ensures
            c.enabled,
            c.max_history == 10000,
            c.min_pattern_frequency == 3,
            c.max_pattern_length == 5,
            c.window_size == 100,
            c.detect_preferences && c.suggest_next && c.directory_suggestions,
            !c.opt_out,
            c.data_path is None,
    {
        LearningConfig {
            enabled: true,
            max_history: 10000,
            min_pattern_frequency: 3,
            max_pattern_length: 5,
            window_size: 100,
            detect_preferences: true,
            suggest_next: true,
            directory_suggestions: true,
            opt_out: false,
            data_path: None,
        }
    }
}

/// OpenAI settings.
#[derive(Debug, Clone)]
pub struct OpenAiConfig {
    pub api_key: Option<String>,
    pub model: String,
}

impl Default for OpenAiConfig {
    fn default() -> (c: Self)
        ensures
            c.api_key is None,
            c.model@ == "gpt-4o"@,
    {
        OpenAiConfig { api_key: None, model: "gpt-4o".to_owned() }
    }
}

/// Gemini settings.
#[derive(Debug, Clone)]
pub struct GeminiConfig {
    pub api_key: Option<String>,
    pub model: String,
}

impl Default for GeminiConfig {
    fn default() -> (c: Self)
        ensures
            c.api_key is None,
            c.model@ == "gemini-2.0-flash"@,
    {
        GeminiConfig { api_key: None, model: "gemini-2.0-flash".to_owned() }
    }
}

/// Local model settings.
#[derive(Debug, Clone)]
pub struct LocalLlmConfig {
    pub enabled: bool,
    pub endpoint: String,
    pub model: String,
}

impl Default for LocalLlmConfig {
    /// Enabled (a local server is detected when running), at Ollama's
    /// standard address, with a model for command generation.
    fn default() -> (c: Self)
        ensures
            c.enabled,
            c.endpoint@ == "http://localhost:11434"@,
            c.model@ == "codellama"@,
    {
        LocalLlmConfig { enabled: true, endpoint: "http://localhost:11434".to_owned(), model: "codellama".to_owned() }
    }
}

/// Where the AI panel sits.
#[derive(Debug, Clone, Copy, PartialEq, Eq, Structural)]
pub enum AiPanelPosition {
    Left,
    Right,
    Bottom,
    Float,
}

/// Safe Mode settings.
#[derive(Debug, Clone)]
pub struct SafeModeConfig {
    /// Enable Safe Mode
    pub enabled: bool,
    /// Show preview for all commands
    pub preview_all: bool,
    /// Only preview dangerous commands
    pub preview_dangerous_only: bool,
    /// Use AI for explanations
    pub ai_explanations: bool,
    /// Custom dangerous patterns
    pub dangerous_patterns: Vec<String>,
    /// Custom safe patterns
    pub safe_patterns: Vec<String>,
}

impl Default for SafeModeConfig {
    fn default() -> (c: Self)
        ensures
            !c.enabled && !c.preview_all,
            c.preview_dangerous_only && c.ai_explanations,
            c.dangerous_patterns@.len() == 0 && c.safe_patterns@.len() == 0,
    {
        SafeModeConfig {
            enabled: false,
            preview_all: false,
            preview_dangerous_only: true,
            ai_explanations: true,
            dangerous_patterns: Vec::new(),
            safe_patterns: Vec::new(),
        }
    }
}

/// Session settings.
#[derive(Debug, Clone)]
pub struct SessionsConfig {
    /// Default session name
    pub default_name: String,
    /// Auto-rename based on running process
    pub auto_rename: bool,
    /// Show process in tab title
    pub show_process: bool,
    /// Show working directory in tab title
    pub show_cwd: bool,
    /// Maximum sessions per project
    pub max_per_project: usize,
    /// Warn before closing multiple sessions
    pub warn_multiple_close: bool,
}

impl Default for SessionsConfig {
    fn default() -> (c: Self)
        ensures
            c.default_name@ == "Terminal"@,
            c.auto_rename && c.show_process && c.show_cwd,
            c.max_per_project == 50,
            c.warn_multiple_close,
    {
        SessionsConfig {
            default_name: "Terminal".to_owned(),
            auto_rename: true,
            show_process: true,
            show_cwd: true,
            max_per_project: 50,
            warn_multiple_close: true,
        }
    }
}

/// Performance settings.
#[derive(Debug, Clone, Copy, PartialEq, Eq, Structural)]
pub struct PerformanceConfig {
    /// Enable GPU rendering
    pub gpu_rendering: bool,
    /// Target frame rate
    pub target_fps: u32,
    /// VSync
    pub vsync: bool,
    /// Batch size for text rendering
    pub text_batch_size: usize,
    /// Enable render caching
    pub render_cache: bool,
    /// Maximum cached frames
    pub cache_frames: usize,
}

impl Default for PerformanceConfig {
    fn default() -> (c: Self)
        ensures
            c == (PerformanceConfig {
                gpu_rendering: true,
                target_fps: 60,
                vsync: true,
                text_batch_size: 1024,
                render_cache: true,
                cache_frames: 3,
            }),
    {
        PerformanceConfig {
            gpu_rendering: true,
            target_fps: 60,
            vsync: true,
            text_batch_size: 1024,
            render_cache: true,
            cache_frames: 3,
        }
    }
}

/// Advanced and experimental settings.
#[derive(Debug, Clone)]
pub struct AdvancedConfig {
    /// Enable debug mode
    pub debug: bool,
    /// Log level
    pub log_level: String,
    /// Log file path
    pub log_file: Option<String>,
    /// Enable experimental features
    pub experimental: bool,
    /// Custom CSS path
    pub custom_css: Option<String>,
    /// Plugin directory
    pub plugin_dir: Option<String>,
    /// IPC socket path
    pub ipc_socket: Option<String>,
}

impl Default for AdvancedConfig {
    fn default() -> (c: Self)
        ensures
            !c.debug && !c.experimental,
            c.log_level@ == "info"@,
            c.log_file is None && c.custom_css is None && c.plugin_dir is None && c.ipc_socket is None,
    {
        AdvancedConfig {
            debug: false,
            log_level: "info".to_owned(),
            log_file: None,
            experimental: false,
            custom_css: None,
            plugin_dir: None,
            ipc_socket: None,
        }
    }
}

} // verus!
