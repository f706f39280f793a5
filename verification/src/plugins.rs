//! Plugins: their manifests, permissions and the hooks and commands they
//! exchange with the terminal, and the manager that enables and disables
//! them.

use vstd::prelude::*;
use crate::text::str_eq;


verus! {

/// Points at which plugins are called.
#[derive(Debug, Clone, Copy, PartialEq, Eq, Structural)]
pub enum HookPoint {
    /// Before command execution
    PreExecute,
    /// After command execution
    PostExecute,
    /// On terminal output
    OnOutput,
    /// On session start
    OnSessionStart,
    /// On session end
    OnSessionEnd,
}

/// Events plugins can subscribe to.
#[derive(Debug, Clone, PartialEq, Eq)]
pub enum PluginEvent {
    /// Terminal output received
    TerminalOutput { text: String },
    /// Command executed
    CommandExecuted { command: String, exit_code: i32 },
    /// Session created
    SessionCreated { id: String },
    /// Session closed
    SessionClosed { id: String },
    /// Theme changed
    ThemeChanged { name: String },
}

/// Requests a plugin makes of the terminal.
#[derive(Debug, Clone, PartialEq, Eq)]
pub enum TerminalCommand {
    /// Write text to the terminal
    Write { text: String },
    /// Run a shell command
    Execute { command: String },
    /// Get the working directory
    GetCwd,
    /// Get the terminal size
    GetSize,
    /// Get scrollback lines
    GetScrollback { lines: usize },
}

/// Answers of the terminal to a plugin.
#[derive(Debug, Clone, PartialEq, Eq)]
pub enum TerminalResponse {
    /// Success with optional data
    Success { data: Option<String> },
    /// Error with message
    Error { message: String },
    /// Current directory
    Cwd { path: String },
    /// Terminal size
    Size { rows: usize, cols: usize },
    /// Scrollback content
    Scrollback { lines: Vec<String> },
}

/// Requests a plugin makes of the user interface.
#[derive(Debug, Clone, PartialEq, Eq)]
pub enum UiCommand {
    /// Show a notification
    Notify { title: String, message: String },
    /// Show a dialog
    Dialog { title: String, content: String, buttons: Vec<String> },
    /// Add a status bar item
    StatusItem { id: String, text: String },
    /// Remove a status bar item
    RemoveStatusItem { id: String },
}

/// Answers of the user interface to a plugin.
#[derive(Debug, Clone, PartialEq, Eq)]
pub enum UiResponse {
    /// Success
    Success,
    /// Dialog result (button index)
    DialogResult { button: usize },
    /// Error
    Error { message: String },
}

/// What a plugin may do.
#[derive(Debug, Clone, Copy, PartialEq, Eq, Structural)]
pub enum Permission {
    /// Read terminal output
    ReadTerminal,
    /// Write to the terminal
    WriteTerminal,
    /// Run commands
    ExecuteCommands,
    /// Access the file system
    Filesystem,
    /// Network access
    Network,
    /// Access the clipboard
    Clipboard,
    /// Show notifications
    Notifications,
    /// Access configuration
    Configuration,
}

/// Plugin kinds.
#[derive(Debug, Clone, Copy, PartialEq, Eq, Structural)]
pub enum PluginType {
    Wasm,
    Lua,
}

/// A plugin's manifest.
#[derive(Debug, Clone)]
pub struct PluginManifest {
    /// Plugin name
    pub name: String,
    /// Version (semver)
    pub version: String,
    /// Description
    pub description: Option<String>,
    /// Author
    pub author: Option<String>,
    /// Home page URL
    pub homepage: Option<String>,
    /// Plugin kind
    pub plugin_type: PluginType,
    /// Entry point file
    pub entry: String,
    /// Required CorgiTerm version
    pub corgiterm_version: Option<String>,
    /// Permissions required
    pub permissions: Vec<Permission>,
}

/// A loaded plugin.
#[derive(Debug)]
pub struct Plugin {
    /// Its manifest
    pub manifest: PluginManifest,
    /// Its directory
    pub path: String,
    /// Whether it is enabled
    pub enabled: bool,
}

/// The loaded plugins and the directory they come from.
pub struct PluginManager {
    plugins: Vec<Plugin>,
    plugin_dir: String,
}

/// The names of a list of plugins.
pub open spec fn plugin_names(v: Seq<Plugin>) -> Seq<Seq<char>> {
    v.map_values(|p: Plugin| p.manifest.name@)
}

impl PluginManager {
    /// The loaded plugins, in order.
    pub closed spec fn loaded(self) -> Seq<Plugin> {
        self.plugins@
    }

    /// The directory plugins are loaded from.
    pub closed spec fn dir(self) -> Seq<char> {
        self.plugin_dir@
    }

    /// A manager with no plugins, loading from `plugin_dir`.
    pub fn new(plugin_dir: String) -> (m: Self)
        ensures
            m.loaded().len() == 0,
            m.dir() == plugin_dir@,
    {
        PluginManager { plugins: Vec::new(), plugin_dir }
    }

    /// The directory plugins are loaded from.
    pub fn plugin_dir(&self) -> (d: &String)
        ensures
            d@ == self.dir(),
    {
        &self.plugin_dir
    }

    /// Adds a loaded plugin at the end.
    pub fn add(&mut self, plugin: Plugin)
        ensures
            final(self).loaded() == old(self).loaded().push(plugin),
            final(self).dir() == old(self).dir(),
    {
        self.plugins.push(plugin);
    }

    /// The loaded plugins, in order.
    pub fn plugins(&self) -> (p: &[Plugin])
        ensures
            p@ == self.loaded(),
    {
        self.plugins.as_slice()
    }

    /// Sets whether the first plugin named `name` is enabled; whether there
    /// is one.
    fn set_enabled(&mut self, name: &str, enabled: bool) -> (found: bool)
        ensures
            found == plugin_names(old(self).loaded()).contains(name@),
            found ==> exists|i: int|
                0 <= i < old(self).loaded().len() && old(self).loaded()[i].manifest.name@ == name@ && (forall|j: int|
                    0 <= j < i ==> (#[trigger] old(self).loaded()[j]).manifest.name@ != name@) && final(self).loaded()
                    == old(self).loaded().update(
                    i,
                    Plugin { enabled: enabled, ..old(self).loaded()[i] },
                ),
            !found ==> final(self).loaded() == old(self).loaded(),
            final(self).dir() == old(self).dir(),
    {
        let mut i: usize = 0;
        while i < self.plugins.len()
            invariant
                i <= self.plugins@.len(),
                self.plugins@ == old(self).plugins@,
                self.plugin_dir == old(self).plugin_dir,
                forall|j: int| 0 <= j < i ==> (#[trigger] self.plugins@[j]).manifest.name@ != name@,
            decreases self.plugins@.len() - i,
        {
            if str_eq(self.plugins[i].manifest.name.as_str(), name) {
                proof {
                    assert(plugin_names(self.plugins@)[i as int] == name@);
                }
                let ghost before = self.plugins@;
                self.plugins[i].enabled = enabled;
                assert(self.plugins@ =~= before.update(i as int, Plugin { enabled: enabled, ..before[i as int] }));
                return true;
            }
            i = i + 1;
        }
        proof {
            if plugin_names(self.plugins@).contains(name@) {
                let k = choose|k: int| 0 <= k < plugin_names(self.plugins@).len() && plugin_names(self.plugins@)[k] == name@;
                assert(self.plugins@[k].manifest.name@ == name@);
            }
        }
        false
    }

    /// Enables the first plugin named `name`; whether there is one.
    pub fn enable(&mut self, name: &str) -> (found: bool)
        ensures
            found == plugin_names(old(self).loaded()).contains(name@),
            found ==> exists|i: int|
                0 <= i < old(self).loaded().len() && old(self).loaded()[i].manifest.name@ == name@ && (forall|j: int|
                    0 <= j < i ==> (#[trigger] old(self).loaded()[j]).manifest.name@ != name@) && final(self).loaded()
                    == old(self).loaded().update(i, Plugin { enabled: true, ..old(self).loaded()[i] }),
            !found ==> final(self).loaded() == old(self).loaded(),
            final(self).dir() == old(self).dir(),
    {
        self.set_enabled(name, true)
    }

    /// Disables the first plugin named `name`; whether there is one.
    pub fn disable(&mut self, name: &str) -> (found: bool)
        ensures
            found == plugin_names(old(self).loaded()).contains(name@),
            found ==> exists|i: int|
                0 <= i < old(self).loaded().len() && old(self).loaded()[i].manifest.name@ == name@ && (forall|j: int|
                    0 <= j < i ==> (#[trigger] old(self).loaded()[j]).manifest.name@ != name@) && final(self).loaded()
                    == old(self).loaded().update(i, Plugin { enabled: false, ..old(self).loaded()[i] }),
            !found ==> final(self).loaded() == old(self).loaded(),
            final(self).dir() == old(self).dir(),
    {
        self.set_enabled(name, false)
    }
}

/// Whether `semver` accepts a text as a version.
pub uninterp spec fn semver_valid(text: Seq<char>) -> bool;

/// Calls `semver::Version::parse` and reports whether it succeeded.
/// Claimed: the answer is a function of the text (`semver_valid`); the
/// grammar of versions is not stated.
#[verifier::external_body]
fn parses_as_semver(text: &str) -> (b: bool)
    ensures
        b == semver_valid(text@),
{
    semver::Version::parse(text).is_ok()
}

/// Why a manifest is refused, if it is: the first of its name, version
/// and entry point that is empty, else a version that is not a semantic
/// version.
pub open spec fn manifest_problem(name: Seq<char>, version: Seq<char>, entry: Seq<char>) -> Option<Seq<char>> {
    if name.len() == 0 {
        Some("Plugin name is required"@)
    } else if version.len() == 0 {
        Some("Plugin version is required"@)
    } else if entry.len() == 0 {
        Some("Plugin entry point is required"@)
    } else if !semver_valid(version) {
        Some("Plugin version must be valid semver"@)
    } else {
        None
    }
}

/// Checks a plugin manifest: a name, a version and an entry point are
/// required, and the version must be a semantic version.
pub fn validate_manifest(manifest: &PluginManifest) -> (r: Result<(), String>)
    ensures
        match r {
            Ok(()) => manifest_problem(manifest.name@, manifest.version@, manifest.entry@) is None,
            Err(e) => manifest_problem(manifest.name@, manifest.version@, manifest.entry@) == Some(e@),
        },
{
    if manifest.name.as_str().is_empty() {
        return Err("Plugin name is required".to_owned());
    }
    if manifest.version.as_str().is_empty() {
        return Err("Plugin version is required".to_owned());
    }
    if manifest.entry.as_str().is_empty() {
        return Err("Plugin entry point is required".to_owned());
    }
    if !parses_as_semver(manifest.version.as_str()) {
        return Err("Plugin version must be valid semver".to_owned());
    }
    Ok(())
}

} // verus!
