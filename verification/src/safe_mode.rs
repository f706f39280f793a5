//! Safe Mode: a preview of what a command will do before it runs, with a
//! risk level, explanations, an undo hint and safer alternatives.

use vstd::prelude::*;
use crate::text::{
    chars_of, contains_chars, contains_seq, is_ws, replace_all, replace_chars, split_whitespace_chars,
    starts_with, starts_with_chars, str_eq, string_from_chars, ws_words, append_str,
};

verus! {

/// Risk level of a command.
#[derive(Debug, Clone, Copy, PartialEq, Eq, Structural)]
pub enum RiskLevel {
    /// Read-only or easily reversible
    Safe,
    /// Makes changes but can be undone
    Caution,
    /// Destructive or hard to reverse
    Danger,
    /// The risk could not be determined
    Unknown,
}

impl RiskLevel {
    /// The symbol shown beside the level.
    pub fn emoji(&self) -> (s: &'static str)
        ensures
            s@ == match *self {
                RiskLevel::Safe => "✅"@,
                RiskLevel::Caution => "⚠️"@,
                RiskLevel::Danger => "🚨"@,
                RiskLevel::Unknown => "❓"@,
            },
    {
        match self {
            RiskLevel::Safe => "✅",
            RiskLevel::Caution => "⚠️",
            RiskLevel::Danger => "🚨",
            RiskLevel::Unknown => "❓",
        }
    }

    /// The level's name in capitals.
    pub fn label(&self) -> (s: &'static str)
        ensures
            s@ == match *self {
                RiskLevel::Safe => "SAFE"@,
                RiskLevel::Caution => "CAUTION"@,
                RiskLevel::Danger => "DANGER"@,
                RiskLevel::Unknown => "UNKNOWN"@,
            },
    {
        match self {
            RiskLevel::Safe => "SAFE",
            RiskLevel::Caution => "CAUTION",
            RiskLevel::Danger => "DANGER",
            RiskLevel::Unknown => "UNKNOWN",
        }
    }
}

/// A safer alternative to a command.
#[derive(Debug, Clone)]
pub struct CommandAlternative {
    pub command: String,
    pub description: String,
    pub risk: RiskLevel,
}

/// The preview of a command.
#[derive(Debug, Clone)]
pub struct CommandPreview {
    /// The command
    pub command: String,
    /// Risk assessment
    pub risk: RiskLevel,
    /// Human-readable explanation
    pub explanation: Vec<String>,
    /// Files that will be affected
    pub affected_files: Vec<String>,
    /// Number of affected items
    pub affected_count: Option<usize>,
    /// Estimated size of the affected data
    pub affected_size: Option<u64>,
    /// Suggested undo command
    pub undo_hint: Option<String>,
    /// Whether this needs sudo
    pub needs_sudo: bool,
    /// Whether network access is required
    pub network_access: bool,
    /// Safer alternatives
    pub alternatives: Vec<CommandAlternative>,
}

/// A pattern of dangerous commands.
#[derive(Debug, Clone, Copy)]
pub struct DangerPattern {
    /// The regular expression
    pub pattern: &'static str,
    /// The risk of a matching command
    pub risk: RiskLevel,
    /// What a matching command does
    pub explanation: &'static str,
    /// How to undo it, if there is a way
    pub undo_hint: Option<&'static str>,
}

/// Whether `pattern`, compiled by the `regex` crate, matches somewhere in
/// `text` (false for a pattern that does not compile).
pub uninterp spec fn regex_is_match(pattern: Seq<char>, text: Seq<char>) -> bool;

/// Compiles `pattern` with `Regex::new` and calls `Regex::is_match` on
/// `text`; false where the pattern does not compile. Claimed: the answer
/// is a function of the pattern and the text (`regex_is_match`).
#[verifier::external_body]
fn is_match(pattern: &str, text: &str) -> (b: bool)
    ensures
        b == regex_is_match(pattern@, text@),
{
    match regex::Regex::new(pattern) {
        Ok(re) => re.is_match(text),
        Err(_) => false,
    }
}

/// How severe a risk is: danger above caution above the rest.
pub open spec fn severity(r: RiskLevel) -> int {
    match r {
        RiskLevel::Danger => 2,
        RiskLevel::Caution => 1,
        _ => 0,
    }
}

/// How severe a risk is.
pub fn severity_of(r: RiskLevel) -> (n: u8)
    ensures
        n == severity(r),
{
    match r {
        RiskLevel::Danger => 2,
        RiskLevel::Caution => 1,
        _ => 0,
    }
}

/// The most severe risk of the patterns that match (the first of equally
/// severe ones), or `Unknown`.
pub open spec fn danger_risk(pats: Seq<DangerPattern>, cmd: Seq<char>) -> RiskLevel
    decreases pats.len(),
{
    if pats.len() == 0 {
        RiskLevel::Unknown
    } else {
        let r = danger_risk(pats.drop_last(), cmd);
        if regex_is_match(pats.last().pattern@, cmd) && severity(pats.last().risk) > severity(r) {
            pats.last().risk
        } else {
            r
        }
    }
}

/// One matching dangerous pattern is enough to make a command dangerous,
/// whatever the other patterns say, unless it starts with a safe prefix.
pub proof fn law_danger_pattern_decides(pats: Seq<DangerPattern>, safe: Seq<&'static str>, cmd: Seq<char>, i: int)
    requires
        0 <= i < pats.len(),
        regex_is_match(pats[i].pattern@, cmd),
        pats[i].risk == RiskLevel::Danger,
    ensures
        danger_risk(pats, cmd) == RiskLevel::Danger,
        !starts_with_any(cmd, safe) ==> risk_of(pats, safe, cmd) == RiskLevel::Danger,
    decreases pats.len(),
{
    if i < pats.len() - 1 {
        assert(pats.drop_last()[i] == pats[i]);
        law_danger_pattern_decides(pats.drop_last(), safe, cmd, i);
    }
}

/// The explanations of the patterns that match, in order.
pub open spec fn danger_notes(pats: Seq<DangerPattern>, cmd: Seq<char>) -> Seq<Seq<char>>
    decreases pats.len(),
{
    if pats.len() == 0 {
        Seq::empty()
    } else if regex_is_match(pats.last().pattern@, cmd) {
        danger_notes(pats.drop_last(), cmd).push(pats.last().explanation@)
    } else {
        danger_notes(pats.drop_last(), cmd)
    }
}

/// The undo hint of the last matching pattern that has one.
pub open spec fn danger_undo(pats: Seq<DangerPattern>, cmd: Seq<char>) -> Option<Seq<char>>
    decreases pats.len(),
{
    if pats.len() == 0 {
        None
    } else if regex_is_match(pats.last().pattern@, cmd) && pats.last().undo_hint is Some {
        Some(pats.last().undo_hint->0@)
    } else {
        danger_undo(pats.drop_last(), cmd)
    }
}

/// Whether `cmd` starts with one of `prefixes`.
pub open spec fn starts_with_any(cmd: Seq<char>, prefixes: Seq<&'static str>) -> bool {
    exists|i: int| 0 <= i < prefixes.len() && starts_with(cmd, (#[trigger] prefixes[i])@)
}

/// The risk of a command that no pattern settles: changing or installing
/// things, or running as root, calls for caution.
pub open spec fn inferred_risk(cmd: Seq<char>) -> RiskLevel {
    if contains_seq(cmd, "mv "@) || contains_seq(cmd, "cp "@) {
        RiskLevel::Caution
    } else if contains_seq(cmd, "install"@) || contains_seq(cmd, "apt"@) || contains_seq(cmd, "dnf"@)
        || contains_seq(cmd, "yum"@) {
        RiskLevel::Caution
    } else if starts_with(cmd, "sudo"@) {
        RiskLevel::Caution
    } else {
        RiskLevel::Unknown
    }
}

/// A command that no safe prefix and no dangerous pattern settles calls
/// for caution when it moves or copies files (`mv `, `cp `), installs
/// packages (`install`, `apt`, `dnf`, `yum`) or runs under `sudo`; any
/// other such command is of unknown risk. Inference never rates a command
/// safe or dangerous.
pub proof fn law_unsettled_commands(pats: Seq<DangerPattern>, safe: Seq<&'static str>, cmd: Seq<char>)
    requires
        !starts_with_any(cmd, safe),
        danger_risk(pats, cmd) == RiskLevel::Unknown,
    ensures
        contains_seq(cmd, "mv "@) ==> risk_of(pats, safe, cmd) == RiskLevel::Caution,
        contains_seq(cmd, "cp "@) ==> risk_of(pats, safe, cmd) == RiskLevel::Caution,
        contains_seq(cmd, "install"@) || contains_seq(cmd, "apt"@) || contains_seq(cmd, "dnf"@)
            || contains_seq(cmd, "yum"@) ==> risk_of(pats, safe, cmd) == RiskLevel::Caution,
        starts_with(cmd, "sudo"@) ==> risk_of(pats, safe, cmd) == RiskLevel::Caution,
        !(contains_seq(cmd, "mv "@) || contains_seq(cmd, "cp "@) || contains_seq(cmd, "install"@)
            || contains_seq(cmd, "apt"@) || contains_seq(cmd, "dnf"@) || contains_seq(cmd, "yum"@)
            || starts_with(cmd, "sudo"@)) ==> risk_of(pats, safe, cmd) == RiskLevel::Unknown,
        inferred_risk(cmd) == RiskLevel::Caution || inferred_risk(cmd) == RiskLevel::Unknown,
{
}

/// Whether a command reaches the network.
pub open spec fn uses_network(cmd: Seq<char>) -> bool {
    contains_seq(cmd, "curl"@) || contains_seq(cmd, "wget"@) || contains_seq(cmd, "ssh"@) || contains_seq(
        cmd,
        "scp"@,
    ) || contains_seq(cmd, "npm"@) || contains_seq(cmd, "pip"@)
}

/// The views of a list of alternatives: command, description, risk.
pub open spec fn alternative_views(v: Seq<CommandAlternative>) -> Seq<(Seq<char>, Seq<char>, RiskLevel)> {
    v.map_values(|a: CommandAlternative| (a.command@, a.description@, a.risk))
}

/// The safer alternatives to a command: moving to the trash instead of
/// `rm `, and the interactive `rm -ri` instead of `rm -rf`.
pub open spec fn alternatives_for(cmd: Seq<char>) -> Seq<(Seq<char>, Seq<char>, RiskLevel)> {
    let a: Seq<(Seq<char>, Seq<char>, RiskLevel)> = if contains_seq(cmd, "rm "@) {
        seq![(replace_all(cmd, "rm "@, "trash-put "@), "Move to trash instead (recoverable)"@, RiskLevel::Safe)]
    } else {
        Seq::empty()
    };
    if contains_seq(cmd, "rm -rf"@) {
        a.push((replace_all(cmd, "rm -rf"@, "rm -ri"@), "Interactive mode - confirm each file"@, RiskLevel::Caution))
    } else {
        a
    }
}

/// The risk of a command: a safe prefix makes it safe, else the most
/// severe matching pattern decides, else it is inferred.
pub open spec fn risk_of(pats: Seq<DangerPattern>, safe: Seq<&'static str>, cmd: Seq<char>) -> RiskLevel {
    if starts_with_any(cmd, safe) {
        RiskLevel::Safe
    } else if danger_risk(pats, cmd) != RiskLevel::Unknown {
        danger_risk(pats, cmd)
    } else {
        inferred_risk(cmd)
    }
}

/// The explanations of a command.
pub open spec fn notes_of(pats: Seq<DangerPattern>, safe: Seq<&'static str>, cmd: Seq<char>) -> Seq<Seq<char>> {
    if starts_with_any(cmd, safe) {
        seq!["This is a safe, read-only command"@]
    } else {
        danger_notes(pats, cmd)
    }
}

/// Where a path given on a command line points from `cwd`: itself when it
/// is absolute, else under `cwd`.
pub open spec fn joined(cwd: Seq<char>, part: Seq<char>) -> Seq<char> {
    if starts_with(part, "/"@) {
        part
    } else if cwd.len() == 0 || cwd.last() == '/' {
        cwd + part
    } else {
        cwd + "/"@ + part
    }
}

/// The paths that `rm`, `mv` or `cp` would touch: each argument that is
/// not an option, joined to `cwd`; none for other commands.
pub open spec fn candidate_paths(cmd: Seq<char>, cwd: Seq<char>) -> Seq<Seq<char>> {
    let parts = ws_words(cmd);
    if parts.len() > 0 && (parts[0] == "rm"@ || parts[0] == "mv"@ || parts[0] == "cp"@) {
        parts.skip(1).filter(|p: Seq<char>| !starts_with(p, "-"@)).map_values(|p: Seq<char>| joined(cwd, p))
    } else {
        Seq::empty()
    }
}

/// The patterns of dangerous commands, in the order they are checked.
pub open spec fn danger_table() -> Seq<DangerPattern> {
    seq![
        DangerPattern { pattern: RM_ROOT, risk: RiskLevel::Danger, explanation: RM_ROOT_NOTE, undo_hint: None },
        DangerPattern { pattern: RM_RF, risk: RiskLevel::Caution, explanation: RM_RF_NOTE, undo_hint: Some(RM_RF_UNDO) },
        DangerPattern { pattern: RM, risk: RiskLevel::Caution, explanation: RM_NOTE, undo_hint: Some(RM_UNDO) },
        DangerPattern { pattern: CHMOD_777, risk: RiskLevel::Danger, explanation: CHMOD_777_NOTE, undo_hint: None },
        DangerPattern { pattern: FORK_BOMB, risk: RiskLevel::Danger, explanation: FORK_BOMB_NOTE, undo_hint: None },
        DangerPattern { pattern: DD, risk: RiskLevel::Danger, explanation: DD_NOTE, undo_hint: None },
        DangerPattern { pattern: MKFS, risk: RiskLevel::Danger, explanation: MKFS_NOTE, undo_hint: None },
        DangerPattern { pattern: DEV_WRITE, risk: RiskLevel::Danger, explanation: DEV_WRITE_NOTE, undo_hint: None },
        DangerPattern { pattern: FORCE_PUSH, risk: RiskLevel::Caution, explanation: FORCE_PUSH_NOTE, undo_hint: Some(FORCE_PUSH_UNDO) },
        DangerPattern { pattern: HARD_RESET, risk: RiskLevel::Caution, explanation: HARD_RESET_NOTE, undo_hint: Some(HARD_RESET_UNDO) },
    ]
}

pub const RM_ROOT: &'static str = r"rm\s+-rf?\s+/";
pub const RM_ROOT_NOTE: &'static str = "Recursively removes files from the root directory - EXTREMELY DANGEROUS";
pub const RM_RF: &'static str = r"rm\s+-rf";
pub const RM_RF_NOTE: &'static str = "Recursively removes files and directories without confirmation";
pub const RM_RF_UNDO: &'static str = "Files cannot be recovered - consider using trash-cli instead";
pub const RM: &'static str = r"rm\s";
pub const RM_NOTE: &'static str = "Removes files - they will be permanently deleted";
pub const RM_UNDO: &'static str = "Consider: trash-put <file> (recoverable)";
pub const CHMOD_777: &'static str = r"chmod\s+-R\s+777";
pub const CHMOD_777_NOTE: &'static str = "Makes all files world-readable/writable - security risk";
pub const FORK_BOMB: &'static str = r":\(\)\s*\{\s*:\|:\s*&\s*\};:";
pub const FORK_BOMB_NOTE: &'static str = "Fork bomb - will crash your system";
pub const DD: &'static str = r"dd\s+if=";
pub const DD_NOTE: &'static str = "Low-level disk write - can overwrite entire drives";
pub const MKFS: &'static str = r"mkfs";
pub const MKFS_NOTE: &'static str = "Formats a filesystem - all data will be lost";
pub const DEV_WRITE: &'static str = r">\s*/dev/";
pub const DEV_WRITE_NOTE: &'static str = "Writing directly to device - can corrupt data";
pub const FORCE_PUSH: &'static str = r"git\s+push\s+(-f|--force)";
pub const FORCE_PUSH_NOTE: &'static str = "Force pushing can overwrite remote history";
pub const FORCE_PUSH_UNDO: &'static str = "git reflog to find lost commits";
pub const HARD_RESET: &'static str = r"git\s+reset\s+--hard";
pub const HARD_RESET_NOTE: &'static str = "Discards all uncommitted changes";
pub const HARD_RESET_UNDO: &'static str = "git reflog to recover";

/// The prefixes of read-only commands, in the order they are checked.
pub open spec fn safe_table() -> Seq<&'static str> {
    seq![
        "ls", "pwd", "echo", "cat", "less", "head", "tail", "grep", "find", "which", "whereis", "man",
        "help", "type", "file", "stat", "wc", "diff", "git status", "git log", "git diff", "git branch",
        "git show", "ps", "top", "htop", "df", "du", "free", "uptime", "whoami", "date", "cal", "env",
        "printenv",
    ]
}

/// The Safe Mode analyzer.
pub struct SafeMode {
    dangerous_patterns: Vec<DangerPattern>,
    safe_patterns: Vec<&'static str>,
    /// Whether Safe Mode is enabled
    pub enabled: bool,
    ai_enabled: bool,
}

impl SafeMode {
    /// The dangerous-command patterns, in order.
    pub closed spec fn patterns(self) -> Seq<DangerPattern> {
        self.dangerous_patterns@
    }

    /// The read-only command prefixes, in order.
    pub closed spec fn safe_prefixes(self) -> Seq<&'static str> {
        self.safe_patterns@
    }

    /// Whether Safe Mode is on.
    pub closed spec fn on(self) -> bool {
        self.enabled
    }

    /// Whether explanations may come from the AI assistant.
    pub closed spec fn ai(self) -> bool {
        self.ai_enabled
    }

    /// The analyzer with the built-in patterns, disabled.
    pub fn new() -> (s: Self)
        ensures
            s.patterns() == danger_table(),
            s.safe_prefixes() == safe_table(),
            !s.on(),
            !s.ai(),
    {
        let pats = vec![
            DangerPattern { pattern: RM_ROOT, risk: RiskLevel::Danger, explanation: RM_ROOT_NOTE, undo_hint: None },
            DangerPattern { pattern: RM_RF, risk: RiskLevel::Caution, explanation: RM_RF_NOTE, undo_hint: Some(RM_RF_UNDO) },
            DangerPattern { pattern: RM, risk: RiskLevel::Caution, explanation: RM_NOTE, undo_hint: Some(RM_UNDO) },
            DangerPattern { pattern: CHMOD_777, risk: RiskLevel::Danger, explanation: CHMOD_777_NOTE, undo_hint: None },
            DangerPattern { pattern: FORK_BOMB, risk: RiskLevel::Danger, explanation: FORK_BOMB_NOTE, undo_hint: None },
            DangerPattern { pattern: DD, risk: RiskLevel::Danger, explanation: DD_NOTE, undo_hint: None },
            DangerPattern { pattern: MKFS, risk: RiskLevel::Danger, explanation: MKFS_NOTE, undo_hint: None },
            DangerPattern { pattern: DEV_WRITE, risk: RiskLevel::Danger, explanation: DEV_WRITE_NOTE, undo_hint: None },
            DangerPattern { pattern: FORCE_PUSH, risk: RiskLevel::Caution, explanation: FORCE_PUSH_NOTE, undo_hint: Some(FORCE_PUSH_UNDO) },
            DangerPattern { pattern: HARD_RESET, risk: RiskLevel::Caution, explanation: HARD_RESET_NOTE, undo_hint: Some(HARD_RESET_UNDO) },
        ];
        let safe = vec![
            "ls", "pwd", "echo", "cat", "less", "head", "tail", "grep", "find", "which", "whereis", "man",
            "help", "type", "file", "stat", "wc", "diff", "git status", "git log", "git diff", "git branch",
            "git show", "ps", "top", "htop", "df", "du", "free", "uptime", "whoami", "date", "cal", "env",
            "printenv",
        ];
        assert(pats@ =~= danger_table());
        assert(safe@ =~= safe_table());
        SafeMode { dangerous_patterns: pats, safe_patterns: safe, enabled: false, ai_enabled: false }
    }

    /// Enables or disables Safe Mode.
    pub fn set_enabled(&mut self, enabled: bool)
        ensures
            final(self).on() == enabled,
            final(self).patterns() == old(self).patterns(),
            final(self).safe_prefixes() == old(self).safe_prefixes(),
            final(self).ai() == old(self).ai(),
    {
        self.enabled = enabled;
    }

    /// Enables or disables explanations from the AI assistant.
    pub fn set_ai_enabled(&mut self, enabled: bool)
        ensures
            final(self).ai() == enabled,
            final(self).on() == old(self).on(),
            final(self).patterns() == old(self).patterns(),
            final(self).safe_prefixes() == old(self).safe_prefixes(),
    {
        self.ai_enabled = enabled;
    }

    /// Previews `command`, given the paths it would touch that exist
    /// (`affected`, none when there are none) and their estimated size.
    /// A safe prefix makes a command safe; otherwise its risk is the most
    /// severe of the matching patterns, or else inferred. Safer
    /// alternatives are offered for risky (danger or caution) commands.
    pub fn analyze(&self, command: &str, affected: Option<Vec<String>>, affected_size: Option<u64>) -> (p: CommandPreview)
        ensures
            p.command@ == command@,
            p.risk == risk_of(self.patterns(), self.safe_prefixes(), command@),
            crate::text::string_views(p.explanation@) == notes_of(self.patterns(), self.safe_prefixes(), command@),
            match p.undo_hint {
                Some(u) => danger_undo(self.patterns(), command@) == Some(u@),
                None => danger_undo(self.patterns(), command@) is None,
            },
            p.needs_sudo == starts_with(command@, "sudo "@),
            p.network_access == uses_network(command@),
            match affected {
                Some(files) => p.affected_files == files && p.affected_count == Some(files@.len() as usize)
                    && p.affected_size == affected_size,
                None => p.affected_files@.len() == 0 && p.affected_count is None && p.affected_size is None,
            },
            alternative_views(p.alternatives@) == if p.risk == RiskLevel::Danger || p.risk == RiskLevel::Caution {
                alternatives_for(command@)
            } else {
                Seq::empty()
            },
    {
        let cmd = chars_of(command);
        let mut risk = RiskLevel::Unknown;
        let mut notes: Vec<String> = Vec::new();
        let mut undo: Option<String> = None;
        let mut i: usize = 0;
        while i < self.dangerous_patterns.len()
            invariant
                i <= self.dangerous_patterns@.len(),
                cmd@ == command@,
                risk == danger_risk(self.dangerous_patterns@.take(i as int), command@),
                crate::text::string_views(notes@) == danger_notes(self.dangerous_patterns@.take(i as int), command@),
                match undo {
                    Some(u) => danger_undo(self.dangerous_patterns@.take(i as int), command@) == Some(u@),
                    None => danger_undo(self.dangerous_patterns@.take(i as int), command@) is None,
                },
            decreases self.dangerous_patterns@.len() - i,
        {
            let pat = self.dangerous_patterns[i];
            proof {
                assert(self.dangerous_patterns@.take(i + 1).drop_last() =~= self.dangerous_patterns@.take(i as int));
                assert(self.dangerous_patterns@.take(i + 1).last() == pat);
            }
            if is_match(pat.pattern, command) {
                if severity_of(pat.risk) > severity_of(risk) {
                    risk = pat.risk;
                }
                let ghost before = notes@;
                let note = pat.explanation.to_owned();
                notes.push(note);
                assert(crate::text::string_views(notes@) =~= crate::text::string_views(before).push(note@));
                match pat.undo_hint {
                    Some(u) => {
                        undo = Some(u.to_owned());
                    },
                    None => {},
                }
            }
            i = i + 1;
        }
        assert(self.dangerous_patterns@.take(self.dangerous_patterns@.len() as int) =~= self.dangerous_patterns@);
        let mut j: usize = 0;
        let mut safe = false;
        while j < self.safe_patterns.len() && !safe
            invariant
                j <= self.safe_patterns@.len(),
                cmd@ == command@,
                safe ==> starts_with_any(command@, self.safe_patterns@),
                !safe ==> forall|k: int| 0 <= k < j ==> !starts_with(command@, (#[trigger] self.safe_patterns@[k])@),
            decreases self.safe_patterns@.len() - j + if safe {
                0int
            } else {
                1int
            },
        {
            let pc = chars_of(self.safe_patterns[j]);
            if starts_with_chars(cmd.as_slice(), pc.as_slice()) {
                safe = true;
            } else {
                j = j + 1;
            }
        }
        if safe {
            risk = RiskLevel::Safe;
            notes = Vec::new();
            let note = "This is a safe, read-only command".to_owned();
            notes.push(note);
            assert(crate::text::string_views(notes@) =~= seq![note@]);
        }
        if risk == RiskLevel::Unknown {
            risk = infer_risk(&cmd);
        }
        let (files, count, size) = match affected {
            Some(files) => {
                let n = files.len();
                (files, Some(n), affected_size)
            },
            None => (Vec::new(), None, None),
        };
        let network = has(&cmd, "curl") || has(&cmd, "wget") || has(&cmd, "ssh") || has(&cmd, "scp") || has(
            &cmd,
            "npm",
        ) || has(&cmd, "pip");
        let alternatives = if risk == RiskLevel::Danger || risk == RiskLevel::Caution {
            suggest_alternatives(&cmd)
        } else {
            Vec::new()
        };
        let needs_sudo = has_prefix(&cmd, "sudo ");
        CommandPreview {
            command: command.to_owned(),
            risk,
            explanation: notes,
            affected_files: files,
            affected_count: count,
            affected_size: size,
            undo_hint: undo,
            needs_sudo,
            network_access: network,
            alternatives,
        }
    }
}

impl Default for SafeMode {
    fn default() -> (s: Self)
        ensures
            s.patterns() == danger_table(),
            s.safe_prefixes() == safe_table(),
            !s.on(),
            !s.ai(),
    {
        SafeMode::new()
    }
}

fn has(v: &Vec<char>, p: &str) -> (b: bool)
    ensures
        b == contains_seq(v@, p@),
{
    let pc = chars_of(p);
    contains_chars(v.as_slice(), pc.as_slice())
}

fn has_prefix(v: &Vec<char>, p: &str) -> (b: bool)
    ensures
        b == starts_with(v@, p@),
{
    let pc = chars_of(p);
    starts_with_chars(v.as_slice(), pc.as_slice())
}

/// The risk of a command that no pattern settles.
pub fn infer_risk(cmd: &Vec<char>) -> (r: RiskLevel)
    ensures
        r == inferred_risk(cmd@),
{
    if has(cmd, "mv ") || has(cmd, "cp ") {
        RiskLevel::Caution
    } else if has(cmd, "install") || has(cmd, "apt") || has(cmd, "dnf") || has(cmd, "yum") {
        RiskLevel::Caution
    } else if has_prefix(cmd, "sudo") {
        RiskLevel::Caution
    } else {
        RiskLevel::Unknown
    }
}

fn replaced(cmd: &Vec<char>, p: &str, r: &str) -> (s: String)
    requires
        p@.len() > 0,
    ensures
        s@ == replace_all(cmd@, p@, r@),
{
    let pc = chars_of(p);
    let rc = chars_of(r);
    let out = replace_chars(cmd.as_slice(), pc.as_slice(), rc.as_slice());
    string_from_chars(out.as_slice())
}

/// The safer alternatives to a command.
pub fn suggest_alternatives(cmd: &Vec<char>) -> (r: Vec<CommandAlternative>)
    ensures
        alternative_views(r@) == alternatives_for(cmd@),
{
    proof {
        reveal_strlit("rm ");
        reveal_strlit("rm -rf");
    }
    let mut r: Vec<CommandAlternative> = Vec::new();
    if has(cmd, "rm ") {
        let c = replaced(cmd, "rm ", "trash-put ");
        let d = "Move to trash instead (recoverable)".to_owned();
        r.push(CommandAlternative { command: c, description: d, risk: RiskLevel::Safe });
    }
    let ghost before = r@;
    if has(cmd, "rm -rf") {
        let c = replaced(cmd, "rm -rf", "rm -ri");
        let d = "Interactive mode - confirm each file".to_owned();
        r.push(CommandAlternative { command: c, description: d, risk: RiskLevel::Caution });
        assert(alternative_views(r@) =~= alternative_views(before).push((c@, d@, RiskLevel::Caution)));
    }
    assert(alternative_views(r@) =~= alternatives_for(cmd@));
    r
}

/// `part` joined to `cwd`.
pub fn join_path(cwd: &str, part: &Vec<char>) -> (s: String)
    ensures
        s@ == joined(cwd@, part@),
{
    let slash = chars_of("/");
    proof {
        reveal_strlit("/");
    }
    if starts_with_chars(part.as_slice(), slash.as_slice()) {
        return string_from_chars(part.as_slice());
    }
    let c = chars_of(cwd);
    let mut s = cwd.to_owned();
    if c.len() > 0 && c[c.len() - 1] != '/' {
        append_str(&mut s, "/");
    }
    let p = string_from_chars(part.as_slice());
    append_str(&mut s, p.as_str());
    s
}

/// The paths that `rm`, `mv` or `cp` would touch, joined to `cwd`.
pub fn affected_candidates(command: &str, cwd: &str) -> (r: Vec<String>)
    ensures
        crate::text::string_views(r@) == candidate_paths(command@, cwd@),
{
    let v = chars_of(command);
    let parts = split_whitespace_chars(v.as_slice());
    let mut r: Vec<String> = Vec::new();
    if parts.len() == 0 {
        return r;
    }
    let first = string_from_chars(parts[0].as_slice());
    let f = first.as_str();
    if !(str_eq(f, "rm") || str_eq(f, "mv") || str_eq(f, "cp")) {
        return r;
    }
    let ghost words = ws_words(command@);
    let ghost pred = |p: Seq<char>| !starts_with(p, "-"@);
    let dash = chars_of("-");
    let mut i: usize = 1;
    while i < parts.len()
        invariant
            1 <= i <= parts@.len(),
            parts@.len() == words.len(),
            forall|k: int| 0 <= k < parts@.len() ==> #[trigger] parts@[k]@ == words[k],
            dash@ == "-"@,
            pred == (|p: Seq<char>| !starts_with(p, "-"@)),
            crate::text::string_views(r@) == words.skip(1).take(i - 1).filter(pred).map_values(
                |p: Seq<char>| joined(cwd@, p),
            ),
        decreases parts@.len() - i,
    {
        proof {
            reveal(Seq::filter);
            assert(words.skip(1).take(i as int).drop_last() =~= words.skip(1).take(i - 1));
            assert(words.skip(1).take(i as int).last() == words[i as int]);
        }
        let ghost before = r@;
        if !starts_with_chars(parts[i].as_slice(), dash.as_slice()) {
            let path = join_path(cwd, &parts[i]);
            r.push(path);
            assert(crate::text::string_views(r@) =~= crate::text::string_views(before).push(path@));
        }
        i = i + 1;
    }
    assert(words.skip(1).take(parts@.len() - 1) =~= words.skip(1));
    r
}

/// The total of `sizes`, each entry being whether the path is a directory
/// and its length in bytes: a directory counts as one mebibyte.
pub open spec fn size_total(sizes: Seq<(bool, u64)>) -> int
    decreases sizes.len(),
{
    if sizes.len() == 0 {
        0
    } else {
        size_total(sizes.drop_last()) + if sizes.last().0 {
            1048576int
        } else {
            sizes.last().1 as int
        }
    }
}

proof fn lemma_size_total_mono(s: Seq<(bool, u64)>, a: int, b: int)
    requires
        0 <= a <= b <= s.len(),
    ensures
        0 <= size_total(s.take(a)) <= size_total(s.take(b)),
    decreases b - a,
{
    if a < b {
        lemma_size_total_mono(s, a, b - 1);
        assert(s.take(b).drop_last() =~= s.take(b - 1));
    } else {
        lemma_size_total_nonneg(s, a);
    }
}

proof fn lemma_size_total_nonneg(s: Seq<(bool, u64)>, a: int)
    requires
        0 <= a <= s.len(),
    ensures
        0 <= size_total(s.take(a)),
    decreases a,
{
    if a > 0 {
        lemma_size_total_nonneg(s, a - 1);
        assert(s.take(a).drop_last() =~= s.take(a - 1));
    }
}

/// The estimated size of the affected paths, from what is known of each
/// (whether it is a directory, and its length); none when it comes to 0.
pub fn estimate_size(sizes: &[(bool, u64)]) -> (r: Option<u64>)
    requires
        size_total(sizes@) <= u64::MAX,
    ensures
        r == if size_total(sizes@) > 0 {
            Some(size_total(sizes@) as u64)
        } else {
            None::<u64>
        },
{
    let mut total: u64 = 0;
    let mut i: usize = 0;
    proof {
        assert(sizes@.take(sizes@.len() as int) =~= sizes@);
    }
    while i < sizes.len()
        invariant
            i <= sizes@.len(),
            total == size_total(sizes@.take(i as int)),
            size_total(sizes@) <= u64::MAX,
        decreases sizes@.len() - i,
    {
        proof {
            assert(sizes@.take(i + 1).drop_last() =~= sizes@.take(i as int));
            lemma_size_total_mono(sizes@, i + 1, sizes@.len() as int);
            assert(sizes@.take(sizes@.len() as int) =~= sizes@);
        }
        let (is_dir, len) = sizes[i];
        if is_dir {
            total = total + 1024 * 1024;
        } else {
            total = total + len;
        }
        i = i + 1;
    }
    assert(sizes@.take(sizes@.len() as int) =~= sizes@);
    if total > 0 {
        Some(total)
    } else {
        None
    }
}

} // verus!
