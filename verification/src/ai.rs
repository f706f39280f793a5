//! The AI assistant's data: messages and roles, responses, the contexts
//! commands are translated and completed in, and what is sent to and read
//! back from a provider.

use vstd::prelude::*;
use crate::text::{
    append_str, chars_of, contains_chars, contains_seq, split_chars, split_on, str_eq, string_from_chars, trim,
    trim_chars, string_views, join_with, join_chars,
};

verus! {

/// AI-related errors.
#[derive(Debug, Clone, PartialEq, Eq)]
pub enum AiError {
    /// Provider not configured
    NotConfigured(String),
    /// The provider's API answered with an error
    ApiError(String),
    /// Rate limited
    RateLimited,
    /// Network error (its message)
    Network(String),
    /// The answer could not be read
    Parse(String),
    /// Provider not available
    Unavailable(String),
}

/// The message of an error.
pub open spec fn ai_error_message(e: AiError) -> Seq<char> {
    match e {
        AiError::NotConfigured(s) => "Provider not configured: "@ + s@,
        AiError::ApiError(s) => "API error: "@ + s@,
        AiError::RateLimited => "Rate limited"@,
        AiError::Network(s) => "Network error: "@ + s@,
        AiError::Parse(s) => "Parse error: "@ + s@,
        AiError::Unavailable(s) => "Provider not available: "@ + s@,
    }
}

impl AiError {
    /// The message shown for this error.
    pub fn message(&self) -> (m: String)
        ensures
            m@ == ai_error_message(*self),
    {
        let (prefix, detail) = match self {
            AiError::NotConfigured(s) => ("Provider not configured: ", Some(s)),
            AiError::ApiError(s) => ("API error: ", Some(s)),
            AiError::RateLimited => ("Rate limited", None),
            AiError::Network(s) => ("Network error: ", Some(s)),
            AiError::Parse(s) => ("Parse error: ", Some(s)),
            AiError::Unavailable(s) => ("Provider not available: ", Some(s)),
        };
        let mut m = prefix.to_owned();
        match detail {
            Some(d) => append_str(&mut m, d.as_str()),
            None => {},
        }
        m
    }
}

/// Message role.
#[derive(Debug, Clone, Copy, PartialEq, Eq, Structural)]
pub enum Role {
    System,
    User,
    Assistant,
}

/// A message of a conversation.
#[derive(Debug, Clone)]
pub struct Message {
    pub role: Role,
    pub content: String,
}

/// Token usage of a request.
#[derive(Debug, Clone, Copy, PartialEq, Eq, Structural)]
pub struct TokenUsage {
    pub prompt: u32,
    pub completion: u32,
    pub total: u32,
}

/// A provider's answer.
#[derive(Debug, Clone)]
pub struct AiResponse {
    /// The generated content
    pub content: String,
    /// Provider that generated it
    pub provider: String,
    /// Model used
    pub model: String,
    /// Tokens used (if known)
    pub tokens_used: Option<TokenUsage>,
    /// Time taken in milliseconds
    pub latency_ms: u64,
}

/// The modes of the AI panel.
#[derive(Debug, Clone, Copy, PartialEq, Eq, Structural)]
pub enum AiPanelMode {
    /// Conversational AI
    Chat,
    /// Natural language to command
    Command,
    /// Explain selected text or a command
    Explain,
    /// Generate code or scripts
    Generate,
}

/// The context a request is translated into a command in.
#[derive(Debug, Clone)]
pub struct CommandContext {
    pub cwd: String,
    pub shell: String,
    pub os: String,
    pub recent_commands: Vec<String>,
}

impl CommandContext {
    /// The context of a process: its working directory, its `SHELL`
    /// variable (`/bin/bash` when unset) and its operating system.
    pub fn from_environment(cwd: String, shell_var: Option<String>, os: &str) -> (c: Self)
        ensures
            c.cwd == cwd,
            c.shell@ == match shell_var {
                Some(s) => s@,
                None => "/bin/bash"@,
            },
            c.os@ == os@,
            c.recent_commands@.len() == 0,
    {
        let shell = match shell_var {
            Some(s) => s,
            None => "/bin/bash".to_owned(),
        };
        CommandContext { cwd, shell, os: os.to_owned(), recent_commands: Vec::new() }
    }
}

/// The first part of the instructions for translating a request.
pub const TRANSLATE_INTRO: &'static str = "You are a shell command expert. Convert natural language requests into shell commands.\n\nCurrent directory: ";

/// The rules and examples that end the instructions for translating a
/// request.
pub const TRANSLATE_RULES: &'static str = "\n\nRules:\n1. Output ONLY the command, no explanation\n2. Use safe, standard commands\n3. Prefer interactive flags when appropriate\n4. If dangerous, prefix with \"# WARNING: \"\n\nExamples:\n\"show files bigger than 1GB\" -> find . -size +1G -type f\n\"delete node modules\" -> rm -rf node_modules\n\"what's using port 3000\" -> lsof -i :3000\n";

/// The instructions for translating a request in `ctx`.
pub open spec fn translate_prompt(cwd: Seq<char>, shell: Seq<char>, os: Seq<char>) -> Seq<char> {
    TRANSLATE_INTRO@ + cwd + "\nShell: "@ + shell + "\nOS: "@ + os + TRANSLATE_RULES@
}

/// The views of a list of messages.
pub open spec fn message_views(v: Seq<Message>) -> Seq<(Role, Seq<char>)> {
    v.map_values(|m: Message| (m.role, m.content@))
}

/// The messages that ask for `input` to be translated into a command in
/// `ctx`: the instructions, then the request.
pub fn translation_messages(input: &str, ctx: &CommandContext) -> (r: Vec<Message>)
    ensures
        message_views(r@) == seq![
            (Role::System, translate_prompt(ctx.cwd@, ctx.shell@, ctx.os@)),
            (Role::User, input@),
        ],
{
    let mut p = TRANSLATE_INTRO.to_owned();
    append_str(&mut p, ctx.cwd.as_str());
    append_str(&mut p, "\nShell: ");
    append_str(&mut p, ctx.shell.as_str());
    append_str(&mut p, "\nOS: ");
    append_str(&mut p, ctx.os.as_str());
    append_str(&mut p, TRANSLATE_RULES);
    let r = vec![Message { role: Role::System, content: p }, Message { role: Role::User, content: input.to_owned() }];
    assert(message_views(r@) =~= seq![
        (Role::System, translate_prompt(ctx.cwd@, ctx.shell@, ctx.os@)),
        (Role::User, input@),
    ]);
    r
}

/// A translated command read from a provider's answer: the answer trimmed,
/// and whether it carries the warning mark.
pub fn read_translation(content: &str) -> (r: (String, bool))
    ensures
        r.0@ == trim(content@),
        r.1 == contains_seq(content@, "# WARNING"@),
{
    let c = chars_of(content);
    let t = trim_chars(c.as_slice());
    let w = chars_of("# WARNING");
    (string_from_chars(t.as_slice()), contains_chars(c.as_slice(), w.as_slice()))
}

/// The messages that ask for `command` to be explained.
pub fn explanation_messages(command: &str) -> (r: Vec<Message>)
    ensures
        message_views(r@) == seq![
            (Role::System, "Explain shell commands in simple terms. Be concise."@),
            (Role::User, "What does this command do? "@ + command@),
        ],
{
    let mut q = "What does this command do? ".to_owned();
    append_str(&mut q, command);
    let r = vec![
        Message { role: Role::System, content: "Explain shell commands in simple terms. Be concise.".to_owned() },
        Message { role: Role::User, content: q },
    ];
    assert(message_views(r@) =~= seq![
        (Role::System, "Explain shell commands in simple terms. Be concise."@),
        (Role::User, "What does this command do? "@ + command@),
    ]);
    r
}

/// The position of the first name equal to `name`.
pub open spec fn first_named(names: Seq<Seq<char>>, name: Seq<char>) -> Option<int> {
    if exists|i: int| 0 <= i < names.len() && names[i] == name {
        Some(choose|i: int| 0 <= i < names.len() && names[i] == name && forall|j: int| 0 <= j < i ==> names[j] != name)
    } else {
        None
    }
}

/// The context a completion is asked in.
#[derive(Debug, Clone)]
pub struct CompletionContext {
    pub cwd: String,
    pub shell: String,
    pub recent_output: Vec<String>,
    pub env: Vec<(String, String)>,
}

impl CompletionContext {
    /// The context of a process: its working directory, its `SHELL`
    /// variable (`/bin/bash` when unset) and its environment.
    pub fn from_environment(cwd: String, shell_var: Option<String>, env: Vec<(String, String)>) -> (c: Self)
        ensures
            c.cwd == cwd,
            c.shell@ == match shell_var {
                Some(s) => s@,
                None => "/bin/bash"@,
            },
            c.recent_output@.len() == 0,
            c.env == env,
    {
        let shell = match shell_var {
            Some(s) => s,
            None => "/bin/bash".to_owned(),
        };
        CompletionContext { cwd, shell, recent_output: Vec::new(), env }
    }
}

/// A completion suggestion.
#[derive(Debug, Clone)]
pub struct Completion {
    /// The completion text
    pub text: String,
    /// Optional description
    pub description: Option<String>,
    /// Type of completion
    pub kind: CompletionKind,
}

/// Types of completions.
#[derive(Debug, Clone, Copy, PartialEq, Eq, Structural)]
pub enum CompletionKind {
    Command,
    Path,
    Argument,
    Option,
    Variable,
}

/// The first part of the completion request.
pub const COMPLETE_INTRO: &'static str = "Complete this shell command. Output only the completed command(s), one per line.\n\nWorking directory: ";

/// The request for completions of `input` in a context.
pub open spec fn completion_prompt(cwd: Seq<char>, shell: Seq<char>, recent: Seq<Seq<char>>, input: Seq<char>) -> Seq<char> {
    COMPLETE_INTRO@ + cwd + "\nShell: "@ + shell + "\nRecent commands:\n"@ + join_with(recent, "\n"@)
        + "\n\nPartial input: "@ + input
}

/// The messages that ask for completions of `input` in `ctx`.
pub fn completion_messages(input: &str, ctx: &CompletionContext) -> (r: Vec<Message>)
    ensures
        message_views(r@) == seq![
            (Role::System, "You are a shell completion engine. Output only valid shell commands."@),
            (Role::User, completion_prompt(ctx.cwd@, ctx.shell@, string_views(ctx.recent_output@), input@)),
        ],
{
    let mut parts: Vec<Vec<char>> = Vec::new();
    let mut i: usize = 0;
    while i < ctx.recent_output.len()
        invariant
            i <= ctx.recent_output@.len(),
            parts@.map_values(|p: Vec<char>| p@) == string_views(ctx.recent_output@).take(i as int),
        decreases ctx.recent_output@.len() - i,
    {
        let c = chars_of(ctx.recent_output[i].as_str());
        let ghost before = parts@;
        let ghost cv = c@;
        parts.push(c);
        assert(parts@.map_values(|p: Vec<char>| p@) =~= before.map_values(|p: Vec<char>| p@).push(cv));
        assert(string_views(ctx.recent_output@).take(i + 1) =~= string_views(ctx.recent_output@).take(i as int).push(
            ctx.recent_output@[i as int]@,
        ));
        i = i + 1;
    }
    assert(string_views(ctx.recent_output@).take(ctx.recent_output@.len() as int) =~= string_views(
        ctx.recent_output@,
    ));
    assert(parts@.skip(0) =~= parts@);
    let recent = join_chars(&parts, 0, "\n");
    let mut p = COMPLETE_INTRO.to_owned();
    append_str(&mut p, ctx.cwd.as_str());
    append_str(&mut p, "\nShell: ");
    append_str(&mut p, ctx.shell.as_str());
    append_str(&mut p, "\nRecent commands:\n");
    append_str(&mut p, recent.as_str());
    append_str(&mut p, "\n\nPartial input: ");
    append_str(&mut p, input);
    let r = vec![
        Message {
            role: Role::System,
            content: "You are a shell completion engine. Output only valid shell commands.".to_owned(),
        },
        Message { role: Role::User, content: p },
    ];
    assert(message_views(r@) =~= seq![
        (Role::System, "You are a shell completion engine. Output only valid shell commands."@),
        (Role::User, completion_prompt(ctx.cwd@, ctx.shell@, string_views(ctx.recent_output@), input@)),
    ]);
    r
}

/// A line without the carriage return that may end it.
pub open spec fn strip_cr(line: Seq<char>) -> Seq<char> {
    if line.len() > 0 && line.last() == '\r' {
        line.drop_last()
    } else {
        line
    }
}

/// The non-empty lines of a text (as `str::lines` gives them), at most
/// five, in order.
pub open spec fn completion_lines(content: Seq<char>) -> Seq<Seq<char>> {
    let ls = split_on(content, '\n').map_values(|l: Seq<char>| strip_cr(l)).filter(|l: Seq<char>| l.len() > 0);
    ls.take(vstd::math::min(5, ls.len() as int))
}

/// The completions a provider's answer holds: its first five non-empty
/// lines, each a command.
pub fn read_completions(content: &str) -> (r: Vec<Completion>)
    ensures
        r@.map_values(|c: Completion| c.text@) == completion_lines(content@),
        forall|i: int| 0 <= i < r@.len() ==> (#[trigger] r@[i]).description is None && r@[i].kind
            == CompletionKind::Command,
{
    let c = chars_of(content);
    let pieces = split_chars(c.as_slice(), '\n');
    let ghost sp = split_on(content@, '\n');
    let ghost stripped = sp.map_values(|l: Seq<char>| strip_cr(l));
    let ghost pred = |l: Seq<char>| l.len() > 0;
    let mut r: Vec<Completion> = Vec::new();
    let mut i: usize = 0;
    while i < pieces.len() && r.len() < 5
        invariant
            i <= pieces@.len() == sp.len(),
            sp == split_on(content@, '\n'),
            stripped == sp.map_values(|l: Seq<char>| strip_cr(l)),
            pred == (|l: Seq<char>| l.len() > 0),
            forall|k: int| 0 <= k < pieces@.len() ==> #[trigger] pieces@[k]@ == sp[k],
            r@.len() <= 5,
            r@.map_values(|c: Completion| c.text@) == stripped.take(i as int).filter(pred),
            forall|k: int| 0 <= k < r@.len() ==> (#[trigger] r@[k]).description is None && r@[k].kind
                == CompletionKind::Command,
        decreases pieces@.len() - i,
    {
        proof {
            reveal(Seq::filter);
            assert(stripped.take(i + 1).drop_last() =~= stripped.take(i as int));
            assert(stripped.take(i + 1).last() == strip_cr(sp[i as int]));
        }
        let p = &pieces[i];
        let mut n = p.len();
        if n > 0 && p[n - 1] == '\r' {
            n = n - 1;
        }
        let mut line: Vec<char> = Vec::new();
        let mut k: usize = 0;
        while k < n
            invariant
                k <= n <= p@.len(),
                line@ == p@.take(k as int),
            decreases n - k,
        {
            line.push(p[k]);
            assert(line@ =~= p@.take(k + 1));
            k = k + 1;
        }
        assert(line@ =~= strip_cr(p@));
        let ghost before = r@;
        if n > 0 {
            let text = string_from_chars(line.as_slice());
            r.push(Completion { text, description: None, kind: CompletionKind::Command });
            assert(r@.map_values(|c: Completion| c.text@) =~= before.map_values(|c: Completion| c.text@).push(text@));
        }
        i = i + 1;
    }
    proof {
        let f = stripped.filter(pred);
        crate::ai_history::lemma_filter_take_prefix(stripped, pred, i as int);
        if r@.len() < 5 {
            assert(stripped.take(i as int) =~= stripped);
            assert(f.take(f.len() as int) =~= f);
        }
    }
    r
}

/// The AI providers by name, in the order they were added, and which one
/// is the default. The providers themselves are kept by the caller in the
/// same order; this decides which of them is meant.
pub struct AiManager {
    providers: Vec<String>,
    default_provider: usize,
}

impl AiManager {
    /// The names of the providers, in order.
    pub closed spec fn names(self) -> Seq<Seq<char>> {
        string_views(self.providers@)
    }

    /// The index of the default provider.
    pub closed spec fn default_index(self) -> usize {
        self.default_provider
    }

    /// The default is a provider, or still the first place while there is
    /// none.
    pub open spec fn well_formed(self) -> bool {
        self.default_index() == 0 || self.default_index() < self.names().len()
    }

    /// No providers; the first one added is the default.
    pub fn new() -> (m: Self)
        ensures
            m.names().len() == 0,
            m.default_index() == 0,
            m.well_formed(),
    {
        AiManager { providers: Vec::new(), default_provider: 0 }
    }

    /// Adds a provider, by its name, after the others.
    pub fn add_provider(&mut self, name: &str)
        ensures
            final(self).names() == old(self).names().push(name@),
            final(self).default_index() == old(self).default_index(),
            old(self).well_formed() ==> final(self).well_formed(),
    {
        let ghost before = self.providers@;
        self.providers.push(name.to_owned());
        assert(string_views(self.providers@) =~= string_views(before).push(name@));
    }

    /// The index of the first provider called `name`.
    fn position(&self, name: &str) -> (r: Option<usize>)
        ensures
            match first_named(self.names(), name@) {
                Some(i) => r == Some(i as usize),
                None => r is None,
            },
            r is Some ==> r->0 < self.names().len(),
    {
        let mut i: usize = 0;
        while i < self.providers.len()
            invariant
                i <= self.providers@.len(),
                forall|j: int| 0 <= j < i ==> (#[trigger] self.names()[j]) != name@,
            decreases self.providers@.len() - i,
        {
            if str_eq(self.providers[i].as_str(), name) {
                proof {
                    let names = self.names();
                    assert(names[i as int] == name@);
                    let k = choose|k: int|
                        0 <= k < names.len() && names[k] == name@ && forall|j: int| 0 <= j < k ==> names[j] != name@;
                    assert(k == i) by {
                        if k < i {
                        } else if k > i {
                        }
                    }
                }
                return Some(i);
            }
            i = i + 1;
        }
        None
    }

    /// Makes the first provider called `name` the default; whether there
    /// is one.
    pub fn set_default(&mut self, name: &str) -> (found: bool)
        ensures
            found == first_named(old(self).names(), name@) is Some,
            final(self).names() == old(self).names(),
            final(self).default_index() == match first_named(old(self).names(), name@) {
                Some(i) => i as usize,
                None => old(self).default_index(),
            },
            old(self).well_formed() ==> final(self).well_formed(),
    {
        match self.position(name) {
            Some(i) => {
                self.default_provider = i;
                true
            },
            None => false,
        }
    }

    /// The index of the default provider, if there is a provider there.
    pub fn default_provider(&self) -> (r: Option<usize>)
        ensures
            r == if self.default_index() < self.names().len() {
                Some(self.default_index())
            } else {
                None::<usize>
            },
            self.well_formed() ==> (r is Some <==> self.names().len() > 0),
    {
        if self.default_provider < self.providers.len() {
            Some(self.default_provider)
        } else {
            None
        }
    }

    /// The index of the first provider called `name`, if any.
    pub fn get_provider(&self, name: &str) -> (r: Option<usize>)
        ensures
            match first_named(self.names(), name@) {
                Some(i) => r == Some(i as usize),
                None => r is None,
            },
    {
        self.position(name)
    }

    /// The names of the providers, in order.
    pub fn list_providers(&self) -> (r: Vec<&str>)
        ensures
            r@.map_values(|s: &str| s@) == self.names(),
    {
        let mut r: Vec<&str> = Vec::new();
        let mut i: usize = 0;
        while i < self.providers.len()
            invariant
                i <= self.providers@.len(),
                r@.map_values(|s: &str| s@) == self.names().take(i as int),
            decreases self.providers@.len() - i,
        {
            let ghost before = r@;
            r.push(self.providers[i].as_str());
            assert(r@.map_values(|s: &str| s@) =~= before.map_values(|s: &str| s@).push(self.names()[i as int]));
            assert(self.names().take(i + 1) =~= self.names().take(i as int).push(self.names()[i as int]));
            i = i + 1;
        }
        assert(self.names().take(self.names().len() as int) =~= self.names());
        r
    }
}

impl Default for AiManager {
    fn default() -> (m: Self)
        ensures
            m.names().len() == 0,
            m.default_index() == 0,
    {
        AiManager::new()
    }
}

} // verus!
