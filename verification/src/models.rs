//! AI model descriptions and the display names the model lists show.

use vstd::prelude::*;
use crate::text::{
    chars_of, contains_chars, contains_seq, lemma_split_on_nonempty, replace_all, replace_chars,
    split_chars, split_on, starts_with, starts_with_chars, str_eq, string_from_chars, to_uppercase,
    trim, trim_chars, uppercase, append_str,
};

verus! {

/// Information about an AI model.
#[derive(Debug, Clone)]
pub struct ModelInfo {
    /// Model identifier (e.g., "gpt-4o")
    pub id: String,
    /// Human-readable name
    pub name: String,
    /// Provider this model belongs to
    pub provider: String,
    /// Model description
    pub description: Option<String>,
    /// Context window size (tokens)
    pub context_window: Option<u32>,
    /// Maximum output tokens
    pub max_output: Option<u32>,
    /// Whether the model supports vision/images
    pub supports_vision: bool,
    /// Whether the model supports tool use/function calling
    pub supports_tools: bool,
    /// Model size in bytes (for local models)
    pub size_bytes: Option<u64>,
    /// Model family/series (e.g., "GPT-4")
    pub family: Option<String>,
    /// Release/modified time, in seconds since the Unix epoch
    pub created_at: Option<i64>,
    /// Whether this is a recommended/featured model
    pub recommended: bool,
}

/// A model with only its id (also its name) and provider known.
pub open spec fn bare_model(m: ModelInfo, id: Seq<char>, provider: Seq<char>) -> bool {
    &&& m.id@ == id
    &&& m.name@ == id
    &&& m.provider@ == provider
    &&& m.description is None
    &&& m.context_window is None
    &&& m.max_output is None
    &&& !m.supports_vision
    &&& !m.supports_tools
    &&& m.size_bytes is None
    &&& m.family is None
    &&& m.created_at is None
    &&& !m.recommended
}

impl ModelInfo {
    /// A model with only its id and provider known; its name is its id.
    pub fn new(id: &str, provider: &str) -> (m: Self)
        ensures
            bare_model(m, id@, provider@),
    {
        ModelInfo {
            id: id.to_owned(),
            name: id.to_owned(),
            provider: provider.to_owned(),
            description: None,
            context_window: None,
            max_output: None,
            supports_vision: false,
            supports_tools: false,
            size_bytes: None,
            family: None,
            created_at: None,
            recommended: false,
        }
    }
}

/// The display name of an OpenAI model id.
pub open spec fn openai_name(id: Seq<char>) -> Seq<char> {
    if id == "gpt-4o"@ {
        "GPT-4o"@
    } else if id == "gpt-4o-mini"@ {
        "GPT-4o Mini"@
    } else if id == "gpt-4-turbo"@ {
        "GPT-4 Turbo"@
    } else if id == "gpt-4-turbo-preview"@ {
        "GPT-4 Turbo Preview"@
    } else if id == "gpt-4"@ {
        "GPT-4"@
    } else if id == "gpt-3.5-turbo"@ {
        "GPT-3.5 Turbo"@
    } else if id == "o1"@ {
        "o1"@
    } else if id == "o1-mini"@ {
        "o1 Mini"@
    } else if id == "o1-preview"@ {
        "o1 Preview"@
    } else if id == "o3-mini"@ {
        "o3 Mini"@
    } else {
        id
    }
}

/// The display name of an OpenAI model id: a fixed name for the known
/// models, the id itself for the others.
pub fn format_openai_name(id: &str) -> (s: String)
    ensures
        s@ == openai_name(id@),
{
    if str_eq(id, "gpt-4o") {
        "GPT-4o".to_owned()
    } else if str_eq(id, "gpt-4o-mini") {
        "GPT-4o Mini".to_owned()
    } else if str_eq(id, "gpt-4-turbo") {
        "GPT-4 Turbo".to_owned()
    } else if str_eq(id, "gpt-4-turbo-preview") {
        "GPT-4 Turbo Preview".to_owned()
    } else if str_eq(id, "gpt-4") {
        "GPT-4".to_owned()
    } else if str_eq(id, "gpt-3.5-turbo") {
        "GPT-3.5 Turbo".to_owned()
    } else if str_eq(id, "o1") {
        "o1".to_owned()
    } else if str_eq(id, "o1-mini") {
        "o1 Mini".to_owned()
    } else if str_eq(id, "o1-preview") {
        "o1 Preview".to_owned()
    } else if str_eq(id, "o3-mini") {
        "o3 Mini".to_owned()
    } else {
        id.to_owned()
    }
}

pub(crate) fn has(v: &Vec<char>, p: &str) -> (b: bool)
    ensures
        b == contains_seq(v@, p@),
{
    let pc = chars_of(p);
    contains_chars(v.as_slice(), pc.as_slice())
}

/// The display name of a Gemini model id.
pub open spec fn gemini_name(id: Seq<char>) -> Seq<char> {
    if id == "gemini-2.0-flash"@ {
        "Gemini 2.0 Flash"@
    } else if id == "gemini-2.0-flash-thinking"@ {
        "Gemini 2.0 Flash Thinking"@
    } else if id == "gemini-1.5-pro"@ {
        "Gemini 1.5 Pro"@
    } else if id == "gemini-1.5-flash"@ {
        "Gemini 1.5 Flash"@
    } else if id == "gemini-1.5-flash-8b"@ {
        "Gemini 1.5 Flash 8B"@
    } else if id == "gemini-pro"@ {
        "Gemini Pro"@
    } else {
        id
    }
}

/// The display name of a Gemini model id.
pub fn format_gemini_name(id: &str) -> (s: String)
    ensures
        s@ == gemini_name(id@),
{
    if str_eq(id, "gemini-2.0-flash") {
        "Gemini 2.0 Flash".to_owned()
    } else if str_eq(id, "gemini-2.0-flash-thinking") {
        "Gemini 2.0 Flash Thinking".to_owned()
    } else if str_eq(id, "gemini-1.5-pro") {
        "Gemini 1.5 Pro".to_owned()
    } else if str_eq(id, "gemini-1.5-flash") {
        "Gemini 1.5 Flash".to_owned()
    } else if str_eq(id, "gemini-1.5-flash-8b") {
        "Gemini 1.5 Flash 8B".to_owned()
    } else if str_eq(id, "gemini-pro") {
        "Gemini Pro".to_owned()
    } else {
        id.to_owned()
    }
}

/// An Ollama model's base name made readable: the known family names are
/// capitalised and followed by a space, in a fixed order, and the result
/// trimmed.
pub open spec fn ollama_base_name(base: Seq<char>) -> Seq<char> {
    let a = replace_all(base, "llama"@, "Llama "@);
    let b = replace_all(a, "mistral"@, "Mistral "@);
    let c = replace_all(b, "qwen"@, "Qwen "@);
    let d = replace_all(c, "gemma"@, "Gemma "@);
    let e = replace_all(d, "deepseek"@, "DeepSeek "@);
    let f = replace_all(e, "codellama"@, "CodeLlama "@);
    let g = replace_all(f, "phi"@, "Phi "@);
    trim(g)
}

/// The display name of an Ollama model id `base:tag`: the readable base,
/// then the tag in upper case in brackets when there is one.
pub open spec fn ollama_name(id: Seq<char>) -> Seq<char> {
    let parts = split_on(id, ':');
    if parts.len() > 1 {
        ollama_base_name(parts[0]) + " ("@ + uppercase(parts[1]) + ")"@
    } else {
        ollama_base_name(parts[0])
    }
}

fn replace_with(v: Vec<char>, p: &str, r: &str) -> (out: Vec<char>)
    requires
        p@.len() > 0,
    ensures
        out@ == replace_all(v@, p@, r@),
{
    let pc = chars_of(p);
    let rc = chars_of(r);
    replace_chars(v.as_slice(), pc.as_slice(), rc.as_slice())
}

/// The readable form of an Ollama base name.
pub fn ollama_base(base: &[char]) -> (s: Vec<char>)
    ensures
        s@ == ollama_base_name(base@),
{
    proof {
        reveal_strlit("llama");
        reveal_strlit("mistral");
        reveal_strlit("qwen");
        reveal_strlit("gemma");
        reveal_strlit("deepseek");
        reveal_strlit("codellama");
        reveal_strlit("phi");
    }
    let mut v: Vec<char> = Vec::new();
    let mut i: usize = 0;
    while i < base.len()
        invariant
            i <= base@.len(),
            v@ == base@.take(i as int),
        decreases base@.len() - i,
    {
        assert(base@.take(i + 1) =~= base@.take(i as int).push(base@[i as int]));
        v.push(base[i]);
        i = i + 1;
    }
    assert(base@.take(base@.len() as int) =~= base@);
    let v = replace_with(v, "llama", "Llama ");
    let v = replace_with(v, "mistral", "Mistral ");
    let v = replace_with(v, "qwen", "Qwen ");
    let v = replace_with(v, "gemma", "Gemma ");
    let v = replace_with(v, "deepseek", "DeepSeek ");
    let v = replace_with(v, "codellama", "CodeLlama ");
    let v = replace_with(v, "phi", "Phi ");
    trim_chars(v.as_slice())
}

/// The display name of an Ollama model with base name `base`, whose tag in
/// upper case is `upper_tag`.
pub fn ollama_name_with_tag(base: &[char], upper_tag: &str) -> (s: String)
    ensures
        s@ == ollama_base_name(base@) + " ("@ + upper_tag@ + ")"@,
{
    let b = ollama_base(base);
    let mut s = string_from_chars(b.as_slice());
    append_str(&mut s, " (");
    append_str(&mut s, upper_tag);
    append_str(&mut s, ")");
    s
}

/// The display name of an Ollama model id, e.g. "Llama 3.2 (3B)" for
/// "llama3.2:3b".
pub fn format_ollama_name(id: &str) -> (s: String)
    ensures
        s@ == ollama_name(id@),
{
    let v = chars_of(id);
    let parts = split_chars(v.as_slice(), ':');
    proof {
        lemma_split_on_nonempty(id@, ':');
    }
    if parts.len() > 1 {
        let tag = string_from_chars(parts[1].as_slice());
        let upper = to_uppercase(tag.as_str());
        ollama_name_with_tag(parts[0].as_slice(), upper.as_str())
    } else {
        let b = ollama_base(parts[0].as_slice());
        string_from_chars(b.as_slice())
    }
}

/// The family of an OpenAI model id, by its prefix.
pub open spec fn openai_family(id: Seq<char>) -> Option<Seq<char>> {
    if starts_with(id, "gpt-4"@) {
        Some("GPT-4"@)
    } else if starts_with(id, "gpt-3"@) {
        Some("GPT-3.5"@)
    } else if starts_with(id, "o1"@) {
        Some("o1"@)
    } else if starts_with(id, "o3"@) {
        Some("o3"@)
    } else {
        None
    }
}

fn begins(v: &Vec<char>, p: &str) -> (b: bool)
    ensures
        b == starts_with(v@, p@),
{
    let pc = chars_of(p);
    starts_with_chars(v.as_slice(), pc.as_slice())
}

/// The family of an OpenAI model id.
pub fn extract_model_family(id: &str) -> (r: Option<String>)
    ensures
        match r {
            Some(s) => openai_family(id@) == Some(s@),
            None => openai_family(id@) is None,
        },
{
    let v = chars_of(id);
    if begins(&v, "gpt-4") {
        Some("GPT-4".to_owned())
    } else if begins(&v, "gpt-3") {
        Some("GPT-3.5".to_owned())
    } else if begins(&v, "o1") {
        Some("o1".to_owned())
    } else if begins(&v, "o3") {
        Some("o3".to_owned())
    } else {
        None
    }
}

/// The views of an optional string.
pub open spec fn opt_view(o: Option<String>) -> Option<Seq<char>> {
    match o {
        Some(s) => Some(s@),
        None => None,
    }
}

/// An OpenAI model: its family from its id, tools, and vision for the
/// GPT-4o and GPT-4 Turbo lines.
pub fn create_openai_model(id: &str, name: &str, context_window: u32, recommended: bool) -> (m: ModelInfo)
    ensures
        m.id@ == id@,
        m.name@ == name@,
        m.provider@ == "openai"@,
        opt_view(m.family) == openai_family(id@),
        m.context_window == Some(context_window),
        m.max_output is None,
        m.supports_tools,
        m.supports_vision == (contains_seq(id@, "gpt-4o"@) || contains_seq(id@, "gpt-4-turbo"@)),
        m.recommended == recommended,
        m.description is None && m.size_bytes is None && m.created_at is None,
{
    let mut info = ModelInfo::new(id, "openai");
    info.name = name.to_owned();
    info.family = extract_model_family(id);
    info.context_window = Some(context_window);
    info.supports_tools = true;
    let v = chars_of(id);
    info.supports_vision = has(&v, "gpt-4o") || has(&v, "gpt-4-turbo");
    info.recommended = recommended;
    info
}

/// A Gemini model: tools and vision.
pub fn create_gemini_model(id: &str, name: &str, context_window: u32, recommended: bool) -> (m: ModelInfo)
    ensures
        m.id@ == id@,
        m.name@ == name@,
        m.provider@ == "gemini"@,
        opt_view(m.family) == Some("Gemini"@),
        m.context_window == Some(context_window),
        m.max_output is None,
        m.supports_tools && m.supports_vision,
        m.recommended == recommended,
        m.description is None && m.size_bytes is None && m.created_at is None,
{
    let mut info = ModelInfo::new(id, "gemini");
    info.name = name.to_owned();
    info.family = Some("Gemini".to_owned());
    info.context_window = Some(context_window);
    info.supports_tools = true;
    info.supports_vision = true;
    info.recommended = recommended;
    info
}

/// A model run through a command-line tool: tools and vision.
pub fn create_cli_model(id: &str, name: &str, provider: &str, recommended: bool) -> (m: ModelInfo)
    ensures
        m.id@ == id@,
        m.name@ == name@,
        m.provider@ == provider@,
        m.family is None,
        m.context_window is None && m.max_output is None,
        m.supports_tools && m.supports_vision,
        m.recommended == recommended,
        m.description is None && m.size_bytes is None && m.created_at is None,
{
    let mut info = ModelInfo::new(id, provider);
    info.name = name.to_owned();
    info.supports_tools = true;
    info.supports_vision = true;
    info.recommended = recommended;
    info
}


/// How long a cached model list stays valid for a provider: the local
/// time for Ollama, the API time for the others (in milliseconds).
pub fn cache_ttl(provider: &str, api_ttl_ms: i64, local_ttl_ms: i64) -> (t: i64)
    ensures
        t == if provider@ == "ollama"@ {
            local_ttl_ms
        } else {
            api_ttl_ms
        },
{
    if str_eq(provider, "ollama") {
        local_ttl_ms
    } else {
        api_ttl_ms
    }
}

/// Whether a list fetched at `fetched_at` is still valid at `now`: less
/// than `ttl` has passed (all in milliseconds).
pub fn cache_valid(fetched_at: i64, now: i64, ttl: i64) -> (b: bool)
    ensures
        b == (now - fetched_at < ttl),
{
    (now as i128) - (fetched_at as i128) < (ttl as i128)
}

/// A provider's model list as last fetched.
#[derive(Debug, Clone)]
pub struct CachedModelList {
    pub models: Vec<ModelInfo>,
    /// When the list was fetched, in milliseconds since the Unix epoch
    pub fetched_at_ms: i64,
    pub provider: String,
}

impl CachedModelList {
    /// Whether the list is still valid at `now_ms`: less than `ttl_ms`
    /// has passed since it was fetched.
    pub fn is_valid_at(&self, now_ms: i64, ttl_ms: i64) -> (b: bool)
        ensures
            b == (now_ms - self.fetched_at_ms < ttl_ms),
    {
        cache_valid(self.fetched_at_ms, now_ms, ttl_ms)
    }

    /// Whether the list is still valid now, by the clock: `is_valid_at`
    /// of the current time. The clock's reading is not known here, so
    /// nothing is stated of the answer.
    pub fn is_valid(&self, ttl_ms: i64) -> bool {
        let now = crate::clock::now_millis();
        self.is_valid_at(now, ttl_ms)
    }
}

} // verus!
