//! The model lists of the providers: what a provider's model listing is
//! turned into, and the lists known without asking.

use vstd::prelude::*;
use crate::models::{
    create_cli_model, create_gemini_model, create_openai_model, extract_model_family, format_gemini_name,
    format_ollama_name, format_openai_name, gemini_name, has, ollama_name, openai_family, openai_name, opt_view,
    ModelInfo,
};
use crate::order::{seq_lt, str_less};
use crate::snippets::{lowercase, to_lowercase};
use crate::text::{append_str, chars_of, contains_seq, starts_with, str_eq, string_views};

verus! {

/// What is known of a model, as plain values.
pub struct ModelSpec {
    pub id: Seq<char>,
    pub name: Seq<char>,
    pub provider: Seq<char>,
    pub description: Option<Seq<char>>,
    pub context_window: Option<u32>,
    pub max_output: Option<u32>,
    pub supports_vision: bool,
    pub supports_tools: bool,
    pub size_bytes: Option<u64>,
    pub family: Option<Seq<char>>,
    pub created_at: Option<i64>,
    pub recommended: bool,
}

/// What a model description holds.
pub open spec fn model_view(m: ModelInfo) -> ModelSpec {
    ModelSpec {
        id: m.id@,
        name: m.name@,
        provider: m.provider@,
        description: opt_view(m.description),
        context_window: m.context_window,
        max_output: m.max_output,
        supports_vision: m.supports_vision,
        supports_tools: m.supports_tools,
        size_bytes: m.size_bytes,
        family: opt_view(m.family),
        created_at: m.created_at,
        recommended: m.recommended,
    }
}

/// What each of a list of model descriptions holds.
pub open spec fn model_views(v: Seq<ModelInfo>) -> Seq<ModelSpec> {
    v.map_values(|m: ModelInfo| model_view(m))
}

// ---------------------------------------------------------------------
// Ordering: recommended models first, then by name.
// ---------------------------------------------------------------------

/// Whether `a` goes strictly before `b`: recommended before the others,
/// and by name among equally recommended ones.
pub open spec fn model_before(a: ModelSpec, b: ModelSpec) -> bool {
    (a.recommended && !b.recommended) || (a.recommended == b.recommended && seq_lt(a.name, b.name))
}

/// Where `x` goes in the ordered `t`: before the first model that goes
/// strictly after it.
pub open spec fn model_slot(t: Seq<ModelSpec>, x: ModelSpec) -> nat
    decreases t.len(),
{
    if t.len() == 0 || model_before(x, t[0]) {
        0
    } else {
        1 + model_slot(t.drop_first(), x)
    }
}

/// `s` ordered recommended first, then by name, models that compare equal
/// keeping their order (each inserted in turn).
pub open spec fn recommended_then_name(s: Seq<ModelSpec>) -> Seq<ModelSpec>
    decreases s.len(),
{
    if s.len() == 0 {
        s
    } else {
        let t = recommended_then_name(s.drop_last());
        t.insert(model_slot(t, s.last()) as int, s.last())
    }
}

proof fn lemma_model_slot(t: Seq<ModelSpec>, x: ModelSpec, p: int)
    requires
        0 <= p <= t.len(),
        forall|i: int| 0 <= i < p ==> !model_before(x, #[trigger] t[i]),
        p < t.len() ==> model_before(x, t[p]),
    ensures
        model_slot(t, x) == p,
    decreases t.len(),
{
    if p > 0 {
        assert forall|i: int| 0 <= i < p - 1 implies !model_before(x, #[trigger] t.drop_first()[i]) by {
            assert(t.drop_first()[i] == t[i + 1]);
        }
        lemma_model_slot(t.drop_first(), x, p - 1);
    }
}

/// Puts `x` into the ordered `sorted` at its place.
fn insert_model(sorted: &mut Vec<ModelInfo>, x: ModelInfo)
    ensures
        model_views(final(sorted)@) == model_views(old(sorted)@).insert(
            model_slot(model_views(old(sorted)@), model_view(x)) as int,
            model_view(x),
        ),
{
    let ghost sv = model_views(sorted@);
    let ghost xv = model_view(x);
    let mut p: usize = 0;
    let mut stop = false;
    while p < sorted.len() && !stop
        invariant
            p <= sorted@.len(),
            sv == model_views(sorted@),
            xv == model_view(x),
            forall|i: int| 0 <= i < p ==> !model_before(xv, #[trigger] sv[i]),
            stop ==> p < sorted@.len() && model_before(xv, sv[p as int]),
        decreases sorted@.len() - p + (if stop { 0int } else { 1int }),
    {
        let s = &sorted[p];
        let before = (x.recommended && !s.recommended) || (x.recommended == s.recommended && str_less(
            x.name.as_str(),
            s.name.as_str(),
        ));
        assert(sv[p as int] == model_view(sorted@[p as int]));
        if before {
            stop = true;
        } else {
            p = p + 1;
        }
    }
    proof {
        if p < sorted@.len() {
            assert(sv[p as int] == model_view(sorted@[p as int]));
        }
        lemma_model_slot(sv, xv, p as int);
    }
    sorted.insert(p, x);
    assert(model_views(sorted@) =~= sv.insert(p as int, xv));
}

// ---------------------------------------------------------------------
// OpenAI
// ---------------------------------------------------------------------

/// A model as OpenAI's model listing gives it.
#[derive(Debug, Clone)]
pub struct OpenAiListing {
    pub id: String,
    /// When it was created, in seconds since the Unix epoch
    pub created: Option<i64>,
}

/// Whether the seconds `secs` since the epoch are a time chrono's
/// `DateTime::from_timestamp` can hold.
pub uninterp spec fn chrono_timestamp_ok(secs: i64) -> bool;

/// Calls `DateTime::<Utc>::from_timestamp(secs, 0)` and tells whether it
/// gave a time. Claimed: the answer is a function of `secs`
/// (`chrono_timestamp_ok`); where it gives a time, that time has `secs`
/// as its timestamp, as the function's documentation shows.
#[verifier::external_body]
fn timestamp_ok(secs: i64) -> (b: bool)
    ensures
        b == chrono_timestamp_ok(secs),
{
    chrono::DateTime::<chrono::Utc>::from_timestamp(secs, 0).is_some()
}

/// Whether an OpenAI model id names a chat model: in lower case it holds
/// "gpt", "o1" or "o3" and neither "realtime" nor "audio".
pub open spec fn is_chat_model(id: Seq<char>) -> bool {
    let l = lowercase(id);
    (contains_seq(l, "gpt"@) || contains_seq(l, "o1"@) || contains_seq(l, "o3"@)) && !contains_seq(l, "realtime"@)
        && !contains_seq(l, "audio"@)
}

/// The context window of an OpenAI model, for the known lines.
pub open spec fn openai_context(id: Seq<char>) -> Option<u32> {
    if contains_seq(id, "gpt-4o"@) {
        Some(128_000u32)
    } else if contains_seq(id, "gpt-4-turbo"@) {
        Some(128_000u32)
    } else if contains_seq(id, "gpt-4-32k"@) {
        Some(32_768u32)
    } else if contains_seq(id, "gpt-4"@) {
        Some(8_192u32)
    } else if contains_seq(id, "gpt-3.5-turbo-16k"@) {
        Some(16_384u32)
    } else if contains_seq(id, "gpt-3.5"@) {
        Some(4_096u32)
    } else if contains_seq(id, "o1"@) {
        Some(128_000u32)
    } else if contains_seq(id, "o3"@) {
        Some(128_000u32)
    } else {
        None
    }
}

/// The model an OpenAI listing entry describes, at time `now` (the time
/// given where the creation time is one chrono cannot hold).
pub open spec fn openai_listed(id: Seq<char>, created: Option<i64>, now: i64) -> ModelSpec {
    ModelSpec {
        id,
        name: openai_name(id),
        provider: "openai"@,
        description: None,
        context_window: openai_context(id),
        max_output: None,
        supports_vision: contains_seq(id, "vision"@) || contains_seq(id, "gpt-4o"@) || contains_seq(id, "gpt-4-turbo"@),
        supports_tools: contains_seq(id, "gpt-4"@) || contains_seq(id, "o1"@) || contains_seq(id, "o3"@),
        size_bytes: None,
        family: openai_family(id),
        created_at: match created {
            Some(ts) => Some(
                if chrono_timestamp_ok(ts) {
                    ts
                } else {
                    now
                },
            ),
            None => None,
        },
        recommended: id == "gpt-4o"@ || id == "gpt-4o-mini"@ || id == "o1"@ || id == "o3-mini"@,
    }
}

/// The chat models of an OpenAI listing, in the listing's order.
pub open spec fn openai_listed_all(l: Seq<OpenAiListing>, now: i64) -> Seq<ModelSpec>
    decreases l.len(),
{
    if l.len() == 0 {
        Seq::empty()
    } else {
        let prev = openai_listed_all(l.drop_last(), now);
        if is_chat_model(l.last().id@) {
            prev.push(openai_listed(l.last().id@, l.last().created, now))
        } else {
            prev
        }
    }
}

/// The model an OpenAI listing entry describes.
fn openai_model(entry: &OpenAiListing, now: i64) -> (m: ModelInfo)
    ensures
        model_view(m) == openai_listed(entry.id@, entry.created, now),
{
    let id = entry.id.as_str();
    let v = chars_of(id);
    let mut info = ModelInfo::new(id, "openai");
    info.name = format_openai_name(id);
    info.created_at = match entry.created {
        Some(ts) => Some(
            if timestamp_ok(ts) {
                ts
            } else {
                now
            },
        ),
        None => None,
    };
    info.family = extract_model_family(id);
    info.supports_tools = has(&v, "gpt-4") || has(&v, "o1") || has(&v, "o3");
    info.supports_vision = has(&v, "vision") || has(&v, "gpt-4o") || has(&v, "gpt-4-turbo");
    info.recommended = str_eq(id, "gpt-4o") || str_eq(id, "gpt-4o-mini") || str_eq(id, "o1") || str_eq(id, "o3-mini");
    info.context_window = if has(&v, "gpt-4o") {
        Some(128_000)
    } else if has(&v, "gpt-4-turbo") {
        Some(128_000)
    } else if has(&v, "gpt-4-32k") {
        Some(32_768)
    } else if has(&v, "gpt-4") {
        Some(8_192)
    } else if has(&v, "gpt-3.5-turbo-16k") {
        Some(16_384)
    } else if has(&v, "gpt-3.5") {
        Some(4_096)
    } else if has(&v, "o1") {
        Some(128_000)
    } else if has(&v, "o3") {
        Some(128_000)
    } else {
        None
    };
    proof {
        assert(opt_view(info.family) == openai_family(id@));
    }
    info
}

/// Whether an OpenAI model id names a chat model.
fn chat_model(id: &str) -> (b: bool)
    ensures
        b == is_chat_model(id@),
{
    let lower = to_lowercase(id);
    let l = chars_of(lower.as_str());
    (has(&l, "gpt") || has(&l, "o1") || has(&l, "o3")) && !(has(&l, "realtime")) && !(has(&l, "audio"))
}

/// The chat models of an OpenAI model listing at time `now`: each with
/// its display name, family, capabilities and context window by the known
/// model lines, recommended ones first, then by name.
pub fn openai_models_at(list: &Vec<OpenAiListing>, now: i64) -> (r: Vec<ModelInfo>)
    ensures
        model_views(r@) == recommended_then_name(openai_listed_all(list@, now)),
{
    let mut r: Vec<ModelInfo> = Vec::new();
    let mut i: usize = 0;
    while i < list.len()
        invariant
            i <= list@.len(),
            model_views(r@) == recommended_then_name(openai_listed_all(list@.take(i as int), now)),
        decreases list@.len() - i,
    {
        proof {
            assert(list@.take(i + 1).drop_last() =~= list@.take(i as int));
            assert(list@.take(i + 1).last() == list@[i as int]);
        }
        if chat_model(list[i].id.as_str()) {
            let m = openai_model(&list[i], now);
            insert_model(&mut r, m);
            proof {
                let prev = openai_listed_all(list@.take(i as int), now);
                let x = openai_listed(list@[i as int].id@, list@[i as int].created, now);
                assert(prev.push(x).drop_last() =~= prev);
            }
        }
        i = i + 1;
    }
    assert(list@.take(list@.len() as int) =~= list@);
    r
}

/// The chat models of an OpenAI model listing, as `openai_models_at` the
/// current time (which only a creation time chrono cannot hold takes).
pub fn openai_models_from(list: &Vec<OpenAiListing>) -> (r: Vec<ModelInfo>)
    ensures
        exists|now: i64| model_views(r@) == recommended_then_name(#[trigger] openai_listed_all(list@, now)),
{
    let now = crate::clock::now_seconds();
    openai_models_at(list, now)
}

// ---------------------------------------------------------------------
// Gemini
// ---------------------------------------------------------------------

/// A model as Gemini's model listing gives it.
#[derive(Debug, Clone)]
pub struct GeminiListing {
    /// Its resource name, "models/<id>"
    pub name: String,
    pub display_name: Option<String>,
    pub description: Option<String>,
    pub input_token_limit: Option<u32>,
    pub output_token_limit: Option<u32>,
    pub supported_generation_methods: Option<Vec<String>>,
}

/// Whether a Gemini listing entry can generate content.
pub open spec fn generates_content(l: GeminiListing) -> bool {
    match l.supported_generation_methods {
        Some(ms) => string_views(ms@).contains("generateContent"@),
        None => false,
    }
}

/// The model id in a Gemini resource name: without "models/" in front.
pub open spec fn gemini_id(name: Seq<char>) -> Seq<char> {
    if starts_with(name, "models/"@) {
        name.skip(7)
    } else {
        name
    }
}

/// The model a Gemini listing entry describes.
pub open spec fn gemini_listed(l: GeminiListing) -> ModelSpec {
    let id = gemini_id(l.name@);
    ModelSpec {
        id,
        name: match l.display_name {
            Some(d) => d@,
            None => gemini_name(id),
        },
        provider: "gemini"@,
        description: opt_view(l.description),
        context_window: l.input_token_limit,
        max_output: l.output_token_limit,
        supports_vision: contains_seq(id, "vision"@) || contains_seq(id, "pro"@) || contains_seq(id, "flash"@),
        supports_tools: true,
        size_bytes: None,
        family: Some("Gemini"@),
        created_at: None,
        recommended: id == "gemini-2.0-flash"@ || id == "gemini-1.5-pro"@,
    }
}

/// The models of a Gemini listing that generate content, in order.
pub open spec fn gemini_listed_all(l: Seq<GeminiListing>) -> Seq<ModelSpec>
    decreases l.len(),
{
    if l.len() == 0 {
        Seq::empty()
    } else {
        let prev = gemini_listed_all(l.drop_last());
        if generates_content(l.last()) {
            prev.push(gemini_listed(l.last()))
        } else {
            prev
        }
    }
}

/// Whether one of `methods` is "generateContent".
fn has_generate_content(methods: &Vec<String>) -> (b: bool)
    ensures
        b == string_views(methods@).contains("generateContent"@),
{
    let ghost mv = string_views(methods@);
    let mut i: usize = 0;
    while i < methods.len()
        invariant
            i <= methods@.len(),
            mv == string_views(methods@),
            forall|j: int| 0 <= j < i ==> mv[j] != "generateContent"@,
        decreases methods@.len() - i,
    {
        if str_eq(methods[i].as_str(), "generateContent") {
            assert(mv[i as int] == "generateContent"@);
            return true;
        }
        i = i + 1;
    }
    false
}

/// The model a Gemini listing entry describes.
fn gemini_model(l: &GeminiListing) -> (m: ModelInfo)
    ensures
        model_view(m) == gemini_listed(*l),
{
    let name = chars_of(l.name.as_str());
    let prefix = chars_of("models/");
    proof {
        reveal_strlit("models/");
    }
    let idv = if crate::text::starts_with_chars(name.as_slice(), prefix.as_slice()) {
        crate::text::slice_chars(name.as_slice(), 7, name.len())
    } else {
        name
    };
    let id = crate::text::string_from_chars(idv.as_slice());
    proof {
        assert(id@ =~= gemini_id(l.name@));
    }
    let mut info = ModelInfo::new(id.as_str(), "gemini");
    info.name = match &l.display_name {
        Some(d) => d.clone(),
        None => format_gemini_name(id.as_str()),
    };
    info.description = match &l.description {
        Some(d) => Some(d.clone()),
        None => None,
    };
    info.context_window = l.input_token_limit;
    info.max_output = l.output_token_limit;
    info.supports_tools = true;
    info.supports_vision = has(&idv, "vision") || has(&idv, "pro") || has(&idv, "flash");
    info.family = Some("Gemini".to_owned());
    info.recommended = str_eq(id.as_str(), "gemini-2.0-flash") || str_eq(id.as_str(), "gemini-1.5-pro");
    info
}

/// The models of a Gemini model listing that generate content, in order:
/// each by its id without "models/", its display name (or the known
/// name), its limits, tools, and vision for the vision, pro and flash
/// lines.
pub fn gemini_models_from(list: &Vec<GeminiListing>) -> (r: Vec<ModelInfo>)
    ensures
        model_views(r@) == gemini_listed_all(list@),
{
    let mut r: Vec<ModelInfo> = Vec::new();
    let mut i: usize = 0;
    while i < list.len()
        invariant
            i <= list@.len(),
            model_views(r@) == gemini_listed_all(list@.take(i as int)),
        decreases list@.len() - i,
    {
        proof {
            assert(list@.take(i + 1).drop_last() =~= list@.take(i as int));
            assert(list@.take(i + 1).last() == list@[i as int]);
        }
        let keep = match &list[i].supported_generation_methods {
            Some(ms) => has_generate_content(ms),
            None => false,
        };
        if keep {
            let m = gemini_model(&list[i]);
            let ghost before = model_views(r@);
            r.push(m);
            assert(model_views(r@) =~= before.push(model_view(m)));
        }
        i = i + 1;
    }
    assert(list@.take(list@.len() as int) =~= list@);
    r
}

// ---------------------------------------------------------------------
// Ollama
// ---------------------------------------------------------------------

/// The details Ollama gives of a local model.
#[derive(Debug, Clone)]
pub struct OllamaDetails {
    pub family: Option<String>,
    pub parameter_size: Option<String>,
    pub quantization_level: Option<String>,
}

/// A model as Ollama's tag listing gives it.
#[derive(Debug, Clone)]
pub struct OllamaListing {
    pub name: String,
    pub size: Option<u64>,
    /// When it was last changed, as RFC 3339 text
    pub modified_at: Option<String>,
    pub details: Option<OllamaDetails>,
}

/// The seconds since the Unix epoch that RFC 3339 text stands for, as
/// chrono's `DateTime::parse_from_rfc3339` reads it; none where it does
/// not read.
pub uninterp spec fn rfc3339_seconds(text: Seq<char>) -> Option<i64>;

/// Calls `DateTime::parse_from_rfc3339` and takes the `timestamp` of the
/// time read. Claimed: the result is a function of the text
/// (`rfc3339_seconds`).
#[verifier::external_body]
fn parse_rfc3339(text: &str) -> (r: Option<i64>)
    ensures
        r == rfc3339_seconds(text@),
{
    match chrono::DateTime::parse_from_rfc3339(text) {
        Ok(t) => Some(t.timestamp()),
        Err(_) => None,
    }
}

/// Whether a local model generates text: its name, in lower case, holds
/// none of "embed", "nomic", "bge", "mxbai" and "all-minilm".
pub open spec fn is_generation_model(name: Seq<char>) -> bool {
    let l = lowercase(name);
    !contains_seq(l, "embed"@) && !contains_seq(l, "nomic"@) && !contains_seq(l, "bge"@) && !contains_seq(
        l,
        "mxbai"@,
    ) && !contains_seq(l, "all-minilm"@)
}

/// The description of a local model: its parameter size, with its
/// quantization after a comma.
pub open spec fn ollama_description(d: OllamaDetails) -> Option<Seq<char>> {
    match d.parameter_size {
        Some(p) => Some(
            p@ + " parameters"@ + match d.quantization_level {
                Some(q) => ", "@ + q@,
                None => Seq::empty(),
            },
        ),
        None => None,
    }
}

/// The model an Ollama listing entry describes.
pub open spec fn ollama_listed(l: OllamaListing) -> ModelSpec {
    ModelSpec {
        id: l.name@,
        name: ollama_name(l.name@),
        provider: "ollama"@,
        description: match l.details {
            Some(d) => ollama_description(d),
            None => None,
        },
        context_window: None,
        max_output: None,
        supports_vision: contains_seq(l.name@, "vision"@) || contains_seq(l.name@, "llava"@) || contains_seq(
            l.name@,
            "bakllava"@,
        ),
        supports_tools: false,
        size_bytes: l.size,
        family: match l.details {
            Some(d) => opt_view(d.family),
            None => None,
        },
        created_at: match l.modified_at {
            Some(t) => rfc3339_seconds(t@),
            None => None,
        },
        recommended: false,
    }
}

/// The text-generating models of an Ollama listing, in order.
pub open spec fn ollama_listed_all(l: Seq<OllamaListing>) -> Seq<ModelSpec>
    decreases l.len(),
{
    if l.len() == 0 {
        Seq::empty()
    } else {
        let prev = ollama_listed_all(l.drop_last());
        if is_generation_model(l.last().name@) {
            prev.push(ollama_listed(l.last()))
        } else {
            prev
        }
    }
}

/// Whether a local model generates text.
fn generation_model(name: &str) -> (b: bool)
    ensures
        b == is_generation_model(name@),
{
    let lower = to_lowercase(name);
    let l = chars_of(lower.as_str());
    !(has(&l, "embed")) && !(has(&l, "nomic")) && !(has(&l, "bge")) && !(has(&l, "mxbai")) && !(has(&l, "all-minilm"))
}

/// The description of a local model.
fn describe_ollama(d: &OllamaDetails) -> (r: Option<String>)
    ensures
        opt_view(r) == ollama_description(*d),
{
    match &d.parameter_size {
        Some(p) => {
            let mut s = p.clone();
            append_str(&mut s, " parameters");
            match &d.quantization_level {
                Some(q) => {
                    append_str(&mut s, ", ");
                    append_str(&mut s, q.as_str());
                },
                None => {},
            }
            proof {
                if d.quantization_level is Some {
                    let q = d.quantization_level->0;
                    assert(s@ =~= p@ + " parameters"@ + (", "@ + q@));
                } else {
                    assert(s@ =~= p@ + " parameters"@ + Seq::<char>::empty());
                }
            }
            Some(s)
        },
        None => None,
    }
}

/// The model an Ollama listing entry describes.
fn ollama_model(l: &OllamaListing) -> (m: ModelInfo)
    ensures
        model_view(m) == ollama_listed(*l),
{
    let name = l.name.as_str();
    let v = chars_of(name);
    let mut info = ModelInfo::new(name, "ollama");
    info.name = format_ollama_name(name);
    info.size_bytes = l.size;
    match &l.details {
        Some(d) => {
            info.family = match &d.family {
                Some(f) => Some(f.clone()),
                None => None,
            };
            info.description = describe_ollama(d);
        },
        None => {},
    }
    info.supports_vision = has(&v, "vision") || has(&v, "llava") || has(&v, "bakllava");
    info.created_at = match &l.modified_at {
        Some(t) => parse_rfc3339(t.as_str()),
        None => None,
    };
    info
}

/// The models of an Ollama tag listing that generate text, in order: each
/// by its name, its display name, size, family, parameter description,
/// vision for the vision and LLaVA lines, and its change time.
pub fn ollama_models_from(list: &Vec<OllamaListing>) -> (r: Vec<ModelInfo>)
    ensures
        model_views(r@) == ollama_listed_all(list@),
{
    let mut r: Vec<ModelInfo> = Vec::new();
    let mut i: usize = 0;
    while i < list.len()
        invariant
            i <= list@.len(),
            model_views(r@) == ollama_listed_all(list@.take(i as int)),
        decreases list@.len() - i,
    {
        proof {
            assert(list@.take(i + 1).drop_last() =~= list@.take(i as int));
            assert(list@.take(i + 1).last() == list@[i as int]);
        }
        if generation_model(list[i].name.as_str()) {
            let m = ollama_model(&list[i]);
            let ghost before = model_views(r@);
            r.push(m);
            assert(model_views(r@) =~= before.push(model_view(m)));
        }
        i = i + 1;
    }
    assert(list@.take(list@.len() as int) =~= list@);
    r
}


// ---------------------------------------------------------------------
// Lists known without asking
// ---------------------------------------------------------------------

/// A known OpenAI model, as `create_openai_model` describes it.
pub open spec fn openai_known(id: Seq<char>, name: Seq<char>, context_window: u32, recommended: bool) -> ModelSpec {
    ModelSpec {
        id,
        name,
        provider: "openai"@,
        description: None,
        context_window: Some(context_window),
        max_output: None,
        supports_vision: contains_seq(id, "gpt-4o"@) || contains_seq(id, "gpt-4-turbo"@),
        supports_tools: true,
        size_bytes: None,
        family: openai_family(id),
        created_at: None,
        recommended,
    }
}

/// A known Gemini model, as `create_gemini_model` describes it.
pub open spec fn gemini_known(id: Seq<char>, name: Seq<char>, context_window: u32, recommended: bool) -> ModelSpec {
    ModelSpec {
        id,
        name,
        provider: "gemini"@,
        description: None,
        context_window: Some(context_window),
        max_output: None,
        supports_vision: true,
        supports_tools: true,
        size_bytes: None,
        family: Some("Gemini"@),
        created_at: None,
        recommended,
    }
}

/// A model run through a command-line tool, as `create_cli_model`
/// describes it.
pub open spec fn cli_known(id: Seq<char>, name: Seq<char>, provider: Seq<char>, recommended: bool) -> ModelSpec {
    ModelSpec {
        id,
        name,
        provider,
        description: None,
        context_window: None,
        max_output: None,
        supports_vision: true,
        supports_tools: true,
        size_bytes: None,
        family: None,
        created_at: None,
        recommended,
    }
}

/// The OpenAI models known without asking.
pub open spec fn openai_known_list() -> Seq<ModelSpec> {
    seq![
        openai_known("gpt-4o"@, "GPT-4o"@, 128_000, true),
        openai_known("gpt-4o-mini"@, "GPT-4o Mini"@, 128_000, true),
        openai_known("o1"@, "o1"@, 128_000, true),
        openai_known("o1-mini"@, "o1 Mini"@, 128_000, false),
        openai_known("o3-mini"@, "o3 Mini"@, 128_000, true),
        openai_known("gpt-4-turbo"@, "GPT-4 Turbo"@, 128_000, false),
        openai_known("gpt-4"@, "GPT-4"@, 8_192, false),
        openai_known("gpt-3.5-turbo"@, "GPT-3.5 Turbo"@, 16_384, false),
    ]
}

/// The Gemini models known without asking.
pub open spec fn gemini_known_list() -> Seq<ModelSpec> {
    seq![
        gemini_known("gemini-2.0-flash-exp"@, "Gemini 2.0 Flash"@, 1_000_000, true),
        gemini_known("gemini-2.0-flash-thinking-exp"@, "Gemini 2.0 Flash Thinking"@, 1_000_000, true),
        gemini_known("gemini-1.5-pro"@, "Gemini 1.5 Pro"@, 2_000_000, true),
        gemini_known("gemini-1.5-flash"@, "Gemini 1.5 Flash"@, 1_000_000, false),
        gemini_known("gemini-1.5-flash-8b"@, "Gemini 1.5 Flash 8B"@, 1_000_000, false),
    ]
}

/// The models of the Gemini command-line tool.
pub open spec fn gemini_cli_list() -> Seq<ModelSpec> {
    seq![
        cli_known("gemini-2.0-flash"@, "Gemini 2.0 Flash"@, "gemini-cli"@, true),
        cli_known("gemini-2.0-flash-thinking"@, "Gemini 2.0 Flash Thinking"@, "gemini-cli"@, true),
        cli_known("gemini-1.5-pro"@, "Gemini 1.5 Pro"@, "gemini-cli"@, false),
        cli_known("gemini-1.5-flash"@, "Gemini 1.5 Flash"@, "gemini-cli"@, false),
    ]
}

/// The OpenAI models known without asking (the list used without an API
/// key or when the listing fails).
pub fn openai_known_models() -> (r: Vec<ModelInfo>)
    ensures
        model_views(r@) == openai_known_list(),
{
    let mut r: Vec<ModelInfo> = Vec::new();
    r.push(create_openai_model("gpt-4o", "GPT-4o", 128_000, true));
    r.push(create_openai_model("gpt-4o-mini", "GPT-4o Mini", 128_000, true));
    r.push(create_openai_model("o1", "o1", 128_000, true));
    r.push(create_openai_model("o1-mini", "o1 Mini", 128_000, false));
    r.push(create_openai_model("o3-mini", "o3 Mini", 128_000, true));
    r.push(create_openai_model("gpt-4-turbo", "GPT-4 Turbo", 128_000, false));
    r.push(create_openai_model("gpt-4", "GPT-4", 8_192, false));
    r.push(create_openai_model("gpt-3.5-turbo", "GPT-3.5 Turbo", 16_384, false));
    assert(model_views(r@) =~= openai_known_list());
    r
}

/// The Gemini models known without asking (the list used without an API
/// key or when the listing fails).
pub fn gemini_known_models() -> (r: Vec<ModelInfo>)
    ensures
        model_views(r@) == gemini_known_list(),
{
    let mut r: Vec<ModelInfo> = Vec::new();
    r.push(create_gemini_model("gemini-2.0-flash-exp", "Gemini 2.0 Flash", 1_000_000, true));
    r.push(create_gemini_model("gemini-2.0-flash-thinking-exp", "Gemini 2.0 Flash Thinking", 1_000_000, true));
    r.push(create_gemini_model("gemini-1.5-pro", "Gemini 1.5 Pro", 2_000_000, true));
    r.push(create_gemini_model("gemini-1.5-flash", "Gemini 1.5 Flash", 1_000_000, false));
    r.push(create_gemini_model("gemini-1.5-flash-8b", "Gemini 1.5 Flash 8B", 1_000_000, false));
    assert(model_views(r@) =~= gemini_known_list());
    r
}

/// The models of the Gemini command-line tool.
pub fn gemini_cli_models() -> (r: Vec<ModelInfo>)
    ensures
        model_views(r@) == gemini_cli_list(),
{
    let mut r: Vec<ModelInfo> = Vec::new();
    r.push(create_cli_model("gemini-2.0-flash", "Gemini 2.0 Flash", "gemini-cli", true));
    r.push(create_cli_model("gemini-2.0-flash-thinking", "Gemini 2.0 Flash Thinking", "gemini-cli", true));
    r.push(create_cli_model("gemini-1.5-pro", "Gemini 1.5 Pro", "gemini-cli", false));
    r.push(create_cli_model("gemini-1.5-flash", "Gemini 1.5 Flash", "gemini-cli", false));
    assert(model_views(r@) =~= gemini_cli_list());
    r
}

} // verus!
