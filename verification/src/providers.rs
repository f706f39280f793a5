//! What the AI providers are sent and how their answers are read: the
//! messages of a request in each provider's form, the events of a
//! server-sent event stream, and the text and token counts they carry.

use vstd::prelude::*;
use crate::ai::{message_views, Message, Role, TokenUsage};
use crate::images::{lossy_text, utf8_lossy};
use crate::text::{
    append_str, chars_of, split_chars, split_on, starts_with, starts_with_chars, str_eq, string_from_chars,
    string_views, slice_chars,
};

verus! {

/// The most tokens a completion request asks for.
pub const REQUEST_MAX_TOKENS: u32 = 4096;

/// The name of a role in a request.
pub open spec fn role_text(r: Role) -> Seq<char> {
    match r {
        Role::System => "system"@,
        Role::User => "user"@,
        Role::Assistant => "assistant"@,
    }
}

/// The name of a role.
pub fn role_name(r: Role) -> (s: String)
    ensures
        s@ == role_text(r),
{
    match r {
        Role::System => "system".to_owned(),
        Role::User => "user".to_owned(),
        Role::Assistant => "assistant".to_owned(),
    }
}

/// The views of (role, content) pairs.
pub open spec fn turn_views(v: Seq<(String, String)>) -> Seq<(Seq<char>, Seq<char>)> {
    v.map_values(|t: (String, String)| (t.0@, t.1@))
}

/// The content of the first system message, if there is one.
pub open spec fn first_system(ms: Seq<(Role, Seq<char>)>) -> Option<Seq<char>>
    decreases ms.len(),
{
    if ms.len() == 0 {
        None
    } else if ms[0].0 == Role::System {
        Some(ms[0].1)
    } else {
        first_system(ms.drop_first())
    }
}

/// The messages that are not system messages, each as its role's name and
/// its content, in order.
pub open spec fn non_system_turns(ms: Seq<(Role, Seq<char>)>) -> Seq<(Seq<char>, Seq<char>)>
    decreases ms.len(),
{
    if ms.len() == 0 {
        Seq::empty()
    } else {
        let prev = non_system_turns(ms.drop_last());
        if ms.last().0 == Role::System {
            prev
        } else {
            prev.push((role_text(ms.last().0), ms.last().1))
        }
    }
}

/// Every message as its role's name and its content, in order.
pub open spec fn all_turns(ms: Seq<(Role, Seq<char>)>) -> Seq<(Seq<char>, Seq<char>)> {
    ms.map_values(|m: (Role, Seq<char>)| (role_text(m.0), m.1))
}

/// The view of an optional string.
pub open spec fn opt_text(o: Option<String>) -> Option<Seq<char>> {
    match o {
        Some(s) => Some(s@),
        None => None,
    }
}

/// The messages in the form of a messages API that takes the system
/// prompt apart: the content of the first system message, and the other
/// messages with their roles' names.
pub fn system_and_turns(messages: &Vec<Message>) -> (r: (Option<String>, Vec<(String, String)>))
    ensures
        opt_text(r.0) == first_system(message_views(messages@)),
        turn_views(r.1@) == non_system_turns(message_views(messages@)),
{
    let ghost mv = message_views(messages@);
    let mut system: Option<String> = None;
    let mut turns: Vec<(String, String)> = Vec::new();
    let mut i: usize = 0;
    while i < messages.len()
        invariant
            i <= messages@.len(),
            mv == message_views(messages@),
            turn_views(turns@) == non_system_turns(mv.take(i as int)),
            opt_text(system) == first_system(mv.take(i as int)),
        decreases messages@.len() - i,
    {
        let m = &messages[i];
        proof {
            assert(mv.take(i + 1).drop_last() =~= mv.take(i as int));
            assert(mv.take(i + 1).last() == (m.role, m.content@));
            lemma_first_system_push(mv.take(i as int), (m.role, m.content@));
            assert(mv.take(i as int).push((m.role, m.content@)) =~= mv.take(i + 1));
        }
        if m.role == Role::System {
            if system.is_none() {
                system = Some(m.content.clone());
            }
        } else {
            let ghost before = turns@;
            turns.push((role_name(m.role), m.content.clone()));
            assert(turn_views(turns@) =~= turn_views(before).push((role_text(m.role), m.content@)));
        }
        i = i + 1;
    }
    assert(mv.take(mv.len() as int) =~= mv);
    (system, turns)
}

proof fn lemma_first_system_push(ms: Seq<(Role, Seq<char>)>, m: (Role, Seq<char>))
    ensures
        first_system(ms.push(m)) == match first_system(ms) {
            Some(c) => Some(c),
            None => if m.0 == Role::System {
                Some(m.1)
            } else {
                None
            },
        },
    decreases ms.len(),
{
    assert(ms.push(m)[0] == if ms.len() > 0 {
        ms[0]
    } else {
        m
    });
    assert(first_system(Seq::<(Role, Seq<char>)>::empty()) is None);
    if ms.len() > 0 {
        assert(ms.push(m).drop_first() =~= ms.drop_first().push(m));
        lemma_first_system_push(ms.drop_first(), m);
    } else {
        assert(ms.push(m).drop_first() =~= Seq::<(Role, Seq<char>)>::empty());
    }
}

/// The messages in the form of a chat completions API: every message with
/// its role's name.
pub fn chat_turns(messages: &Vec<Message>) -> (r: Vec<(String, String)>)
    ensures
        turn_views(r@) == all_turns(message_views(messages@)),
{
    let ghost mv = message_views(messages@);
    let mut turns: Vec<(String, String)> = Vec::new();
    let mut i: usize = 0;
    while i < messages.len()
        invariant
            i <= messages@.len(),
            mv == message_views(messages@),
            turn_views(turns@) == all_turns(mv.take(i as int)),
        decreases messages@.len() - i,
    {
        let m = &messages[i];
        let ghost before = turns@;
        turns.push((role_name(m.role), m.content.clone()));
        assert(turn_views(turns@) =~= turn_views(before).push((role_text(m.role), m.content@)));
        assert(all_turns(mv.take(i + 1)) =~= all_turns(mv.take(i as int)).push((role_text(m.role), m.content@)));
        i = i + 1;
    }
    assert(mv.take(mv.len() as int) =~= mv);
    turns
}

/// The label of a role in a single prompt.
pub open spec fn role_label(r: Role) -> Seq<char> {
    match r {
        Role::System => "System: "@,
        Role::User => "User: "@,
        Role::Assistant => "Assistant: "@,
    }
}

/// The lines of a conversation, each as its role's label, its content
/// and a line feed.
pub open spec fn prompt_lines(ms: Seq<(Role, Seq<char>)>) -> Seq<char>
    decreases ms.len(),
{
    if ms.len() == 0 {
        Seq::empty()
    } else {
        prompt_lines(ms.drop_last()) + role_label(ms.last().0) + ms.last().1 + "\n"@
    }
}

/// A conversation as the single prompt of a generate API: each message on
/// its own line after its role's label, then "Assistant: " for the answer.
pub fn single_prompt(messages: &Vec<Message>) -> (s: String)
    ensures
        s@ == prompt_lines(message_views(messages@)) + "Assistant: "@,
{
    let ghost mv = message_views(messages@);
    let mut s = String::new();
    let mut i: usize = 0;
    while i < messages.len()
        invariant
            i <= messages@.len(),
            mv == message_views(messages@),
            s@ == prompt_lines(mv.take(i as int)),
        decreases messages@.len() - i,
    {
        let m = &messages[i];
        proof {
            assert(mv.take(i + 1).drop_last() =~= mv.take(i as int));
            assert(mv.take(i + 1).last() == (m.role, m.content@));
        }
        let label = match m.role {
            Role::System => "System: ",
            Role::User => "User: ",
            Role::Assistant => "Assistant: ",
        };
        append_str(&mut s, label);
        append_str(&mut s, m.content.as_str());
        append_str(&mut s, "\n");
        i = i + 1;
    }
    assert(mv.take(mv.len() as int) =~= mv);
    append_str(&mut s, "Assistant: ");
    s
}

// ---------------------------------------------------------------------
// Server-sent events
// ---------------------------------------------------------------------

/// The complete events of `s` from `i` on, the current one having begun at
/// `start`, and what is left after the last complete one: each event ends
/// at the first blank line (two line feeds) after it began.
pub open spec fn sse_scan(s: Seq<char>, start: int, i: int) -> (Seq<Seq<char>>, Seq<char>)
    decreases s.len() - i,
{
    if i < 0 || i + 1 >= s.len() {
        (Seq::empty(), s.subrange(start, s.len() as int))
    } else if s[i] == '\n' && s[i + 1] == '\n' {
        let rest = sse_scan(s, i + 2, i + 2);
        (seq![s.subrange(start, i)] + rest.0, rest.1)
    } else {
        sse_scan(s, start, i + 1)
    }
}

/// The complete events of the text `s` and what is left after them.
pub open spec fn sse_events(s: Seq<char>) -> (Seq<Seq<char>>, Seq<char>) {
    sse_scan(s, 0, 0)
}

/// One step of reading a stream: the bytes `chunk` that arrived, read as
/// UTF-8 with invalid sequences replaced, are added to what was left over
/// (`buffer`); the complete events are taken out, in order, and what
/// follows the last of them is left over.
pub fn sse_step(buffer: &str, chunk: &[u8]) -> (r: (String, Vec<String>))
    ensures
        string_views(r.1@) == sse_events(buffer@ + lossy_text(chunk@)).0,
        r.0@ == sse_events(buffer@ + lossy_text(chunk@)).1,
{
    let text = utf8_lossy(chunk);
    let mut all = chars_of(buffer);
    let more = chars_of(text.as_str());
    let mut k: usize = 0;
    while k < more.len()
        invariant
            k <= more@.len(),
            all@ == buffer@ + more@.take(k as int),
        decreases more@.len() - k,
    {
        all.push(more[k]);
        assert(all@ =~= buffer@ + more@.take(k + 1));
        k = k + 1;
    }
    assert(more@.take(more@.len() as int) =~= more@);
    let ghost s = all@;
    let mut events: Vec<String> = Vec::new();
    let mut start: usize = 0;
    let mut i: usize = 0;
    while all.len() - i >= 2
        invariant
            start <= i <= all@.len(),
            s == all@,
            sse_events(s) == (string_views(events@) + sse_scan(s, start as int, i as int).0, sse_scan(
                s,
                start as int,
                i as int,
            ).1),
        decreases all@.len() - i,
    {
        if all[i] == '\n' && all[i + 1] == '\n' {
            let piece = slice_chars(all.as_slice(), start, i);
            let ghost before = events@;
            let ghost rest = sse_scan(s, i + 2, i + 2);
            events.push(string_from_chars(piece.as_slice()));
            assert(string_views(events@) =~= string_views(before).push(s.subrange(start as int, i as int)));
            assert(string_views(events@) + rest.0 =~= string_views(before) + (seq![s.subrange(start as int, i as int)]
                + rest.0));
            i = i + 2;
            start = i;
        } else {
            i = i + 1;
        }
    }
    let left = slice_chars(all.as_slice(), start, all.len());
    assert(string_views(events@) + Seq::<Seq<char>>::empty() =~= string_views(events@));
    (string_from_chars(left.as_slice()), events)
}

/// The data of an event's lines that carry some: the text after "data: "
/// on each such line (lines split at line feeds, a carriage return before
/// a line feed taken off), except the end marker "[DONE]".
pub open spec fn sse_data(event: Seq<char>) -> Seq<Seq<char>> {
    data_of_lines(split_on(event, '\n'))
}

/// A line of a text split at line feeds: all but the last end at a line
/// feed, and lose a carriage return before it.
pub open spec fn line_at(pieces: Seq<Seq<char>>, k: int) -> Seq<char> {
    let p = pieces[k];
    if k + 1 < pieces.len() && p.len() > 0 && p.last() == '\r' {
        p.drop_last()
    } else {
        p
    }
}

/// The data of lines that carry some, from the first `n` pieces.
pub open spec fn data_upto(pieces: Seq<Seq<char>>, n: int) -> Seq<Seq<char>>
    decreases n,
{
    if n <= 0 {
        Seq::empty()
    } else {
        let prev = data_upto(pieces, n - 1);
        let l = line_at(pieces, n - 1);
        if starts_with(l, "data: "@) && l.skip(6) != "[DONE]"@ {
            prev.push(l.skip(6))
        } else {
            prev
        }
    }
}

/// The data of all the lines.
pub open spec fn data_of_lines(pieces: Seq<Seq<char>>) -> Seq<Seq<char>> {
    data_upto(pieces, pieces.len() as int)
}

/// The data an event's lines carry, in order.
pub fn event_data(event: &str) -> (r: Vec<String>)
    ensures
        string_views(r@) == sse_data(event@),
{
    let v = chars_of(event);
    let pieces = split_chars(v.as_slice(), '\n');
    let ghost ps = split_on(event@, '\n');
    let prefix = chars_of("data: ");
    let done = chars_of("[DONE]");
    proof {
        reveal_strlit("data: ");
    }
    let mut r: Vec<String> = Vec::new();
    let mut k: usize = 0;
    while k < pieces.len()
        invariant
            k <= pieces@.len() == ps.len(),
            ps == split_on(event@, '\n'),
            forall|j: int| 0 <= j < pieces@.len() ==> #[trigger] pieces@[j]@ == ps[j],
            prefix@ == "data: "@,
            prefix@.len() == 6,
            done@ == "[DONE]"@,
            string_views(r@) == data_upto(ps, k as int),
        decreases pieces@.len() - k,
    {
        let p = &pieces[k];
        let n = if k + 1 < pieces.len() && p.len() > 0 && p[p.len() - 1] == '\r' {
            p.len() - 1
        } else {
            p.len()
        };
        let line = slice_chars(p.as_slice(), 0, n);
        assert(line@ =~= line_at(ps, k as int));
        if starts_with_chars(line.as_slice(), prefix.as_slice()) {
            let data = slice_chars(line.as_slice(), 6, line.len());
            assert(data@ =~= line@.skip(6));
            let is_done = crate::text::chars_eq(data.as_slice(), done.as_slice());
            if !is_done {
                let ghost before = r@;
                r.push(string_from_chars(data.as_slice()));
                assert(string_views(r@) =~= string_views(before).push(line@.skip(6)));
            }
        }
        k = k + 1;
    }
    r
}

// ---------------------------------------------------------------------
// What a stream adds up to
// ---------------------------------------------------------------------

/// What a streamed answer has added up to: its text so far and the last
/// token counts (prompt, completion) it reported.
pub struct StreamAcc {
    pub content: String,
    pub usage: Option<(u32, u32)>,
}

/// The answer after one event of a messages stream, and the text to show
/// at once: a "content_block_delta" with non-empty text adds it; a
/// "message_delta" with token counts sets them; any other event changes
/// nothing.
pub open spec fn stream_event_spec(
    content: Seq<char>,
    usage: Option<(u32, u32)>,
    kind: Seq<char>,
    delta: Option<Seq<char>>,
    counts: Option<(u32, u32)>,
) -> (Seq<char>, Option<(u32, u32)>, Option<Seq<char>>) {
    if kind == "content_block_delta"@ && delta is Some && delta->0.len() > 0 {
        (content + delta->0, usage, delta)
    } else if kind == "message_delta"@ && counts is Some {
        (content, counts, None)
    } else {
        (content, usage, None)
    }
}

/// Takes in one event of a messages stream (its type, the text of its
/// delta, its token counts); gives the text to show at once, if any.
pub fn stream_event(acc: &mut StreamAcc, kind: &str, delta: Option<&str>, counts: Option<(u32, u32)>) -> (shown:
    Option<String>)
    ensures
        ({
            let r = stream_event_spec(
                old(acc).content@,
                old(acc).usage,
                kind@,
                match delta {
                    Some(d) => Some(d@),
                    None => None,
                },
                counts,
            );
            &&& final(acc).content@ == r.0
            &&& final(acc).usage == r.1
            &&& opt_text(shown) == r.2
        }),
{
    proof {
        reveal_strlit("content_block_delta");
        reveal_strlit("message_delta");
        reveal_strlit("");
        assert("content_block_delta"@.len() != "message_delta"@.len());
    }
    if str_eq(kind, "content_block_delta") {
        match delta {
            Some(d) => {
                let empty = str_eq(d, "");
                proof {
                    if d@.len() == 0 {
                        assert(d@ =~= ""@);
                    }
                }
                if !empty {
                    append_str(&mut acc.content, d);
                    return Some(d.to_owned());
                }
            },
            None => {},
        }
        return None;
    }
    if str_eq(kind, "message_delta") {
        if counts.is_some() {
            acc.usage = counts;
        }
    }
    None
}

/// The text of a chat completions stream after one chunk: the content of
/// each of its choices that has some, in order.
pub open spec fn chunk_text(deltas: Seq<Option<String>>) -> Seq<char>
    decreases deltas.len(),
{
    if deltas.len() == 0 {
        Seq::empty()
    } else {
        chunk_text(deltas.drop_last()) + match deltas.last() {
            Some(c) => c@,
            None => Seq::empty(),
        }
    }
}

/// Takes in one chunk of a chat completions stream, given the content of
/// each of its choices' deltas: adds each present content to `content`,
/// and gives them, in order, to show at once.
pub fn chat_stream_chunk(content: &mut String, deltas: &Vec<Option<String>>) -> (shown: Vec<String>)
    ensures
        final(content)@ == old(content)@ + chunk_text(deltas@),
        shown@.len() <= deltas@.len(),
{
    let mut shown: Vec<String> = Vec::new();
    let mut i: usize = 0;
    while i < deltas.len()
        invariant
            i <= deltas@.len(),
            content@ == old(content)@ + chunk_text(deltas@.take(i as int)),
            shown@.len() <= i,
        decreases deltas@.len() - i,
    {
        proof {
            assert(deltas@.take(i + 1).drop_last() =~= deltas@.take(i as int));
            assert(deltas@.take(i + 1).last() == deltas@[i as int]);
        }
        match &deltas[i] {
            Some(c) => {
                append_str(content, c.as_str());
                shown.push(c.clone());
            },
            None => {
                assert(content@ =~= content@ + Seq::<char>::empty());
            },
        }
        i = i + 1;
    }
    assert(deltas@.take(deltas@.len() as int) =~= deltas@);
    shown
}

/// The token counts of an answer: prompt, completion and their sum.
pub fn token_usage(prompt: u32, completion: u32) -> (u: TokenUsage)
    requires
        prompt + completion <= u32::MAX,
    ensures
        u == (TokenUsage { prompt, completion, total: (prompt + completion) as u32 }),
{
    TokenUsage { prompt, completion, total: prompt + completion }
}

/// The text of an answer: its first content block, or nothing.
pub fn first_text(blocks: &Vec<String>) -> (s: String)
    ensures
        s@ == if blocks@.len() > 0 {
            blocks@[0]@
        } else {
            Seq::<char>::empty()
        },
{
    if blocks.len() > 0 {
        blocks[0].clone()
    } else {
        String::new()
    }
}

} // verus!
