//! Command and output history with search: every command run, with its
//! directory, time and outcome, and the terminal output, most recent first.

use vstd::prelude::*;
use vstd::string::StringSliceAdditionalSpecFns;
use crate::text::{chars_of, contains_chars, contains_seq, str_eq};
use crate::snippets::{lowercase, to_lowercase};
use crate::tally::{most_frequent, top_counts};
use crate::text::string_views;

verus! {

/// A single command in history.
#[derive(Debug, Clone)]
pub struct CommandEntry {
    /// The command that was executed
    pub command: String,
    /// Working directory when executed
    pub cwd: String,
    /// When it was executed, in milliseconds since the Unix epoch
    pub timestamp: i64,
    /// Exit code (if completed)
    pub exit_code: Option<i32>,
    /// Duration in milliseconds
    pub duration_ms: Option<u64>,
    /// Was this successful?
    pub success: Option<bool>,
    /// Tags for categorization
    pub tags: Vec<String>,
    /// Project ID if part of a project
    pub project_id: Option<String>,
}

impl CommandEntry {
    /// A command just started in `cwd`, stamped with the current time.
    pub fn new(command: &str, cwd: &str) -> (e: Self)
        ensures
            e.command@ == command@,
            e.cwd@ == cwd@,
            e.exit_code is None,
            e.duration_ms is None,
            e.success is None,
            e.tags@.len() == 0,
            e.project_id is None,
    {
        CommandEntry {
            command: command.to_owned(),
            cwd: cwd.to_owned(),
            timestamp: crate::clock::now_millis(),
            exit_code: None,
            duration_ms: None,
            success: None,
            tags: Vec::new(),
            project_id: None,
        }
    }

    /// Marks the command as completed: its exit code, its duration, and
    /// success exactly when the exit code is 0.
    pub fn complete(&mut self, exit_code: i32, duration_ms: u64)
        ensures
            final(self).exit_code == Some(exit_code),
            final(self).duration_ms == Some(duration_ms),
            final(self).success == Some(exit_code == 0),
            final(self).command == old(self).command,
            final(self).cwd == old(self).cwd,
            final(self).timestamp == old(self).timestamp,
            final(self).tags == old(self).tags,
            final(self).project_id == old(self).project_id,
    {
        self.exit_code = Some(exit_code);
        self.duration_ms = Some(duration_ms);
        self.success = Some(exit_code == 0);
    }
}

/// The entries behind a list of references.
pub open spec fn entry_derefs(v: Seq<&CommandEntry>) -> Seq<CommandEntry> {
    v.map_values(|e: &CommandEntry| *e)
}

/// Whether the lower case of an entry's command holds `q`.
pub open spec fn command_matches(e: CommandEntry, q: Seq<char>) -> bool {
    contains_seq(lowercase(e.command@), q)
}

/// The number of entries whose command is `c`.
pub open spec fn occurrences(entries: Seq<CommandEntry>, c: Seq<char>) -> nat {
    entries.filter(|e: CommandEntry| e.command@ == c).len()
}

/// Whether some entry's command is `c`.
pub open spec fn has_command(entries: Seq<CommandEntry>, c: Seq<char>) -> bool {
    exists|i: int| 0 <= i < entries.len() && (#[trigger] entries[i]).command@ == c
}

/// Command history with search, most recent first.
pub struct CommandHistory {
    entries: Vec<CommandEntry>,
    max_entries: usize,
    persist_path: Option<String>,
}

impl CommandHistory {
    /// The entries, most recent first.
    pub closed spec fn entries(self) -> Seq<CommandEntry> {
        self.entries@
    }

    /// The number of entries kept at most.
    pub closed spec fn max(self) -> usize {
        self.max_entries
    }

    /// Where the history is saved, if anywhere.
    pub closed spec fn path(self) -> Option<String> {
        self.persist_path
    }

    /// An empty history keeping at most `max_entries` commands.
    pub fn new(max_entries: usize) -> (h: Self)
        ensures
            h.entries().len() == 0,
            h.max() == max_entries,
            h.path() is None,
    {
        CommandHistory { entries: Vec::new(), max_entries, persist_path: None }
    }

    /// The same history, saved at `path`.
    pub fn with_persistence(self, path: String) -> (h: Self)
        ensures
            h.entries() == self.entries(),
            h.max() == self.max(),
            h.path() == Some(path),
    {
        CommandHistory { persist_path: Some(path), ..self }
    }

    /// The file the history is saved in, if any.
    pub fn persist_path(&self) -> (p: Option<&String>)
        ensures
            match p {
                Some(s) => self.path() == Some(*s),
                None => self.path() is None,
            },
    {
        match &self.persist_path {
            Some(s) => Some(s),
            None => None,
        }
    }

    /// Adds a command as the most recent one, then forgets the oldest
    /// beyond the limit.
    pub fn push(&mut self, entry: CommandEntry)
        ensures
            final(self).entries() == pushed(old(self).entries(), old(self).max(), entry),
            final(self).max() == old(self).max(),
            final(self).path() == old(self).path(),
    {
        let ghost all = seq![entry] + self.entries@;
        self.entries.insert(0, entry);
        assert(self.entries@ =~= all);
        while self.entries.len() > self.max_entries
            invariant
                self.entries@ == all.take(self.entries@.len() as int),
                self.entries@.len() <= all.len(),
                self.entries@.len() == all.len() || self.entries@.len() >= self.max_entries,
                self.max_entries == old(self).max_entries,
                self.persist_path == old(self).persist_path,
            decreases self.entries@.len(),
        {
            self.entries.pop();
            assert(self.entries@ =~= all.take(self.entries@.len() as int));
        }
        assert(all.take(all.len() as int) =~= all);
    }

    /// The commands whose lower case holds the lower case of `query`, most
    /// recent first.
    pub fn search(&self, query: &str) -> (r: Vec<&CommandEntry>)
        ensures
            entry_derefs(r@) == self.entries().filter(|e: CommandEntry| command_matches(e, lowercase(query@))),
            query@.len() == 0 ==> entry_derefs(r@) == self.entries(),
    {
        let q = to_lowercase(query);
        proof {
            if query@.len() == 0 {
                assert(lowercase(query@) =~= Seq::<char>::empty());
                let pred = |e: CommandEntry| command_matches(e, lowercase(query@));
                assert forall|i: int| 0 <= i < self.entries@.len() implies pred(#[trigger] self.entries@[i]) by {
                    crate::text::lemma_contains_empty(lowercase(self.entries@[i].command@), lowercase(query@));
                }
                crate::text::lemma_filter_keeps_all(self.entries@, pred);
            }
        }
        let qc = chars_of(q.as_str());
        let ghost pred = |e: CommandEntry| command_matches(e, lowercase(query@));
        let mut r: Vec<&CommandEntry> = Vec::new();
        let mut i: usize = 0;
        while i < self.entries.len()
            invariant
                i <= self.entries@.len(),
                qc@ == lowercase(query@),
                pred == (|e: CommandEntry| command_matches(e, lowercase(query@))),
                entry_derefs(r@) == self.entries@.take(i as int).filter(pred),
            decreases self.entries@.len() - i,
        {
            proof {
                reveal(Seq::filter);
                assert(self.entries@.take(i + 1).drop_last() =~= self.entries@.take(i as int));
            }
            let lower = to_lowercase(self.entries[i].command.as_str());
            let lc = chars_of(lower.as_str());
            let ghost before = r@;
            if contains_chars(lc.as_slice(), qc.as_slice()) {
                r.push(&self.entries[i]);
                assert(entry_derefs(r@) =~= entry_derefs(before).push(self.entries@[i as int]));
            }
            i = i + 1;
        }
        assert(self.entries@.take(self.entries@.len() as int) =~= self.entries@);
        r
    }

    /// The `count` most recent commands (all, if there are fewer).
    pub fn recent(&self, count: usize) -> (r: Vec<&CommandEntry>)
        ensures
            entry_derefs(r@) == self.entries().take(vstd::math::min(count as int, self.entries().len() as int)),
    {
        let mut r: Vec<&CommandEntry> = Vec::new();
        let mut i: usize = 0;
        while i < self.entries.len() && i < count
            invariant
                i <= self.entries@.len(),
                i <= count,
                entry_derefs(r@) == self.entries@.take(i as int),
            decreases self.entries@.len() - i,
        {
            let ghost before = r@;
            r.push(&self.entries[i]);
            assert(entry_derefs(r@) =~= entry_derefs(before).push(self.entries@[i as int]));
            assert(self.entries@.take(i + 1) =~= self.entries@.take(i as int).push(self.entries@[i as int]));
            i = i + 1;
        }
        r
    }

    /// The commands run in `cwd`, most recent first.
    pub fn in_directory(&self, cwd: &str) -> (r: Vec<&CommandEntry>)
        ensures
            entry_derefs(r@) == self.entries().filter(|e: CommandEntry| e.cwd@ == cwd@),
    {
        let ghost pred = |e: CommandEntry| e.cwd@ == cwd@;
        let mut r: Vec<&CommandEntry> = Vec::new();
        let mut i: usize = 0;
        while i < self.entries.len()
            invariant
                i <= self.entries@.len(),
                pred == (|e: CommandEntry| e.cwd@ == cwd@),
                entry_derefs(r@) == self.entries@.take(i as int).filter(pred),
            decreases self.entries@.len() - i,
        {
            proof {
                reveal(Seq::filter);
                assert(self.entries@.take(i + 1).drop_last() =~= self.entries@.take(i as int));
            }
            let ghost before = r@;
            if str_eq(self.entries[i].cwd.as_str(), cwd) {
                r.push(&self.entries[i]);
                assert(entry_derefs(r@) =~= entry_derefs(before).push(self.entries@[i as int]));
            }
            i = i + 1;
        }
        assert(self.entries@.take(self.entries@.len() as int) =~= self.entries@);
        r
    }

    /// The `count` commands run most often, each with how many times it was
    /// run, most frequent first; which of equally frequent commands come
    /// first is left open.
    pub fn frequent(&self, count: usize) -> (r: Vec<(String, usize)>)
        ensures
            top_counts(r@, commands_of(self.entries()), count as nat),
    {
        let mut keys: Vec<String> = Vec::new();
        let mut i: usize = 0;
        while i < self.entries.len()
            invariant
                i <= self.entries@.len(),
                string_views(keys@) == commands_of(self.entries@).take(i as int),
            decreases self.entries@.len() - i,
        {
            let c = self.entries[i].command.clone();
            let ghost before = keys@;
            keys.push(c);
            assert(string_views(keys@) =~= string_views(before).push(c@));
            assert(commands_of(self.entries@).take(i + 1) =~= commands_of(self.entries@).take(i as int).push(
                self.entries@[i as int].command@,
            ));
            i = i + 1;
        }
        assert(commands_of(self.entries@).take(self.entries@.len() as int) =~= commands_of(self.entries@));
        most_frequent(&keys, count)
    }
}

/// The entries after `entry` is added as the most recent one to `entries`
/// in a history that keeps at most `max`.
pub open spec fn pushed(entries: Seq<CommandEntry>, max: usize, entry: CommandEntry) -> Seq<CommandEntry> {
    (seq![entry] + entries).take(vstd::math::min(entries.len() + 1int, max as int))
}

/// A history never holds more than its limit once a command was added, the
/// command just added is the first that `recent` gives back (unless the
/// limit is zero), and the entries before it keep their order behind it.
pub proof fn law_push_newest_first(entries: Seq<CommandEntry>, max: usize, entry: CommandEntry)
    ensures
        pushed(entries, max, entry).len() <= max,
        max > 0 ==> pushed(entries, max, entry).take(1) == seq![entry],
        forall|i: int|
            1 <= i < pushed(entries, max, entry).len() ==> #[trigger] pushed(entries, max, entry)[i] == entries[i - 1],
{
    let p = pushed(entries, max, entry);
    if max > 0 {
        assert(p.take(1) =~= seq![entry]);
    }
}

/// The commands of a list of entries, in order.
pub open spec fn commands_of(entries: Seq<CommandEntry>) -> Seq<Seq<char>> {
    entries.map_values(|e: CommandEntry| e.command@)
}

/// A chunk of terminal output.
#[derive(Debug, Clone)]
pub struct OutputChunk {
    /// The output text
    pub text: String,
    /// When it was written, in milliseconds since the Unix epoch
    pub timestamp: i64,
    /// Associated command (if known)
    pub command: Option<String>,
    /// Is this stderr?
    pub is_stderr: bool,
}

/// The number of bytes of the UTF-8 text of a chunk.
pub open spec fn chunk_bytes(c: OutputChunk) -> nat {
    vstd::utf8::encode_utf8(c.text@).len()
}

/// The number of bytes of the UTF-8 texts of `chunks`.
pub open spec fn byte_total(chunks: Seq<OutputChunk>) -> nat
    decreases chunks.len(),
{
    if chunks.len() == 0 {
        0
    } else {
        byte_total(chunks.drop_last()) + chunk_bytes(chunks.last())
    }
}

/// The most recent `k` chunks of `all` are within both limits.
pub open spec fn fits(all: Seq<OutputChunk>, k: int, max_chunks: usize, max_bytes: usize) -> bool {
    k <= max_chunks && byte_total(all.take(k)) <= max_bytes
}

/// Searchable terminal output, most recent first, within a number of
/// chunks and a number of bytes.
pub struct OutputHistory {
    chunks: Vec<OutputChunk>,
    max_chunks: usize,
    max_bytes: usize,
    current_bytes: usize,
}

impl OutputHistory {
    /// The chunks, most recent first.
    pub closed spec fn chunks(self) -> Seq<OutputChunk> {
        self.chunks@
    }

    /// The number of chunks kept at most.
    pub closed spec fn chunk_limit(self) -> usize {
        self.max_chunks
    }

    /// The number of bytes kept at most.
    pub closed spec fn byte_limit(self) -> usize {
        self.max_bytes
    }

    /// The count of bytes held is exact.
    pub closed spec fn well_formed(self) -> bool {
        self.current_bytes == byte_total(self.chunks@)
    }

    /// An empty output history with the given limits.
    pub fn new(max_chunks: usize, max_bytes: usize) -> (h: Self)
        ensures
            h.well_formed(),
            h.chunks().len() == 0,
            h.chunk_limit() == max_chunks,
            h.byte_limit() == max_bytes,
    {
        OutputHistory { chunks: Vec::new(), max_chunks, max_bytes, current_bytes: 0 }
    }

    /// The number of bytes of output held.
    pub fn bytes(&self) -> (n: usize)
        requires
            self.well_formed(),
        ensures
            n == byte_total(self.chunks()),
    {
        self.current_bytes
    }

    /// Adds a chunk as the most recent one, then forgets the oldest chunks
    /// while there are more chunks or more bytes than the limits allow.
    pub fn push(&mut self, chunk: OutputChunk)
        requires
            old(self).well_formed(),
            byte_total(old(self).chunks()) + chunk_bytes(chunk) <= usize::MAX,
        ensures
            final(self).well_formed(),
            final(self).chunk_limit() == old(self).chunk_limit(),
            final(self).byte_limit() == old(self).byte_limit(),
            exists|k: int|
                0 <= k <= old(self).chunks().len() + 1 && final(self).chunks() == (seq![chunk] + old(
                    self,
                ).chunks()).take(k) && fits(seq![chunk] + old(self).chunks(), k, old(self).chunk_limit(), old(self).byte_limit())
                    && (k < old(self).chunks().len() + 1 ==> !fits(
                    seq![chunk] + old(self).chunks(),
                    k + 1,
                    old(self).chunk_limit(),
                    old(self).byte_limit(),
                )),
    {
        let ghost all = seq![chunk] + self.chunks@;
        let n = chunk.text.as_str().as_bytes().len();
        proof {
            lemma_byte_total_prepend(chunk, self.chunks@);
        }
        self.current_bytes = self.current_bytes + n;
        self.chunks.insert(0, chunk);
        assert(self.chunks@ =~= all);
        assert(all.take(all.len() as int) =~= all);
        while self.chunks.len() > self.max_chunks || self.current_bytes > self.max_bytes
            invariant
                self.chunks@ == all.take(self.chunks@.len() as int),
                self.chunks@.len() <= all.len(),
                self.current_bytes == byte_total(self.chunks@),
                self.max_chunks == old(self).max_chunks,
                self.max_bytes == old(self).max_bytes,
                self.chunks@.len() < all.len() ==> !fits(all, self.chunks@.len() + 1int, self.max_chunks, self.max_bytes),
            decreases self.chunks@.len(),
        {
            proof {
                if self.chunks@.len() == 0 {
                    assert(byte_total(self.chunks@) == 0);
                }
            }
            let removed = self.chunks.pop().unwrap();
            let m = removed.text.as_str().as_bytes().len();
            proof {
                assert(self.chunks@ =~= all.take(self.chunks@.len() as int));
                assert(all.take(self.chunks@.len() + 1int).drop_last() =~= self.chunks@);
            }
            self.current_bytes = self.current_bytes - m;
        }
        proof {
            let k = self.chunks@.len() as int;
            assert(fits(all, k, self.max_chunks, self.max_bytes));
            assert(self.chunks@ == all.take(k));
        }
    }

    /// The chunks written at or before `time`, most recent first.
    pub fn at_time(&self, time: i64) -> (r: Vec<&OutputChunk>)
        ensures
            r@.map_values(|c: &OutputChunk| *c) == self.chunks().filter(|c: OutputChunk| c.timestamp <= time),
    {
        let ghost pred = |c: OutputChunk| c.timestamp <= time;
        let mut r: Vec<&OutputChunk> = Vec::new();
        let mut i: usize = 0;
        while i < self.chunks.len()
            invariant
                i <= self.chunks@.len(),
                pred == (|c: OutputChunk| c.timestamp <= time),
                r@.map_values(|c: &OutputChunk| *c) == self.chunks@.take(i as int).filter(pred),
            decreases self.chunks@.len() - i,
        {
            proof {
                reveal(Seq::filter);
                assert(self.chunks@.take(i + 1).drop_last() =~= self.chunks@.take(i as int));
            }
            let ghost before = r@;
            if self.chunks[i].timestamp <= time {
                r.push(&self.chunks[i]);
                assert(r@.map_values(|c: &OutputChunk| *c) =~= before.map_values(|c: &OutputChunk| *c).push(
                    self.chunks@[i as int],
                ));
            }
            i = i + 1;
        }
        assert(self.chunks@.take(self.chunks@.len() as int) =~= self.chunks@);
        r
    }
}

proof fn lemma_byte_total_prepend(c: OutputChunk, s: Seq<OutputChunk>)
    ensures
        byte_total(seq![c] + s) == chunk_bytes(c) + byte_total(s),
    decreases s.len(),
{
    if s.len() > 0 {
        lemma_byte_total_prepend(c, s.drop_last());
        assert((seq![c] + s).drop_last() =~= seq![c] + s.drop_last());
    } else {
        assert((seq![c] + s).drop_last() =~= s);
    }
}

/// A match found in the output history.
#[derive(Debug, Clone)]
pub struct SearchResult {
    /// Index of the chunk
    pub chunk_index: usize,
    /// Position in the chunk
    pub position: usize,
    /// Context around the match
    pub context: String,
    /// When this was written, in milliseconds since the Unix epoch
    pub timestamp: i64,
    /// Associated command
    pub command: Option<String>,
}

/// The byte offsets, left to right, from `i` on, at which `needle` occurs in
/// `hay` without overlapping an earlier occurrence; an empty needle occurs at
/// every character boundary.
pub open spec fn match_starts(hay: Seq<u8>, needle: Seq<u8>, i: nat) -> Seq<nat>
    decreases hay.len() + 1 - i,
{
    if i + needle.len() > hay.len() {
        Seq::empty()
    } else if hay.subrange(i as int, (i + needle.len()) as int) == needle && (needle.len() > 0
        || vstd::utf8::is_char_boundary(hay, i as int)) {
        seq![i] + match_starts(hay, needle, i + match_step(needle))
    } else {
        match_starts(hay, needle, i + 1)
    }
}

/// How far a search moves on after a match of `needle`.
pub open spec fn match_step(needle: Seq<u8>) -> nat {
    if needle.len() > 0 {
        needle.len()
    } else {
        1
    }
}

/// Where the context of a match at byte `pos` starts: 50 bytes before it.
pub open spec fn context_start(pos: int) -> int {
    if pos >= 50 {
        pos - 50
    } else {
        0
    }
}

/// Where the context of a match at byte `pos` of a pattern of `plen` bytes
/// ends, in a text of `len` bytes: 50 bytes after the pattern's length.
pub open spec fn context_end(len: int, pos: int, plen: int) -> int {
    vstd::math::min(pos + plen + 50, len)
}

/// The matches of `pattern` in a chunk, positions taken in the lower case of
/// both.
pub open spec fn chunk_match_starts(c: OutputChunk, pattern: Seq<char>) -> Seq<nat> {
    match_starts(vstd::utf8::encode_utf8(lowercase(c.text@)), vstd::utf8::encode_utf8(lowercase(pattern)), 0)
}

/// The search result for a match at byte `pos` of chunk number `idx`.
pub open spec fn result_at(idx: int, c: OutputChunk, pattern: Seq<char>, pos: nat) -> (usize, usize, Seq<char>, i64, Option<Seq<char>>) {
    let b = vstd::utf8::encode_utf8(c.text@);
    let plen = vstd::utf8::encode_utf8(pattern).len() as int;
    (
        idx as usize,
        pos as usize,
        vstd::utf8::decode_utf8(b.subrange(context_start(pos as int), context_end(b.len() as int, pos as int, plen))),
        c.timestamp,
        match c.command {
            Some(s) => Some(s@),
            None => None,
        },
    )
}

/// The results of a search for `pattern` in the first `k` chunks, chunk by
/// chunk, each chunk's matches left to right.
pub open spec fn output_matches(chunks: Seq<OutputChunk>, pattern: Seq<char>, k: int) -> Seq<(usize, usize, Seq<char>, i64, Option<Seq<char>>)>
    decreases k,
{
    if k <= 0 {
        Seq::empty()
    } else {
        output_matches(chunks, pattern, k - 1) + chunk_match_starts(chunks[k - 1], pattern).map_values(
            |p: nat| result_at(k - 1, chunks[k - 1], pattern, p),
        )
    }
}

/// Every match's context starts and ends on a character boundary of its
/// chunk's text, and the offsets fit in `usize`.
pub open spec fn search_in_bounds(chunks: Seq<OutputChunk>, pattern: Seq<char>) -> bool {
    &&& forall|k: int|
        0 <= k < chunks.len() ==> vstd::utf8::encode_utf8(lowercase(#[trigger] chunks[k].text@)).len() < usize::MAX
    &&& forall|k: int, j: int|
        #![trigger chunk_match_starts(chunks[k], pattern)[j]]
        0 <= k < chunks.len() && 0 <= j < chunk_match_starts(chunks[k], pattern).len() ==> {
            let b = vstd::utf8::encode_utf8(chunks[k].text@);
            let pos = chunk_match_starts(chunks[k], pattern)[j] as int;
            let plen = vstd::utf8::encode_utf8(pattern).len() as int;
            &&& pos + plen + 50 <= usize::MAX
            &&& context_start(pos) <= context_end(b.len() as int, pos, plen)
            &&& vstd::utf8::is_char_boundary(b, context_start(pos))
            &&& vstd::utf8::is_char_boundary(b, context_end(b.len() as int, pos, plen))
        }
}

/// The view of a search result.
pub open spec fn result_view(r: SearchResult) -> (usize, usize, Seq<char>, i64, Option<Seq<char>>) {
    (
        r.chunk_index,
        r.position,
        r.context@,
        r.timestamp,
        match r.command {
            Some(s) => Some(s@),
            None => None,
        },
    )
}

/// The bytes of `hay` from `i` on start with `needle`.
fn bytes_at(hay: &[u8], needle: &[u8], i: usize) -> (b: bool)
    requires
        i + needle@.len() <= hay@.len(),
    ensures
        b == (hay@.subrange(i as int, i + needle@.len()) == needle@),
{
    let n = hay.len();
    let mut j: usize = 0;
    while j < needle.len()
        invariant
            n == hay@.len(),
            i + needle@.len() <= hay@.len(),
            j <= needle@.len(),
            forall|t: int| 0 <= t < j ==> hay@[i + t] == needle@[t],
        decreases needle@.len() - j,
    {
        if hay[i + j] != needle[j] {
            assert(hay@.subrange(i as int, i + needle@.len())[j as int] != needle@[j as int]);
            return false;
        }
        j = j + 1;
    }
    assert(hay@.subrange(i as int, i + needle@.len()) =~= needle@);
    true
}

/// A character boundary of a text stays one in any prefix that reaches it.
proof fn lemma_boundary_in_prefix(b: Seq<u8>, start: int, end: int)
    requires
        vstd::utf8::valid_utf8(b),
        0 <= start <= end <= b.len(),
        vstd::utf8::is_char_boundary(b, start),
        vstd::utf8::is_char_boundary(b, end),
    ensures
        vstd::utf8::valid_utf8(b.subrange(0, end)),
        vstd::utf8::is_char_boundary(b.subrange(0, end), start),
{
    vstd::utf8::valid_utf8_split(b, end);
    let p = b.subrange(0, end);
    vstd::utf8::is_char_boundary_start_end_of_seq(p);
    if start < end {
        vstd::utf8::is_char_boundary_iff_not_is_continuation_byte(p, start);
        vstd::utf8::is_char_boundary_iff_not_is_continuation_byte(b, start);
        assert(p[start] == b[start]);
    } else {
        assert(p.len() == end);
    }
}

/// The text of bytes `start` to `end` of `text`.
fn byte_slice(text: &str, start: usize, end: usize) -> (s: String)
    requires
        start <= end <= text.spec_bytes().len(),
        vstd::utf8::is_char_boundary(text.spec_bytes(), start as int),
        vstd::utf8::is_char_boundary(text.spec_bytes(), end as int),
    ensures
        s@ == vstd::utf8::decode_utf8(text.spec_bytes().subrange(start as int, end as int)),
{
    proof {
        vstd::utf8::encode_utf8_valid_utf8(text@);
        lemma_boundary_in_prefix(text.spec_bytes(), start as int, end as int);
    }
    let (head, _) = text.split_at(end);
    let (_, mid) = head.split_at(start);
    proof {
        assert(mid.spec_bytes() =~= text.spec_bytes().subrange(start as int, end as int));
        vstd::utf8::encode_utf8_decode_utf8(mid@);
    }
    mid.to_owned()
}

impl OutputHistory {
    /// Every match of `pattern` in the output, compared in lower case: for
    /// each chunk, most recent first, each match left to right, with the
    /// text from 50 bytes before the match to 50 bytes after the pattern's
    /// length.
    pub fn search(&self, pattern: &str) -> (r: Vec<SearchResult>)
        requires
            search_in_bounds(self.chunks(), pattern@),
        ensures
            r@.map_values(|x: SearchResult| result_view(x)) == output_matches(
                self.chunks(),
                pattern@,
                self.chunks().len() as int,
            ),
    {
        let pl = to_lowercase(pattern);
        let needle = pl.as_str().as_bytes();
        let plen = pattern.as_bytes().len();
        let mut results: Vec<SearchResult> = Vec::new();
        let mut idx: usize = 0;
        while idx < self.chunks.len()
            invariant
                idx <= self.chunks@.len(),
                needle@ == vstd::utf8::encode_utf8(lowercase(pattern@)),
                plen == vstd::utf8::encode_utf8(pattern@).len(),
                search_in_bounds(self.chunks@, pattern@),
                results@.map_values(|x: SearchResult| result_view(x)) == output_matches(
                    self.chunks@,
                    pattern@,
                    idx as int,
                ),
            decreases self.chunks@.len() - idx,
        {
            let chunk = &self.chunks[idx];
            let tl = to_lowercase(chunk.text.as_str());
            let hay = tl.as_str().as_bytes();
            let text = chunk.text.as_str();
            let tlen = text.as_bytes().len();
            let ghost c = self.chunks@[idx as int];
            let ghost all = chunk_match_starts(c, pattern@);
            let ghost before = results@.map_values(|x: SearchResult| result_view(x));
            let ghost mut done: Seq<nat> = Seq::empty();
            let mut i: usize = 0;
            while needle.len() <= hay.len() && i <= hay.len() - needle.len()
                invariant
                    idx < self.chunks@.len(),
                    c == self.chunks@[idx as int],
                    *chunk == c,
                    text@ == c.text@,
                    tlen == vstd::utf8::encode_utf8(c.text@).len(),
                    hay@ == vstd::utf8::encode_utf8(lowercase(c.text@)),
                    tl@ == lowercase(c.text@),
                    hay@.len() < usize::MAX,
                    needle@ == vstd::utf8::encode_utf8(lowercase(pattern@)),
                    plen == vstd::utf8::encode_utf8(pattern@).len(),
                    all == chunk_match_starts(c, pattern@),
                    search_in_bounds(self.chunks@, pattern@),
                    i <= hay@.len() + 1,
                    done + match_starts(hay@, needle@, i as nat) == all,
                    results@.map_values(|x: SearchResult| result_view(x)) == before + done.map_values(
                        |p: nat| result_at(idx as int, c, pattern@, p),
                    ),
                decreases hay@.len() + 1 - i,
            {
                let found = bytes_at(hay, needle, i) && (needle.len() > 0 || tl.as_str().is_char_boundary(i));
                if found {
                    let ghost j = done.len() as int;
                    assert(match_starts(hay@, needle@, i as nat) == seq![i as nat] + match_starts(
                        hay@,
                        needle@,
                        (i + match_step(needle@)) as nat,
                    ));
                    assert(all[j] == i as nat);
                    assert(chunk_match_starts(self.chunks@[idx as int], pattern@)[j] == i as nat);
                    let start: usize = if i >= 50 { i - 50 } else { 0 };
                    let far = i + plen + 50;
                    let end: usize = if far < tlen { far } else { tlen };
                    let context = byte_slice(text, start, end);
                    let command = match &chunk.command {
                        Some(s) => Some(s.clone()),
                        None => None,
                    };
                    let ghost prev = results@;
                    results.push(SearchResult {
                        chunk_index: idx,
                        position: i,
                        context,
                        timestamp: chunk.timestamp,
                        command,
                    });
                    proof {
                        let f = |p: nat| result_at(idx as int, c, pattern@, p);
                        assert(results@.map_values(|x: SearchResult| result_view(x)) =~= prev.map_values(
                            |x: SearchResult| result_view(x),
                        ).push(f(i as nat)));
                        assert(done.push(i as nat).map_values(f) =~= done.map_values(f).push(f(i as nat)));
                        assert(done.push(i as nat) + match_starts(hay@, needle@, (i + match_step(needle@)) as nat)
                            =~= done + match_starts(hay@, needle@, i as nat));
                        done = done.push(i as nat);
                    }
                    i = if needle.len() > 0 { i + needle.len() } else { i + 1 };
                } else {
                    i = i + 1;
                }
            }
            proof {
                assert(match_starts(hay@, needle@, i as nat) =~= Seq::<nat>::empty());
                assert(done =~= all);
                assert(output_matches(self.chunks@, pattern@, idx + 1) == output_matches(self.chunks@, pattern@, idx as int)
                    + all.map_values(|p: nat| result_at(idx as int, c, pattern@, p)));
            }
            idx = idx + 1;
        }
        results
    }
}

/// Results from a search over commands and output.
#[derive(Debug, Clone)]
pub struct GlobalSearchResults {
    pub commands: Vec<CommandEntry>,
    pub output_matches: Vec<SearchResult>,
}

impl Default for GlobalSearchResults {
    fn default() -> (r: Self)
        ensures
            r.commands@.len() == 0,
            r.output_matches@.len() == 0,
    {
        GlobalSearchResults { commands: Vec::new(), output_matches: Vec::new() }
    }
}

} // verus!
