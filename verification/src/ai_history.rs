//! The command history the AI assistant learns from: every command run,
//! oldest first, within a limit, with lookups newest first and statistics.

use vstd::prelude::*;
use crate::text::{
    append_str, chars_of, contains_chars, contains_seq, push_char, split_whitespace_chars, str_eq, string_from_chars,
    string_views, ws_words,
};
use crate::snippets::{lowercase, to_lowercase};
use crate::tally::{
    count_distinct, count_of, distinct_keys, is_tally, is_top, lemma_count_push, most_frequent, pair_keys, tally,
    top_by_count, top_counts,
};
use crate::ai_learning::{CommandPatternInfo, CommandPreference, FrequentCommand, LearningContext};

verus! {

/// A command history entry.
#[derive(Debug, Clone)]
pub struct HistoryEntry {
    /// The command that was executed
    pub command: String,
    /// Working directory when executed
    pub directory: String,
    /// Seconds since the Unix epoch
    pub timestamp: u64,
    /// Exit code (0 = success)
    pub exit_code: Option<i32>,
    /// Duration in milliseconds
    pub duration_ms: Option<u64>,
}

/// A copy of an entry.
pub fn copy_entry(e: &HistoryEntry) -> (r: HistoryEntry)
    ensures
        r == *e,
{
    HistoryEntry {
        command: e.command.clone(),
        directory: e.directory.clone(),
        timestamp: e.timestamp,
        exit_code: e.exit_code,
        duration_ms: e.duration_ms,
    }
}

/// The entries behind a list of references.
pub open spec fn entries_of(v: Seq<&HistoryEntry>) -> Seq<HistoryEntry> {
    v.map_values(|e: &HistoryEntry| *e)
}

/// At most `limit` of the entries of `s` that pass `p`, in order.
pub open spec fn first_passing(s: Seq<HistoryEntry>, p: spec_fn(HistoryEntry) -> bool, limit: int) -> Seq<HistoryEntry> {
    s.filter(p).take(vstd::math::min(limit, s.filter(p).len() as int))
}

/// The entries, newest first.
pub open spec fn newest_first(s: Seq<HistoryEntry>) -> Seq<HistoryEntry> {
    s.reverse()
}

/// Whether an entry was run in `dir` (when given) and its command matches
/// `query` (when given).
pub open spec fn passes(e: HistoryEntry, dir: Option<Seq<char>>, query: Option<Seq<char>>) -> bool {
    (match dir {
        Some(d) => e.directory@ == d,
        None => true,
    }) && (match query {
        Some(q) => entry_matches(e, q),
        None => true,
    })
}

/// The view of an optional directory.
pub open spec fn dir_view(dir: Option<&str>) -> Option<Seq<char>> {
    match dir {
        Some(d) => Some(d@),
        None => None,
    }
}

/// The view of an optional query.
pub open spec fn query_view(query: Option<&Vec<char>>) -> Option<Seq<char>> {
    match query {
        Some(q) => Some(q@),
        None => None,
    }
}

/// The test `passes` with `dir` and `query` fixed.
pub open spec fn passing(dir: Option<Seq<char>>, query: Option<Seq<char>>) -> spec_fn(HistoryEntry) -> bool {
    |e: HistoryEntry| passes(e, dir, query)
}

/// Whether the lower case of an entry's command holds `q`.
pub open spec fn entry_matches(e: HistoryEntry, q: Seq<char>) -> bool {
    contains_seq(lowercase(e.command@), q)
}

/// The entries after `e` is added as the newest to `entries` and the
/// oldest beyond `max` are forgotten.
pub open spec fn recorded(entries: Seq<HistoryEntry>, max: usize, e: HistoryEntry) -> Seq<HistoryEntry> {
    let all = entries.push(e);
    if all.len() > max {
        all.skip(all.len() - max)
    } else {
        all
    }
}

/// A history never holds more than its limit, and, unless the limit is
/// zero, the command just recorded is the newest, the first that `recent`
/// gives back.
pub proof fn law_record_newest(entries: Seq<HistoryEntry>, max: usize, e: HistoryEntry)
    ensures
        recorded(entries, max, e).len() <= max,
        max > 0 ==> recorded(entries, max, e).last() == e,
        max > 0 ==> newest_first(recorded(entries, max, e))[0] == e,
{
}

/// The statistics of a history.
#[derive(Debug, Clone, Copy, PartialEq, Eq, Structural)]
pub struct HistoryStats {
    pub total_commands: usize,
    pub successful_commands: usize,
    pub failed_commands: usize,
    pub unique_commands: usize,
    pub unique_directories: usize,
}

/// The first words of the commands that have one, in order.
pub open spec fn first_words(s: Seq<HistoryEntry>) -> Seq<Seq<char>>
    decreases s.len(),
{
    if s.len() == 0 {
        Seq::empty()
    } else {
        let w = first_words(s.drop_last());
        let words = ws_words(s.last().command@);
        if words.len() > 0 {
            w.push(words[0])
        } else {
            w
        }
    }
}

/// The directories of the entries, in order.
pub open spec fn directories(s: Seq<HistoryEntry>) -> Seq<Seq<char>> {
    s.map_values(|e: HistoryEntry| e.directory@)
}

/// The statistics of a list of entries: how many there are, how many
/// exited with 0, how many with another code, and how many distinct first
/// words and directories they have.
pub open spec fn stats_of(s: Seq<HistoryEntry>) -> HistoryStats {
    HistoryStats {
        total_commands: s.len() as usize,
        successful_commands: s.filter(|e: HistoryEntry| e.exit_code == Some(0i32)).len() as usize,
        failed_commands: s.filter(|e: HistoryEntry| e.exit_code is Some && e.exit_code != Some(0i32)).len() as usize,
        unique_commands: first_words(s).to_set().len() as usize,
        unique_directories: directories(s).to_set().len() as usize,
    }
}

/// `s.take(j).filter(p)` is the start of `s.filter(p)`.
pub proof fn lemma_filter_take_prefix<A>(s: Seq<A>, p: spec_fn(A) -> bool, j: int)
    requires
        0 <= j <= s.len(),
    ensures
        s.take(j).filter(p).len() <= s.filter(p).len(),
        s.filter(p).take(s.take(j).filter(p).len() as int) == s.take(j).filter(p),
    decreases s.len() - j,
{
    reveal(Seq::filter);
    if j == s.len() {
        assert(s.take(j) =~= s);
        assert(s.filter(p).take(s.filter(p).len() as int) =~= s.filter(p));
    } else {
        lemma_filter_take_prefix(s, p, j + 1);
        assert(s.take(j + 1).drop_last() =~= s.take(j));
        let a = s.take(j).filter(p);
        let b = s.take(j + 1).filter(p);
        assert(b.take(a.len() as int) =~= a);
        assert(s.filter(p).take(a.len() as int) =~= b.take(a.len() as int));
    }
}

/// Persistent command history, oldest first, keeping at most a number of
/// entries.
#[derive(Debug, Clone)]
pub struct CommandHistoryStore {
    entries: Vec<HistoryEntry>,
    max_entries: usize,
}

impl Default for CommandHistoryStore {
    /// An empty store keeping at most 10000 entries.
    fn default() -> (s: Self)
        ensures
            s.entries().len() == 0,
            s.max() == 10000,
    {
        CommandHistoryStore { entries: Vec::new(), max_entries: 10000 }
    }
}

impl CommandHistoryStore {
    /// The entries, oldest first.
    pub closed spec fn entries(self) -> Seq<HistoryEntry> {
        self.entries@
    }

    /// The number of entries kept at most.
    pub closed spec fn max(self) -> usize {
        self.max_entries
    }

    /// An empty store keeping at most 10000 entries.
    pub fn new() -> (s: Self)
        ensures
            s.entries().len() == 0,
            s.max() == 10000,
    {
        Self::default()
    }

    /// A store holding `entries` (oldest first), keeping at most
    /// `max_entries`, as they were saved.
    pub fn from_parts(entries: Vec<HistoryEntry>, max_entries: usize) -> (s: Self)
        ensures
            s.entries() == entries@,
            s.max() == max_entries,
    {
        CommandHistoryStore { entries, max_entries }
    }

    /// The entries, oldest first.
    pub fn entry_list(&self) -> (r: &[HistoryEntry])
        ensures
            r@ == self.entries(),
    {
        self.entries.as_slice()
    }

    /// The number of entries kept at most.
    pub fn max_entries(&self) -> (m: usize)
        ensures
            m == self.max(),
    {
        self.max_entries
    }

    /// Adds an entry made at `timestamp` (seconds since the epoch) as the
    /// newest one, then forgets the oldest beyond the limit.
    pub fn record_at(
        &mut self,
        command: String,
        directory: String,
        exit_code: Option<i32>,
        duration_ms: Option<u64>,
        timestamp: u64,
    )
        ensures
            final(self).max() == old(self).max(),
            final(self).entries() == recorded(
                old(self).entries(),
                old(self).max(),
                HistoryEntry { command, directory, timestamp, exit_code, duration_ms },
            ),
    {
        let ghost all = self.entries@.push(HistoryEntry { command, directory, timestamp, exit_code, duration_ms });
        self.entries.push(HistoryEntry { command, directory, timestamp, exit_code, duration_ms });
        if self.entries.len() > self.max_entries {
            let excess = self.entries.len() - self.max_entries;
            let mut kept: Vec<HistoryEntry> = Vec::new();
            let mut i: usize = excess;
            while i < self.entries.len()
                invariant
                    excess <= i <= self.entries@.len(),
                    self.entries@ == all,
                    kept@ == all.subrange(excess as int, i as int),
                decreases self.entries@.len() - i,
            {
                kept.push(copy_entry(&self.entries[i]));
                assert(kept@ =~= all.subrange(excess as int, i + 1));
                i = i + 1;
            }
            assert(all.subrange(excess as int, all.len() as int) =~= all.skip(excess as int));
            self.entries = kept;
        }
    }

    /// Adds an entry stamped with the current time as the newest one, then
    /// forgets the oldest beyond the limit.
    pub fn record(&mut self, command: String, directory: String, exit_code: Option<i32>, duration_ms: Option<u64>)
        ensures
            final(self).max() == old(self).max(),
            exists|timestamp: u64|
                final(self).entries() == #[trigger] recorded(
                    old(self).entries(),
                    old(self).max(),
                    HistoryEntry { command, directory, timestamp, exit_code, duration_ms },
                ),
    {
        let timestamp = crate::clock::unix_seconds();
        self.record_at(command, directory, exit_code, duration_ms, timestamp);
    }

    /// Lists, newest first, at most `limit` of the entries that `keep` holds for.
    fn newest_where(&self, limit: usize, dir: Option<&str>, query: Option<&Vec<char>>) -> (r: Vec<&HistoryEntry>)
        ensures
            entries_of(r@) == first_passing(
                newest_first(self.entries()),
                passing(dir_view(dir), query_view(query)),
                limit as int,
            ),
    {
        let ghost p = passing(dir_view(dir), query_view(query));
        let ghost rev = newest_first(self.entries@);
        let n = self.entries.len();
        let mut r: Vec<&HistoryEntry> = Vec::new();
        let mut j: usize = 0;
        while j < n && r.len() < limit
            invariant
                j <= n == self.entries@.len() == rev.len(),
                rev == newest_first(self.entries@),
                r@.len() <= limit,
                entries_of(r@) == rev.take(j as int).filter(p),
                p == (passing(dir_view(dir), query_view(query))),
            decreases n - j,
        {
            let e = &self.entries[n - 1 - j];
            assert(rev[j as int] == *e);
            proof {
                reveal(Seq::filter);
                assert(rev.take(j + 1).drop_last() =~= rev.take(j as int));
            }
            let dir_ok = match dir {
                Some(d) => str_eq(e.directory.as_str(), d),
                None => true,
            };
            let ok = dir_ok && match query {
                Some(q) => {
                    let lower = to_lowercase(e.command.as_str());
                    let lc = chars_of(lower.as_str());
                    contains_chars(lc.as_slice(), q.as_slice())
                },
                None => true,
            };
            let ghost before = r@;
            if ok {
                r.push(e);
                assert(entries_of(r@) =~= entries_of(before).push(*e));
            }
            j = j + 1;
        }
        proof {
            lemma_filter_take_prefix(rev, p, j as int);
            let f = rev.filter(p);
            if r@.len() < limit {
                assert(rev.take(j as int) =~= rev);
                assert(f.take(f.len() as int) =~= f);
            }
        }
        r
    }

    /// The `limit` newest entries, newest first.
    pub fn recent(&self, limit: usize) -> (r: Vec<&HistoryEntry>)
        ensures
            entries_of(r@) == first_passing(newest_first(self.entries()), |e: HistoryEntry| true, limit as int),
    {
        let r = self.newest_where(limit, None, None);
        proof {
            assert(passing(None, None) =~= (|e: HistoryEntry| true));
        }
        r
    }

    /// The `limit` newest entries run in `directory`, newest first.
    pub fn for_directory(&self, directory: &str, limit: usize) -> (r: Vec<&HistoryEntry>)
        ensures
            entries_of(r@) == first_passing(
                newest_first(self.entries()),
                |e: HistoryEntry| e.directory@ == directory@,
                limit as int,
            ),
    {
        let r = self.newest_where(limit, Some(directory), None);
        proof {
            assert(passing(Some(directory@), None) =~= (|e: HistoryEntry| e.directory@ == directory@));
        }
        r
    }

    /// The `limit` newest entries whose command, in lower case, holds the
    /// lower case of `query`, newest first.
    pub fn search(&self, query: &str, limit: usize) -> (r: Vec<&HistoryEntry>)
        ensures
            entries_of(r@) == first_passing(
                newest_first(self.entries()),
                |e: HistoryEntry| entry_matches(e, lowercase(query@)),
                limit as int,
            ),
            query@.len() == 0 ==> entries_of(r@) == newest_first(self.entries()).take(
                vstd::math::min(limit as int, self.entries().len() as int),
            ),
    {
        let q = to_lowercase(query);
        let qc = chars_of(q.as_str());
        let r = self.newest_where(limit, None, Some(&qc));
        proof {
            assert(passing(None, Some(qc@)) =~= (|e: HistoryEntry| entry_matches(e, lowercase(query@))));
            if query@.len() == 0 {
                let s = newest_first(self.entries@);
                let p = |e: HistoryEntry| entry_matches(e, lowercase(query@));
                assert forall|i: int| 0 <= i < s.len() implies p(#[trigger] s[i]) by {
                    crate::text::lemma_contains_empty(lowercase(s[i].command@), lowercase(query@));
                }
                crate::text::lemma_filter_keeps_all(s, p);
            }
        }
        r
    }

    /// The number of entries.
    pub fn len(&self) -> (n: usize)
        ensures
            n == self.entries().len(),
    {
        self.entries.len()
    }

    /// Whether there are no entries.
    pub fn is_empty(&self) -> (b: bool)
        ensures
            b == (self.entries().len() == 0),
    {
        self.entries.len() == 0
    }

    /// The statistics of the history.
    pub fn stats(&self) -> (s: HistoryStats)
        ensures
            s == stats_of(self.entries()),
    {
        let ghost ok = |e: HistoryEntry| e.exit_code == Some(0i32);
        let ghost bad = |e: HistoryEntry| e.exit_code is Some && e.exit_code != Some(0i32);
        let mut successful: usize = 0;
        let mut failed: usize = 0;
        let mut words: Vec<String> = Vec::new();
        let mut dirs: Vec<String> = Vec::new();
        let mut i: usize = 0;
        while i < self.entries.len()
            invariant
                i <= self.entries@.len(),
                ok == (|e: HistoryEntry| e.exit_code == Some(0i32)),
                bad == (|e: HistoryEntry| e.exit_code is Some && e.exit_code != Some(0i32)),
                successful == self.entries@.take(i as int).filter(ok).len(),
                failed == self.entries@.take(i as int).filter(bad).len(),
                string_views(words@) == first_words(self.entries@.take(i as int)),
                string_views(dirs@) == directories(self.entries@.take(i as int)),
            decreases self.entries@.len() - i,
        {
            let ghost pre = self.entries@.take(i as int);
            let ghost next = self.entries@.take(i + 1);
            proof {
                reveal(Seq::filter);
                assert(next.drop_last() =~= pre);
                assert(next.last() == self.entries@[i as int]);
                assert(self.entries@.take(i as int).filter(ok).len() <= i) by {
                    self.entries@.take(i as int).filter_lemma(ok);
                }
                assert(self.entries@.take(i as int).filter(bad).len() <= i) by {
                    self.entries@.take(i as int).filter_lemma(bad);
                }
            }
            let e = &self.entries[i];
            match e.exit_code {
                Some(0) => {
                    successful = successful + 1;
                },
                Some(_) => {
                    failed = failed + 1;
                },
                None => {},
            }
            let v = chars_of(e.command.as_str());
            let ws = split_whitespace_chars(v.as_slice());
            let ghost wb = words@;
            if ws.len() > 0 {
                let w = string_from_chars(ws[0].as_slice());
                words.push(w);
                assert(string_views(words@) =~= string_views(wb).push(w@));
            }
            let ghost db = dirs@;
            dirs.push(e.directory.clone());
            assert(string_views(dirs@) =~= string_views(db).push(e.directory@));
            assert(directories(next) =~= directories(pre).push(e.directory@));
            i = i + 1;
        }
        assert(self.entries@.take(self.entries@.len() as int) =~= self.entries@);
        HistoryStats {
            total_commands: self.entries.len(),
            successful_commands: successful,
            failed_commands: failed,
            unique_commands: count_distinct(&words),
            unique_directories: count_distinct(&dirs),
        }
    }
}

/// The first word of an entry's command, if it has one.
pub open spec fn first_word(e: HistoryEntry) -> Option<Seq<char>> {
    let words = ws_words(e.command@);
    if words.len() > 0 {
        Some(words[0])
    } else {
        None
    }
}

/// Whether an entry's command starts with the word `w` and exited with 0.
pub open spec fn succeeded_as(w: Seq<char>) -> spec_fn(HistoryEntry) -> bool {
    |e: HistoryEntry| first_word(e) == Some(w) && e.exit_code == Some(0i32)
}

/// Whether an entry was run in `dir`.
pub open spec fn run_in(dir: Seq<char>) -> spec_fn(HistoryEntry) -> bool {
    |e: HistoryEntry| e.directory@ == dir
}

/// The commands of a list of entries.
pub open spec fn commands(s: Seq<HistoryEntry>) -> Seq<Seq<char>> {
    s.map_values(|e: HistoryEntry| e.command@)
}

/// The pairs of a list of (text, count, successes), without the successes.
pub open spec fn counted(r: Seq<(String, usize, usize)>) -> Seq<(String, usize)> {
    r.map_values(|x: (String, usize, usize)| (x.0, x.1))
}

/// The first words of the commands of `entries`, in order.
fn first_word_list(entries: &Vec<HistoryEntry>) -> (r: Vec<String>)
    ensures
        string_views(r@) == first_words(entries@),
{
    let mut words: Vec<String> = Vec::new();
    let mut i: usize = 0;
    while i < entries.len()
        invariant
            i <= entries@.len(),
            string_views(words@) == first_words(entries@.take(i as int)),
        decreases entries@.len() - i,
    {
        proof {
            assert(entries@.take(i + 1).drop_last() =~= entries@.take(i as int));
        }
        let v = chars_of(entries[i].command.as_str());
        let ws = split_whitespace_chars(v.as_slice());
        let ghost wb = words@;
        if ws.len() > 0 {
            let w = string_from_chars(ws[0].as_slice());
            words.push(w);
            assert(string_views(words@) =~= string_views(wb).push(w@));
        }
        i = i + 1;
    }
    assert(entries@.take(entries@.len() as int) =~= entries@);
    words
}

/// How many of `entries` started with the word `w` and exited with 0.
fn count_succeeded(entries: &Vec<HistoryEntry>, w: &str) -> (n: usize)
    ensures
        n == entries@.filter(succeeded_as(w@)).len(),
{
    let ghost pred = succeeded_as(w@);
    let wc = chars_of(w);
    let mut n: usize = 0;
    let mut i: usize = 0;
    while i < entries.len()
        invariant
            i <= entries@.len(),
            wc@ == w@,
            pred == succeeded_as(w@),
            n == entries@.take(i as int).filter(pred).len(),
            n <= i,
        decreases entries@.len() - i,
    {
        proof {
            reveal(Seq::filter);
            assert(entries@.take(i + 1).drop_last() =~= entries@.take(i as int));
        }
        let e = &entries[i];
        let v = chars_of(e.command.as_str());
        let ws = split_whitespace_chars(v.as_slice());
        let same = ws.len() > 0 && crate::text::chars_eq(ws[0].as_slice(), wc.as_slice());
        let ok = match e.exit_code {
            Some(c) => c == 0,
            None => false,
        };
        if same && ok {
            n = n + 1;
        }
        i = i + 1;
    }
    assert(entries@.take(entries@.len() as int) =~= entries@);
    n
}

impl CommandHistoryStore {
    /// The `limit` most used first words of the commands, each with how
    /// many commands start with it and how many of those exited with 0,
    /// most used first; the order of equally used words is left open.
    pub fn frequent_commands(&self, limit: usize) -> (r: Vec<(String, usize, usize)>)
        ensures
            top_counts(counted(r@), first_words(self.entries()), limit as nat),
            forall|i: int| 0 <= i < r@.len() ==> (#[trigger] r@[i]).2 == self.entries().filter(succeeded_as(r@[i].0@)).len(),
    {
        let words = first_word_list(&self.entries);
        let top = most_frequent(&words, limit);
        let mut r: Vec<(String, usize, usize)> = Vec::new();
        let mut i: usize = 0;
        while i < top.len()
            invariant
                i <= top@.len(),
                counted(r@) == top@.take(i as int),
                forall|k: int| 0 <= k < r@.len() ==> (#[trigger] r@[k]).2 == self.entries@.filter(succeeded_as(r@[k].0@)).len(),
            decreases top@.len() - i,
        {
            let (w, c) = (top[i].0.clone(), top[i].1);
            let n = count_succeeded(&self.entries, w.as_str());
            let ghost before = r@;
            r.push((w, c, n));
            proof {
                assert(counted(r@) =~= counted(before).push((w, c)));
                assert(top@.take(i + 1) =~= top@.take(i as int).push(top@[i as int]));
            }
            i = i + 1;
        }
        assert(top@.take(top@.len() as int) =~= top@);
        r
    }

    /// The `limit` commands run most often in `dir`, with how often, most
    /// frequent first; the order of equally frequent ones is left open.
    pub fn directory_commands(&self, dir: &str, limit: usize) -> (r: Vec<(String, usize)>)
        ensures
            top_counts(r@, commands(self.entries().filter(run_in(dir@))), limit as nat),
    {
        let ghost pred = run_in(dir@);
        let mut cmds: Vec<String> = Vec::new();
        let mut i: usize = 0;
        while i < self.entries.len()
            invariant
                i <= self.entries@.len(),
                pred == run_in(dir@),
                string_views(cmds@) == commands(self.entries@.take(i as int).filter(pred)),
            decreases self.entries@.len() - i,
        {
            proof {
                reveal(Seq::filter);
                assert(self.entries@.take(i + 1).drop_last() =~= self.entries@.take(i as int));
            }
            let ghost before = cmds@;
            if str_eq(self.entries[i].directory.as_str(), dir) {
                cmds.push(self.entries[i].command.clone());
                assert(string_views(cmds@) =~= string_views(before).push(self.entries@[i as int].command@));
                assert(commands(self.entries@.take(i + 1).filter(pred)) =~= commands(
                    self.entries@.take(i as int).filter(pred),
                ).push(self.entries@[i as int].command@));
            }
            i = i + 1;
        }
        assert(self.entries@.take(self.entries@.len() as int) =~= self.entries@);
        most_frequent(&cmds, limit)
    }
}

impl CommandHistoryStore {
    /// The directories commands were run in, each once, in the order they
    /// first occur.
    pub fn directory_list(&self) -> (r: Vec<String>)
        ensures
            forall|d: Seq<char>| #[trigger] string_views(r@).contains(d) <==> directories(self.entries()).contains(d),
            forall|i: int, j: int| 0 <= i < j < r@.len() ==> (#[trigger] r@[i])@ != (#[trigger] r@[j])@,
    {
        let mut dirs: Vec<String> = Vec::new();
        let mut i: usize = 0;
        while i < self.entries.len()
            invariant
                i <= self.entries@.len(),
                string_views(dirs@) == directories(self.entries@.take(i as int)),
            decreases self.entries@.len() - i,
        {
            let ghost db = dirs@;
            dirs.push(self.entries[i].directory.clone());
            assert(string_views(dirs@) =~= string_views(db).push(self.entries@[i as int].directory@));
            assert(directories(self.entries@.take(i + 1)) =~= directories(self.entries@.take(i as int)).push(
                self.entries@[i as int].directory@,
            ));
            i = i + 1;
        }
        assert(self.entries@.take(self.entries@.len() as int) =~= self.entries@);
        let t = tally(&dirs);
        let mut r: Vec<String> = Vec::new();
        let mut k: usize = 0;
        while k < t.len()
            invariant
                k <= t@.len(),
                string_views(r@) == pair_keys(t@).take(k as int),
            decreases t@.len() - k,
        {
            let ghost rb = r@;
            r.push(t[k].0.clone());
            assert(string_views(r@) =~= string_views(rb).push(t@[k as int].0@));
            assert(pair_keys(t@).take(k + 1) =~= pair_keys(t@).take(k as int).push(t@[k as int].0@));
            k = k + 1;
        }
        assert(pair_keys(t@).take(t@.len() as int) =~= pair_keys(t@));
        proof {
            let dv = directories(self.entries@);
            assert forall|d: Seq<char>| #[trigger] string_views(r@).contains(d) implies dv.contains(d) by {
                let j = choose|j: int| 0 <= j < string_views(r@).len() && string_views(r@)[j] == d;
                assert(t@[j].0@ == d);
            }
            assert forall|i: int, j: int| 0 <= i < j < r@.len() implies (#[trigger] r@[i])@ != (#[trigger] r@[j])@ by {
                assert(string_views(r@)[i] == t@[i].0@);
                assert(string_views(r@)[j] == t@[j].0@);
            }
        }
        r
    }
}


/// The first word of an entry's command, if it has one.
fn first_word_of(e: &HistoryEntry) -> (r: Option<String>)
    ensures
        match r {
            Some(w) => first_word(*e) == Some(w@),
            None => first_word(*e) is None,
        },
{
    let v = chars_of(e.command.as_str());
    let ws = split_whitespace_chars(v.as_slice());
    if ws.len() > 0 {
        Some(string_from_chars(ws[0].as_slice()))
    } else {
        None
    }
}

/// How many of `words` are `w`.
fn count_word(words: &Vec<String>, w: &str) -> (n: usize)
    ensures
        n == count_of(string_views(words@), w@),
{
    let ghost kv = string_views(words@);
    let mut n: usize = 0;
    let mut i: usize = 0;
    while i < words.len()
        invariant
            i <= words@.len(),
            kv == string_views(words@),
            n == count_of(kv.take(i as int), w@),
            n <= i,
        decreases words@.len() - i,
    {
        proof {
            lemma_count_push(kv.take(i as int), kv[i as int], w@);
            assert(kv.take(i + 1) =~= kv.take(i as int).push(kv[i as int]));
        }
        if str_eq(words[i].as_str(), w) {
            n = n + 1;
        }
        i = i + 1;
    }
    assert(kv.take(kv.len() as int) =~= kv);
    n
}

/// Modern alternatives to standard commands, in the order they are
/// looked for.
pub open spec fn alternatives() -> Seq<(Seq<char>, Seq<Seq<char>>)> {
    seq![
        ("ls"@, seq!["eza"@, "exa"@, "lsd"@]),
        ("cat"@, seq!["bat"@, "batcat"@]),
        ("find"@, seq!["fd"@, "fdfind"@]),
        ("grep"@, seq!["rg"@, "ripgrep"@]),
        ("du"@, seq!["dust"@, "dua"@]),
        ("diff"@, seq!["delta"@, "difft"@]),
        ("ps"@, seq!["procs"@]),
        ("top"@, seq!["htop"@, "btop"@, "bottom"@]),
    ]
}

/// The first of `alts` that the user prefers to `standard`, among the
/// first words `words` of the history: one used at all, where the two
/// together are used more than five times and the alternative in more than
/// 30% of them; with the whole percent of its use, rounded down.
pub open spec fn preferred_alternative(words: Seq<Seq<char>>, standard: Seq<char>, alts: Seq<Seq<char>>) -> Option<
    (Seq<char>, nat),
>
    decreases alts.len(),
{
    if alts.len() == 0 {
        None
    } else {
        let s = count_of(words, standard);
        let c = count_of(words, alts[0]);
        if c > 0 && s + c > 5 && 10 * c > 3 * (s + c) {
            Some((alts[0], (c * 100 / (s + c)) as nat))
        } else {
            preferred_alternative(words, standard, alts.drop_first())
        }
    }
}

/// For each standard command of `table` in turn that has a preferred
/// alternative: the command, the alternative and its percent of use.
pub open spec fn preferences_from(words: Seq<Seq<char>>, table: Seq<(Seq<char>, Seq<Seq<char>>)>) -> Seq<
    (Seq<char>, Seq<char>, nat),
>
    decreases table.len(),
{
    if table.len() == 0 {
        Seq::empty()
    } else {
        let rest = preferences_from(words, table.drop_last());
        match preferred_alternative(words, table.last().0, table.last().1) {
            Some((a, p)) => rest.push((table.last().0, a, p)),
            None => rest,
        }
    }
}

/// The texts of a list of names.
pub open spec fn name_views(v: Seq<&str>) -> Seq<Seq<char>> {
    v.map_values(|s: &str| s@)
}

/// The texts of a table of commands with their alternatives.
pub open spec fn table_view(t: Seq<(&str, Vec<&str>)>) -> Seq<(Seq<char>, Seq<Seq<char>>)> {
    t.map_values(|row: (&str, Vec<&str>)| (row.0@, name_views(row.1@)))
}

/// The preferences as (standard, preferred, percent).
pub open spec fn preference_views(r: Seq<CommandPreference>) -> Seq<(Seq<char>, Seq<char>, nat)> {
    r.map_values(|p: CommandPreference| (p.standard@, p.preferred@, p.percent as nat))
}

/// A list of names.
fn names(a: &'static str, b: Option<&'static str>, c: Option<&'static str>) -> (v: Vec<&'static str>)
    ensures
        v@ == seq![a] + (match b {
            Some(x) => seq![x],
            None => Seq::empty(),
        }) + (match c {
            Some(x) => seq![x],
            None => Seq::empty(),
        }),
{
    let mut v: Vec<&'static str> = Vec::new();
    v.push(a);
    if let Some(x) = b {
        v.push(x);
    }
    if let Some(x) = c {
        v.push(x);
    }
    v
}

/// The standard commands with their alternatives.
fn alternative_table() -> (t: Vec<(&'static str, Vec<&'static str>)>)
    ensures
        table_view(t@) == alternatives(),
{
    let mut t: Vec<(&'static str, Vec<&'static str>)> = Vec::new();
    t.push(("ls", names("eza", Some("exa"), Some("lsd"))));
    t.push(("cat", names("bat", Some("batcat"), None)));
    t.push(("find", names("fd", Some("fdfind"), None)));
    t.push(("grep", names("rg", Some("ripgrep"), None)));
    t.push(("du", names("dust", Some("dua"), None)));
    t.push(("diff", names("delta", Some("difft"), None)));
    t.push(("ps", names("procs", None, None)));
    t.push(("top", names("htop", Some("btop"), Some("bottom"))));
    proof {
        let tv = table_view(t@);
        let al = alternatives();
        assert(tv.len() == al.len());
        assert forall|i: int| 0 <= i < tv.len() implies tv[i] == al[i] by {
            assert(tv[i].1 =~= al[i].1);
        }
        assert(tv =~= al);
    }
    t
}

/// The first of `alts` preferred to `standard` among `words`, with its
/// percent of use.
fn preferred_among(words: &Vec<String>, standard: &str, alts: &Vec<&str>) -> (r: Option<(String, u32)>)
    ensures
        match r {
            Some((a, p)) => preferred_alternative(string_views(words@), standard@, name_views(alts@)) == Some(
                (a@, p as nat),
            ),
            None => preferred_alternative(string_views(words@), standard@, name_views(alts@)) is None,
        },
{
    let ghost kv = string_views(words@);
    let ghost all = name_views(alts@);
    let s = count_word(words, standard);
    assert(all.skip(0) =~= all);
    let mut i: usize = 0;
    while i < alts.len()
        invariant
            i <= alts@.len(),
            kv == string_views(words@),
            all == name_views(alts@),
            s == count_of(kv, standard@),
            preferred_alternative(kv, standard@, all) == preferred_alternative(kv, standard@, all.skip(i as int)),
        decreases alts@.len() - i,
    {
        let c = count_word(words, alts[i]);
        let total: u128 = s as u128 + c as u128;
        let cw: u128 = c as u128;
        proof {
            assert(all.skip(i as int)[0] == alts@[i as int]@);
            assert(all.skip(i as int).drop_first() =~= all.skip(i + 1));
        }
        if c > 0 && total > 5 && 10 * cw > 3 * total {
            assert((cw as int) * 100 / (total as int) <= 100) by (nonlinear_arith)
                requires
                    cw <= total,
                    total > 0,
            ;
            let p: u32 = (cw * 100 / total) as u32;
            return Some((alts[i].to_string(), p));
        }
        i = i + 1;
    }
    assert(all.skip(alts@.len() as int) =~= Seq::<Seq<char>>::empty());
    None
}

impl CommandHistoryStore {
    /// The modern alternatives the user prefers to standard commands: for
    /// each standard command in turn, the first of its alternatives that
    /// is used at all, where the two together are used more than five
    /// times and the alternative in more than 30% of them, with the whole
    /// percent of its use.
    pub fn preferences(&self) -> (r: Vec<CommandPreference>)
        ensures
            preference_views(r@) == preferences_from(first_words(self.entries()), alternatives()),
    {
        let words = first_word_list(&self.entries);
        let table = alternative_table();
        let ghost kv = string_views(words@);
        let ghost tv = table_view(table@);
        let mut r: Vec<CommandPreference> = Vec::new();
        let mut i: usize = 0;
        while i < table.len()
            invariant
                i <= table@.len(),
                kv == string_views(words@),
                tv == table_view(table@),
                preference_views(r@) == preferences_from(kv, tv.take(i as int)),
            decreases table@.len() - i,
        {
            let found = preferred_among(&words, table[i].0, &table[i].1);
            let ghost before = r@;
            proof {
                assert(tv.take(i + 1).drop_last() =~= tv.take(i as int));
                assert(tv.take(i + 1).last() == tv[i as int]);
            }
            match found {
                Some((a, p)) => {
                    r.push(CommandPreference { standard: table[i].0.to_string(), preferred: a, percent: p });
                    assert(preference_views(r@) =~= preference_views(before).push(
                        (table@[i as int].0@, a@, p as nat),
                    ));
                },
                None => {},
            }
            i = i + 1;
        }
        assert(tv.take(tv.len() as int) =~= tv);
        r
    }
}


/// Two consecutive entries as a sequence the user runs: both run in the
/// same directory, the second less than five minutes after the first (no
/// time at all if its clock reads earlier), both with a first word and the
/// two words different; the two words.
pub open spec fn pair_of(a: HistoryEntry, b: HistoryEntry) -> Option<(Seq<char>, Seq<char>)> {
    let gap: int = if b.timestamp >= a.timestamp {
        b.timestamp - a.timestamp
    } else {
        0
    };
    if a.directory@ == b.directory@ && gap < 300 && first_word(a) is Some && first_word(b) is Some && first_word(a)->0
        != first_word(b)->0 {
        Some((first_word(a)->0, first_word(b)->0))
    } else {
        None
    }
}

/// Two words joined by a space.
pub open spec fn pair_key(x: Seq<char>, y: Seq<char>) -> Seq<char> {
    x + seq![' '] + y
}

/// The sequences of two commands that the entries show, oldest first,
/// each as its two words joined by a space.
pub open spec fn pair_keys_of(s: Seq<HistoryEntry>) -> Seq<Seq<char>>
    decreases s.len(),
{
    if s.len() < 2 {
        Seq::empty()
    } else {
        let prev = pair_keys_of(s.drop_last());
        match pair_of(s[s.len() - 2], s.last()) {
            Some((x, y)) => prev.push(pair_key(x, y)),
            None => prev,
        }
    }
}

/// The two commands of a learned sequence joined by a space.
pub open spec fn pattern_key(p: CommandPatternInfo) -> Seq<char> {
    pair_key(p.sequence@[0]@, p.sequence@[1]@)
}

/// The keys of learned sequences.
pub open spec fn pattern_keys(r: Seq<CommandPatternInfo>) -> Seq<Seq<char>> {
    r.map_values(|p: CommandPatternInfo| pattern_key(p))
}

/// The confidence in a sequence seen `freq` times in a history of `n`
/// commands, in whole percent: ten times its share, at most 95.
pub open spec fn pattern_percent(freq: int, n: int) -> int {
    let v = freq * 1000 / (if n == 0 {
        1
    } else {
        n
    });
    if v > 95 {
        95
    } else {
        v
    }
}

/// `r` holds the `limit` sequences of `keys` seen most often (all of them
/// if there are fewer) among those seen at least three times, each of two
/// commands, with how often it was seen and its confidence in a history of
/// `n` commands, most frequent first; the order of sequences seen equally
/// often is left open.
pub open spec fn learned_patterns(r: Seq<CommandPatternInfo>, keys: Seq<Seq<char>>, limit: nat, n: nat) -> bool {
    &&& r.len() <= limit
    &&& forall|i: int|
        0 <= i < r.len() ==> (#[trigger] r[i]).sequence@.len() == 2 && r[i].frequency == count_of(keys, pattern_key(r[i]))
            && r[i].frequency >= 3 && keys.contains(pattern_key(r[i])) && r[i].percent == pattern_percent(
            r[i].frequency as int,
            n as int,
        )
    &&& forall|i: int, j: int|
        0 <= i < j < r.len() ==> pattern_key(#[trigger] r[i]) != pattern_key(#[trigger] r[j]) && r[i].frequency
            >= r[j].frequency
    &&& forall|k: Seq<char>|
        #[trigger] keys.contains(k) && count_of(keys, k) >= 3 && !pattern_keys(r).contains(k) ==> r.len() == limit && (
        r.len() > 0 ==> count_of(keys, k) <= r.last().frequency)
}

/// The sequences the entries show, each as its key and its two words.
fn pair_key_list(entries: &Vec<HistoryEntry>) -> (r: (Vec<String>, Vec<(String, String)>))
    ensures
        string_views(r.0@) == pair_keys_of(entries@),
        r.1@.len() == r.0@.len(),
        forall|j: int| 0 <= j < r.0@.len() ==> (#[trigger] r.0@[j])@ == pair_key(r.1@[j].0@, r.1@[j].1@),
{
    let mut keys: Vec<String> = Vec::new();
    let mut pairs: Vec<(String, String)> = Vec::new();
    if entries.len() < 2 {
        return (keys, pairs);
    }
    let mut i: usize = 1;
    assert(entries@.take(1).len() < 2);
    while i < entries.len()
        invariant
            1 <= i <= entries@.len(),
            string_views(keys@) == pair_keys_of(entries@.take(i as int)),
            pairs@.len() == keys@.len(),
            forall|j: int| 0 <= j < keys@.len() ==> (#[trigger] keys@[j])@ == pair_key(pairs@[j].0@, pairs@[j].1@),
        decreases entries@.len() - i,
    {
        let a = &entries[i - 1];
        let b = &entries[i];
        proof {
            let s = entries@.take(i + 1);
            assert(s.drop_last() =~= entries@.take(i as int));
            assert(s[s.len() - 2] == entries@[i - 1]);
            assert(s.last() == entries@[i as int]);
        }
        let ghost kb = keys@;
        if str_eq(a.directory.as_str(), b.directory.as_str()) {
            let gap: u64 = if b.timestamp >= a.timestamp {
                b.timestamp - a.timestamp
            } else {
                0
            };
            if gap < 300 {
                let wa = first_word_of(a);
                let wb = first_word_of(b);
                match (wa, wb) {
                    (Some(x), Some(y)) => {
                        if !str_eq(x.as_str(), y.as_str()) {
                            let mut key = x.clone();
                            push_char(&mut key, ' ');
                            append_str(&mut key, y.as_str());
                            assert(key@ =~= pair_key(x@, y@));
                            keys.push(key);
                            pairs.push((x, y));
                            assert(string_views(keys@) =~= string_views(kb).push(pair_key(x@, y@)));
                        }
                    },
                    _ => {},
                }
            }
        }
        i = i + 1;
    }
    assert(entries@.take(entries@.len() as int) =~= entries@);
    (keys, pairs)
}

/// Where `k` stands in `keys`.
fn index_of_key(keys: &Vec<String>, k: &String) -> (j: usize)
    requires
        string_views(keys@).contains(k@),
    ensures
        j < keys@.len(),
        keys@[j as int]@ == k@,
{
    let ghost kv = string_views(keys@);
    let mut j: usize = 0;
    while j < keys.len()
        invariant
            j <= keys@.len(),
            kv == string_views(keys@),
            kv.contains(k@),
            forall|m: int| 0 <= m < j ==> kv[m] != k@,
        decreases keys@.len() - j,
    {
        if str_eq(keys[j].as_str(), k.as_str()) {
            return j;
        }
        j = j + 1;
    }
    proof {
        let m = choose|m: int| 0 <= m < kv.len() && kv[m] == k@;
        assert(kv[m] == k@);
    }
    0
}

impl CommandHistoryStore {
    /// The sequences of two commands the user runs one after the other:
    /// consecutive entries in one directory less than five minutes apart
    /// whose first words differ, kept where seen at least three times; the
    /// `limit` seen most often, with how often and the confidence given
    /// to them.
    pub fn patterns(&self, limit: usize) -> (r: Vec<CommandPatternInfo>)
        ensures
            learned_patterns(r@, pair_keys_of(self.entries()), limit as nat, self.entries().len()),
    {
        let (keys, pairs) = pair_key_list(&self.entries);
        let ghost kv = string_views(keys@);
        let t = tally(&keys);
        let mut t2: Vec<(String, usize)> = Vec::new();
        let mut k: usize = 0;
        while k < t.len()
            invariant
                k <= t@.len(),
                is_tally(t@, kv),
                distinct_keys(t2@),
                forall|m: int| 0 <= m < t2@.len() ==> t@.take(k as int).contains(#[trigger] t2@[m]) && t2@[m].1 >= 3,
                forall|j: int| 0 <= j < k && (#[trigger] t@[j]).1 >= 3 ==> t2@.contains(t@[j]),
            decreases t@.len() - k,
        {
            let ghost before = t2@;
            if t[k].1 >= 3 {
                t2.push((t[k].0.clone(), t[k].1));
                proof {
                    assert(t2@.last() == t@[k as int]);
                    assert forall|a: int, b: int| 0 <= a < b < t2@.len() implies (#[trigger] t2@[a]).0@ != (
                    #[trigger] t2@[b]).0@ by {
                        if b == t2@.len() - 1 {
                            assert(t@.take(k as int).contains(before[a]));
                            let x = choose|x: int| 0 <= x < k && t@.take(k as int)[x] == before[a];
                            assert(t@[x] == t2@[a]);
                        } else {
                            assert(before[a] == t2@[a] && before[b] == t2@[b]);
                        }
                    }
                    assert forall|m: int| 0 <= m < t2@.len() implies t@.take(k + 1).contains(#[trigger] t2@[m])
                        && t2@[m].1 >= 3 by {
                        if m == t2@.len() - 1 {
                            assert(t@.take(k + 1)[k as int] == t2@[m]);
                        } else {
                            assert(before[m] == t2@[m]);
                            let x = choose|x: int| 0 <= x < k && t@.take(k as int)[x] == before[m];
                            assert(t@.take(k + 1)[x] == t2@[m]);
                        }
                    }
                    assert forall|j: int| 0 <= j < k + 1 && (#[trigger] t@[j]).1 >= 3 implies t2@.contains(t@[j]) by {
                        if j == k {
                            assert(t2@[t2@.len() - 1] == t@[j]);
                        } else {
                            let x = choose|x: int| 0 <= x < before.len() && before[x] == t@[j];
                            assert(t2@[x] == t@[j]);
                        }
                    }
                }
            } else {
                proof {
                    assert forall|m: int| 0 <= m < t2@.len() implies t@.take(k + 1).contains(#[trigger] t2@[m])
                        && t2@[m].1 >= 3 by {
                        let x = choose|x: int| 0 <= x < k && t@.take(k as int)[x] == t2@[m];
                        assert(t@.take(k + 1)[x] == t2@[m]);
                    }
                }
            }
            k = k + 1;
        }
        let top = top_by_count(&t2, limit);
        let n: usize = self.entries.len();
        let denom: u128 = if n == 0 {
            1
        } else {
            n as u128
        };
        let mut r: Vec<CommandPatternInfo> = Vec::new();
        let mut i: usize = 0;
        while i < top.len()
            invariant
                i <= top@.len(),
                r@.len() == i,
                kv == string_views(keys@),
                is_tally(t@, kv),
                is_top(top@, t2@, limit as nat),
                forall|m: int| 0 <= m < t2@.len() ==> t@.contains(#[trigger] t2@[m]) && t2@[m].1 >= 3,
                pairs@.len() == keys@.len(),
                forall|j: int| 0 <= j < keys@.len() ==> (#[trigger] keys@[j])@ == pair_key(pairs@[j].0@, pairs@[j].1@),
                n == self.entries@.len(),
                denom == (if n == 0 {
                    1
                } else {
                    n as int
                }),
                forall|q: int|
                    0 <= q < i ==> (#[trigger] r@[q]).sequence@.len() == 2 && pattern_key(r@[q]) == top@[q].0@
                        && r@[q].frequency == top@[q].1 && r@[q].percent == pattern_percent(top@[q].1 as int, n as int),
            decreases top@.len() - i,
        {
            proof {
                assert(t2@.contains(top@[i as int]));
                let m = choose|m: int| 0 <= m < t2@.len() && t2@[m] == top@[i as int];
                assert(t@.contains(t2@[m]));
                let x = choose|x: int| 0 <= x < t@.len() && t@[x] == t2@[m];
                assert(kv.contains(t@[x].0@));
            }
            let j = index_of_key(&keys, &top[i].0);
            let mut sequence: Vec<String> = Vec::new();
            sequence.push(pairs[j].0.clone());
            sequence.push(pairs[j].1.clone());
            let freq: usize = top[i].1;
            let v: u128 = (freq as u128) * 1000 / denom;
            let percent: u32 = if v > 95 {
                95
            } else {
                v as u32
            };
            let ghost rb = r@;
            r.push(CommandPatternInfo { sequence, frequency: freq, percent });
            proof {
                assert(r@[i as int].sequence@[0]@ == pairs@[j as int].0@);
                assert(r@[i as int].sequence@[1]@ == pairs@[j as int].1@);
                assert(keys@[j as int]@ == top@[i as int].0@);
                assert forall|q: int| 0 <= q < i + 1 implies (#[trigger] r@[q]).sequence@.len() == 2 && pattern_key(
                    r@[q],
                ) == top@[q].0@ && r@[q].frequency == top@[q].1 && r@[q].percent == pattern_percent(
                    top@[q].1 as int,
                    n as int,
                ) by {
                    if q < i {
                        assert(r@[q] == rb[q]);
                    }
                }
            }
            i = i + 1;
        }
        proof {
            let ev = self.entries@;
            assert forall|q: int| 0 <= q < r@.len() implies (#[trigger] r@[q]).sequence@.len() == 2 && r@[q].frequency
                == count_of(kv, pattern_key(r@[q])) && r@[q].frequency >= 3 && kv.contains(pattern_key(r@[q]))
                && r@[q].percent == pattern_percent(r@[q].frequency as int, ev.len() as int) by {
                assert(t2@.contains(top@[q]));
                let m = choose|m: int| 0 <= m < t2@.len() && t2@[m] == top@[q];
                assert(t@.contains(t2@[m]));
                let x = choose|x: int| 0 <= x < t@.len() && t@[x] == t2@[m];
                assert(t@[x].1 == count_of(kv, t@[x].0@));
            }
            assert forall|a: int, b: int| 0 <= a < b < r@.len() implies pattern_key(#[trigger] r@[a]) != pattern_key(
                #[trigger] r@[b],
            ) && r@[a].frequency >= r@[b].frequency by {
                assert(top@[a].0@ != top@[b].0@);
                assert(top@[a].1 >= top@[b].1);
            }
            assert(pattern_keys(r@) =~= pair_keys(top@));
            assert forall|key: Seq<char>| #[trigger] kv.contains(key) && count_of(kv, key) >= 3 && !pattern_keys(
                r@,
            ).contains(key) implies r@.len() == limit && (r@.len() > 0 ==> count_of(kv, key) <= r@.last().frequency) by {
                assert(pair_keys(t@).contains(key));
                let x = choose|x: int| 0 <= x < pair_keys(t@).len() && pair_keys(t@)[x] == key;
                assert(t@[x].0@ == key);
                assert(t@[x].1 >= 3);
                assert(t2@.contains(t@[x]));
                let m = choose|m: int| 0 <= m < t2@.len() && t2@[m] == t@[x];
                assert(t2@[m].0@ == key);
                assert(!pair_keys(top@).contains(t2@[m].0@));
                if r@.len() > 0 {
                    assert(r@.last() == r@[r@.len() - 1]);
                }
            }
        }
        r
    }
}


/// `names` are the `limit` most frequent texts of `keys` (all of them if
/// there are fewer), each once, most frequent first; the order of texts
/// that occur equally often is left open.
pub open spec fn top_names(names: Seq<Seq<char>>, keys: Seq<Seq<char>>, limit: nat) -> bool {
    &&& names.len() <= limit
    &&& forall|i: int| 0 <= i < names.len() ==> keys.contains(#[trigger] names[i])
    &&& forall|i: int, j: int| 0 <= i < j < names.len() ==> #[trigger] names[i] != #[trigger] names[j]
    &&& forall|i: int, j: int|
        0 <= i < j < names.len() ==> count_of(keys, #[trigger] names[i]) >= count_of(keys, #[trigger] names[j])
    &&& forall|k: Seq<char>|
        #[trigger] keys.contains(k) && !names.contains(k) ==> names.len() == limit && (names.len() > 0 ==> count_of(
            keys,
            k,
        ) <= count_of(keys, names.last()))
}

/// The whole percent `part` is of `whole`, rounded down (0 of nothing).
pub open spec fn percent_of(part: int, whole: int) -> int {
    if whole == 0 {
        0
    } else {
        part * 100 / whole
    }
}

/// The frequent commands as (command, count) pairs.
pub open spec fn frequent_pairs(r: Seq<FrequentCommand>) -> Seq<(String, usize)> {
    r.map_values(|f: FrequentCommand| (f.command, f.count))
}

/// No more entries succeeded as `w` than have `w` as their first word.
proof fn lemma_succeeded_at_most_used(s: Seq<HistoryEntry>, w: Seq<char>)
    ensures
        s.filter(succeeded_as(w)).len() <= count_of(first_words(s), w),
    decreases s.len(),
{
    reveal(Seq::filter);
    if s.len() > 0 {
        lemma_succeeded_at_most_used(s.drop_last(), w);
        let words = ws_words(s.last().command@);
        if words.len() > 0 {
            lemma_count_push(first_words(s.drop_last()), words[0], w);
        }
    }
}

/// The whole percent `part` is of `whole`.
fn whole_percent(part: usize, whole: usize) -> (p: u32)
    requires
        part <= whole,
    ensures
        p == percent_of(part as int, whole as int),
{
    if whole == 0 {
        0
    } else {
        let v: u128 = (part as u128) * 100 / (whole as u128);
        assert((part as int) * 100 / (whole as int) <= 100) by (nonlinear_arith)
            requires
                part <= whole,
                whole > 0,
        ;
        v as u32
    }
}

impl CommandHistoryStore {
    /// What the history teaches: the twenty most used first words with
    /// how often they succeeded, the preferred alternatives to standard
    /// commands, the ten sequences seen most often, and for each directory
    /// its ten most used commands.
    pub fn extract_learning_context(&self) -> (c: LearningContext)
        ensures
            top_counts(frequent_pairs(c.frequent_commands@), first_words(self.entries()), 20),
            forall|i: int|
                0 <= i < c.frequent_commands@.len() ==> (#[trigger] c.frequent_commands@[i]).success_percent
                    == percent_of(
                    self.entries().filter(succeeded_as(c.frequent_commands@[i].command@)).len() as int,
                    c.frequent_commands@[i].count as int,
                ),
            preference_views(c.preferences@) == preferences_from(first_words(self.entries()), alternatives()),
            learned_patterns(c.patterns@, pair_keys_of(self.entries()), 10, self.entries().len()),
            forall|d: Seq<char>|
                directories(self.entries()).contains(d) <==> exists|i: int|
                    0 <= i < c.directory_commands@.len() && (#[trigger] c.directory_commands@[i]).0@ == d,
            forall|i: int, j: int|
                0 <= i < j < c.directory_commands@.len() ==> (#[trigger] c.directory_commands@[i]).0@ != (
                #[trigger] c.directory_commands@[j]).0@,
            forall|i: int|
                0 <= i < c.directory_commands@.len() ==> top_names(
                    string_views((#[trigger] c.directory_commands@[i]).1@),
                    commands(self.entries().filter(run_in(c.directory_commands@[i].0@))),
                    10,
                ),
    {
        let top = self.frequent_commands(20);
        let ghost ev = self.entries@;
        proof {
            assert forall|q: int| 0 <= q < top@.len() implies (#[trigger] top@[q]).1 == count_of(
                first_words(ev),
                top@[q].0@,
            ) by {
                assert(counted(top@)[q] == (top@[q].0, top@[q].1));
            }
        }
        let mut fc: Vec<FrequentCommand> = Vec::new();
        let mut i: usize = 0;
        while i < top.len()
            invariant
                i <= top@.len(),
                ev == self.entries@,
                fc@.len() == i,
                forall|q: int| 0 <= q < top@.len() ==> (#[trigger] top@[q]).2 == ev.filter(succeeded_as(top@[q].0@)).len(),
                forall|q: int| 0 <= q < top@.len() ==> (#[trigger] top@[q]).1 == count_of(first_words(ev), top@[q].0@),
                forall|q: int|
                    0 <= q < i ==> (#[trigger] fc@[q]).command@ == top@[q].0@ && fc@[q].count == top@[q].1
                        && fc@[q].success_percent == percent_of(top@[q].2 as int, top@[q].1 as int),
            decreases top@.len() - i,
        {
            proof {
                lemma_succeeded_at_most_used(ev, top@[i as int].0@);
            }
            let p = whole_percent(top[i].2, top[i].1);
            let ghost fb = fc@;
            fc.push(FrequentCommand { command: top[i].0.clone(), count: top[i].1, success_percent: p });
            proof {
                assert forall|q: int| 0 <= q < i + 1 implies (#[trigger] fc@[q]).command@ == top@[q].0@ && fc@[q].count
                    == top@[q].1 && fc@[q].success_percent == percent_of(top@[q].2 as int, top@[q].1 as int) by {
                    if q < i {
                        assert(fc@[q] == fb[q]);
                    }
                }
            }
            i = i + 1;
        }
        proof {
            let fp = frequent_pairs(fc@);
            let tc = counted(top@);
            assert(fp.len() == tc.len());
            assert forall|q: int| 0 <= q < fp.len() implies fp[q].0@ == tc[q].0@ && fp[q].1 == tc[q].1 by {}
            crate::tally::lemma_top_counts_same_views(tc, fp, first_words(ev), 20);
        }
        let preferences = self.preferences();
        let patterns = self.patterns(10);
        let dirs = self.directory_list();
        let mut dc: Vec<(String, Vec<String>)> = Vec::new();
        let mut k: usize = 0;
        while k < dirs.len()
            invariant
                k <= dirs@.len(),
                ev == self.entries@,
                dc@.len() == k,
                forall|q: int| 0 <= q < k ==> (#[trigger] dc@[q]).0@ == dirs@[q]@,
                forall|q: int|
                    0 <= q < k ==> top_names(
                        string_views((#[trigger] dc@[q]).1@),
                        commands(ev.filter(run_in(dc@[q].0@))),
                        10,
                    ),
            decreases dirs@.len() - k,
        {
            let counted = self.directory_commands(dirs[k].as_str(), 10);
            let mut names: Vec<String> = Vec::new();
            let mut m: usize = 0;
            while m < counted.len()
                invariant
                    m <= counted@.len(),
                    string_views(names@) == pair_keys(counted@).take(m as int),
                decreases counted@.len() - m,
            {
                let ghost nb = names@;
                names.push(counted[m].0.clone());
                assert(string_views(names@) =~= string_views(nb).push(counted@[m as int].0@));
                assert(pair_keys(counted@).take(m + 1) =~= pair_keys(counted@).take(m as int).push(
                    counted@[m as int].0@,
                ));
                m = m + 1;
            }
            assert(pair_keys(counted@).take(counted@.len() as int) =~= pair_keys(counted@));
            proof {
                crate::tally::lemma_top_counts_names(counted@, commands(ev.filter(run_in(dirs@[k as int]@))), 10);
            }
            let ghost db = dc@;
            dc.push((dirs[k].clone(), names));
            proof {
                assert forall|q: int|
                    0 <= q < k + 1 implies top_names(
                    string_views((#[trigger] dc@[q]).1@),
                    commands(ev.filter(run_in(dc@[q].0@))),
                    10,
                ) by {
                    if q < k {
                        assert(dc@[q] == db[q]);
                    }
                }
                assert forall|q: int| 0 <= q < k + 1 implies (#[trigger] dc@[q]).0@ == dirs@[q]@ by {
                    if q < k {
                        assert(dc@[q] == db[q]);
                    }
                }
            }
            k = k + 1;
        }
        let ghost dv = dc@;
        let c = LearningContext { frequent_commands: fc, preferences, patterns, directory_commands: dc };
        proof {
            assert(c.directory_commands@ == dv);
            assert forall|d: Seq<char>| directories(ev).contains(d) <==> exists|i: int|
                0 <= i < dv.len() && (#[trigger] dv[i]).0@ == d by {
                if directories(ev).contains(d) {
                    assert(string_views(dirs@).contains(d));
                    let i = choose|i: int| 0 <= i < string_views(dirs@).len() && string_views(dirs@)[i] == d;
                    assert(dv[i].0@ == d);
                }
                if exists|i: int| 0 <= i < dv.len() && (#[trigger] dv[i]).0@ == d {
                    let i = choose|i: int| 0 <= i < dv.len() && (#[trigger] dv[i]).0@ == d;
                    assert(string_views(dirs@)[i] == d);
                    assert(string_views(dirs@).contains(d));
                }
            }
            assert forall|i: int, j: int| 0 <= i < j < dv.len() implies (#[trigger] dv[i]).0@ != (
            #[trigger] dv[j]).0@ by {
                assert(dirs@[i]@ != dirs@[j]@);
            }
        }
        c
    }
}

} // verus!
