//! Session recording and playback: every terminal event with its time
//! since the recording started, and the catalogue of saved recordings.

use vstd::prelude::*;
use crate::ids::{uuid_text, RecordingId};
use crate::text::{append_str, chars_of, contains_chars, contains_seq, decimal, u64_to_decimal};
use crate::snippets::{lowercase, to_lowercase};

verus! {

/// A recorded event.
#[derive(Debug, Clone, PartialEq, Eq)]
pub enum EventType {
    /// Output from the terminal (PTY to screen)
    Output(Vec<u8>),
    /// Input to the terminal (keyboard to PTY)
    Input(Vec<u8>),
    /// Terminal resize
    Resize { rows: u16, cols: u16 },
    /// Marker (e.g., command started, command completed)
    Marker(String),
}

/// A recorded event with its time.
#[derive(Debug, Clone)]
pub struct RecordingEvent {
    /// Milliseconds since the recording started
    pub timestamp_ms: u64,
    /// The event
    pub event: EventType,
}

/// What is known of a recording.
#[derive(Debug, Clone)]
pub struct RecordingMeta {
    /// Recording ID
    pub id: RecordingId,
    /// Title
    pub title: String,
    /// Description
    pub description: Option<String>,
    /// When recording started, in milliseconds since the Unix epoch
    pub started_at: i64,
    /// When recording ended, in milliseconds since the Unix epoch
    pub ended_at: Option<i64>,
    /// Total duration in milliseconds
    pub duration_ms: u64,
    /// Initial terminal rows
    pub initial_rows: u16,
    /// Initial terminal columns
    pub initial_cols: u16,
    /// Working directory when recording started
    pub cwd: String,
    /// Shell that was used
    pub shell: Option<String>,
    /// Tags
    pub tags: Vec<String>,
    /// Number of events
    pub event_count: usize,
}

/// A complete terminal recording.
#[derive(Debug, Clone)]
pub struct Recording {
    /// Metadata
    pub meta: RecordingMeta,
    /// All recorded events, in order
    pub events: Vec<RecordingEvent>,
}

/// The milliseconds from `start` to `now`, 0 if `now` is earlier.
pub open spec fn elapsed(start: i64, now: i64) -> u64 {
    if now > start {
        (now - start) as u64
    } else {
        0
    }
}

/// What is known of a recording once it has ended at `now`.
pub open spec fn ended_meta(m: RecordingMeta, now: i64) -> RecordingMeta {
    RecordingMeta { ended_at: Some(now), duration_ms: elapsed(m.started_at, now), ..m }
}

/// The text of a duration: whole minutes and seconds ("2m 5s"), or whole
/// seconds alone under a minute ("42s").
pub open spec fn duration_text(ms: u64) -> Seq<char> {
    let secs = ms / 1000;
    let mins = secs / 60;
    if mins > 0 {
        decimal(mins as nat) + "m "@ + decimal((secs % 60) as nat) + "s"@
    } else {
        decimal((secs % 60) as nat) + "s"@
    }
}

/// A copy of a list of bytes.
fn copy_bytes(data: &[u8]) -> (r: Vec<u8>)
    ensures
        r@ == data@,
{
    let mut r: Vec<u8> = Vec::new();
    let mut i: usize = 0;
    while i < data.len()
        invariant
            i <= data@.len(),
            r@ == data@.take(i as int),
        decreases data@.len() - i,
    {
        r.push(data[i]);
        assert(r@ =~= data@.take(i + 1));
        i = i + 1;
    }
    assert(data@.take(data@.len() as int) =~= data@);
    r
}

/// Whether two events are the same: equal times, and the same kind of
/// event with the same data.
pub open spec fn same_event(a: RecordingEvent, b: RecordingEvent) -> bool {
    a.timestamp_ms == b.timestamp_ms && match (a.event, b.event) {
        (EventType::Output(x), EventType::Output(y)) => x@ == y@,
        (EventType::Input(x), EventType::Input(y)) => x@ == y@,
        (EventType::Resize { rows: r1, cols: c1 }, EventType::Resize { rows: r2, cols: c2 }) => r1 == r2 && c1
            == c2,
        (EventType::Marker(x), EventType::Marker(y)) => x@ == y@,
        _ => false,
    }
}

/// A copy of an event.
pub fn copy_event(e: &RecordingEvent) -> (r: RecordingEvent)
    ensures
        same_event(r, *e),
{
    let event = match &e.event {
        EventType::Output(d) => EventType::Output(copy_bytes(d.as_slice())),
        EventType::Input(d) => EventType::Input(copy_bytes(d.as_slice())),
        EventType::Resize { rows, cols } => EventType::Resize { rows: *rows, cols: *cols },
        EventType::Marker(s) => EventType::Marker(s.clone()),
    };
    RecordingEvent { timestamp_ms: e.timestamp_ms, event }
}

impl Recording {
    /// A new recording titled `title` of a `rows` by `cols` terminal in
    /// `cwd`, started now, with no events.
    pub fn new(title: &str, cwd: &str, rows: u16, cols: u16) -> (r: Self)
        ensures
            r.meta.title@ == title@,
            r.meta.cwd@ == cwd@,
            r.meta.initial_rows == rows,
            r.meta.initial_cols == cols,
            r.meta.description is None,
            r.meta.ended_at is None,
            r.meta.duration_ms == 0,
            r.meta.shell is None,
            r.meta.tags@.len() == 0,
            r.meta.event_count == 0,
            r.events@.len() == 0,
    {
        Recording {
            meta: RecordingMeta {
                id: RecordingId::new(),
                title: title.to_owned(),
                description: None,
                started_at: crate::clock::now_millis(),
                ended_at: None,
                duration_ms: 0,
                initial_rows: rows,
                initial_cols: cols,
                cwd: cwd.to_owned(),
                shell: None,
                tags: Vec::new(),
                event_count: 0,
            },
            events: Vec::new(),
        }
    }

    /// The milliseconds from the start of the recording to `now`.
    pub fn elapsed_at(&self, now: i64) -> (ms: u64)
        ensures
            ms == elapsed(self.meta.started_at, now),
    {
        if now > self.meta.started_at {
            ((now as i128) - (self.meta.started_at as i128)) as u64
        } else {
            0
        }
    }

    /// Records `event` as happening at `now` (milliseconds since the
    /// epoch).
    pub fn add_event_at(&mut self, event: EventType, now: i64)
        requires
            old(self).events@.len() < usize::MAX,
        ensures
            final(self).events@ == old(self).events@.push(
                RecordingEvent { timestamp_ms: elapsed(old(self).meta.started_at, now), event },
            ),
            final(self).meta == (RecordingMeta { event_count: final(self).events@.len() as usize, ..old(self).meta }),
    {
        let timestamp_ms = self.elapsed_at(now);
        self.events.push(RecordingEvent { timestamp_ms, event });
        self.meta.event_count = self.events.len();
    }

    /// Records output from the terminal, now.
    pub fn add_output(&mut self, data: &[u8])
        requires
            old(self).events@.len() < usize::MAX,
        ensures
            final(self).events@.len() == old(self).events@.len() + 1,
            final(self).events@.drop_last() == old(self).events@,
            final(self).events@.last().event matches EventType::Output(d) && d@ == data@,
            final(self).meta == (RecordingMeta { event_count: final(self).events@.len() as usize, ..old(self).meta }),
    {
        let d = copy_bytes(data);
        let now = crate::clock::now_millis();
        self.add_event_at(EventType::Output(d), now);
    }

    /// Records input to the terminal, now.
    pub fn add_input(&mut self, data: &[u8])
        requires
            old(self).events@.len() < usize::MAX,
        ensures
            final(self).events@.len() == old(self).events@.len() + 1,
            final(self).events@.drop_last() == old(self).events@,
            final(self).events@.last().event matches EventType::Input(d) && d@ == data@,
            final(self).meta == (RecordingMeta { event_count: final(self).events@.len() as usize, ..old(self).meta }),
    {
        let d = copy_bytes(data);
        let now = crate::clock::now_millis();
        self.add_event_at(EventType::Input(d), now);
    }

    /// Records a resize of the terminal, now.
    pub fn add_resize(&mut self, rows: u16, cols: u16)
        requires
            old(self).events@.len() < usize::MAX,
        ensures
            final(self).events@.len() == old(self).events@.len() + 1,
            final(self).events@.drop_last() == old(self).events@,
            final(self).events@.last().event == (EventType::Resize { rows, cols }),
            final(self).meta == (RecordingMeta { event_count: final(self).events@.len() as usize, ..old(self).meta }),
    {
        let now = crate::clock::now_millis();
        self.add_event_at(EventType::Resize { rows, cols }, now);
    }

    /// Records a marker, now.
    pub fn add_marker(&mut self, label: &str)
        requires
            old(self).events@.len() < usize::MAX,
        ensures
            final(self).events@.len() == old(self).events@.len() + 1,
            final(self).events@.drop_last() == old(self).events@,
            final(self).events@.last().event matches EventType::Marker(m) && m@ == label@,
            final(self).meta == (RecordingMeta { event_count: final(self).events@.len() as usize, ..old(self).meta }),
    {
        let now = crate::clock::now_millis();
        self.add_event_at(EventType::Marker(label.to_owned()), now);
    }

    /// Ends the recording at `now`: its end time and duration.
    pub fn finalize_at(&mut self, now: i64)
        ensures
            final(self).events == old(self).events,
            final(self).meta == ended_meta(old(self).meta, now),
    {
        self.meta.ended_at = Some(now);
        self.meta.duration_ms = self.elapsed_at(now);
    }

    /// Ends the recording now.
    pub fn finalize(&mut self)
        ensures
            final(self).events == old(self).events,
            exists|now: i64|
                final(self).meta == #[trigger] ended_meta(old(self).meta, now),
    {
        let now = crate::clock::now_millis();
        self.finalize_at(now);
    }

    /// The duration as text ("2m 5s", or "42s" under a minute).
    pub fn duration_string(&self) -> (s: String)
        ensures
            s@ == duration_text(self.meta.duration_ms),
    {
        let secs = self.meta.duration_ms / 1000;
        let mins = secs / 60;
        let rest = secs % 60;
        if mins > 0 {
            let mut s = u64_to_decimal(mins);
            append_str(&mut s, "m ");
            let r = u64_to_decimal(rest);
            append_str(&mut s, r.as_str());
            append_str(&mut s, "s");
            s
        } else {
            let mut s = u64_to_decimal(rest);
            append_str(&mut s, "s");
            s
        }
    }
}

/// The index of the first event after `position`, or the number of events.
pub open spec fn first_after(events: Seq<RecordingEvent>, position: u64) -> int
    decreases events.len(),
{
    if events.len() == 0 {
        0
    } else if events[0].timestamp_ms > position {
        0
    } else {
        1 + first_after(events.drop_first(), position)
    }
}

/// The number of events from `start` on that are due at `position`: those
/// before the first one later than it.
pub open spec fn due_count(events: Seq<RecordingEvent>, start: int, position: u64) -> int {
    first_after(events.skip(start), position)
}

proof fn lemma_first_after(events: Seq<RecordingEvent>, position: u64, k: int)
    requires
        0 <= k <= events.len(),
        forall|i: int| 0 <= i < k ==> (#[trigger] events[i]).timestamp_ms <= position,
        k < events.len() ==> events[k].timestamp_ms > position,
    ensures
        first_after(events, position) == k,
    decreases events.len(),
{
    if k > 0 {
        assert forall|i: int| 0 <= i < k - 1 implies (#[trigger] events.drop_first()[i]).timestamp_ms <= position by {
            assert(events.drop_first()[i] == events[i + 1]);
        }
        lemma_first_after(events.drop_first(), position, k - 1);
    }
}

/// The events due at `position`, from the one at `index` on: those up to
/// the first one later than `position`; and the index after them. None is
/// due while playback is paused.
pub fn next_events(events: &[RecordingEvent], index: usize, position: u64, paused: bool) -> (r: (Vec<RecordingEvent>, usize))
    ensures
        paused ==> r.0@.len() == 0 && r.1 == index,
        !paused && index >= events@.len() ==> r.0@.len() == 0 && r.1 == index,
        !paused && index < events@.len() ==> {
            let n = due_count(events@, index as int, position);
            &&& r.1 == index + n
            &&& r.0@.len() == n
            &&& forall|k: int| 0 <= k < n ==> same_event(#[trigger] r.0@[k], events@[index + k])
        },
{
    let mut out: Vec<RecordingEvent> = Vec::new();
    if paused || index >= events.len() {
        return (out, index);
    }
    let mut i = index;
    while i < events.len() && events[i].timestamp_ms <= position
        invariant
            index <= i <= events@.len(),
            out@.len() == i - index,
            forall|k: int| 0 <= k < i - index ==> same_event(#[trigger] out@[k], events@[index + k]),
            forall|k: int| index <= k < i ==> (#[trigger] events@[k]).timestamp_ms <= position,
        decreases events@.len() - i,
    {
        out.push(copy_event(&events[i]));
        i = i + 1;
    }
    proof {
        let s = events@.skip(index as int);
        assert forall|k: int| 0 <= k < i - index implies (#[trigger] s[k]).timestamp_ms <= position by {
            assert(s[k] == events@[index + k]);
        }
        if i < events@.len() {
            assert(s[i - index] == events@[i as int]);
        }
        lemma_first_after(s, position, i - index);
    }
    (out, i)
}

/// Where playback resumes after a seek to `position`: the first event
/// later than it, or the end.
pub fn seek_index(events: &[RecordingEvent], position: u64) -> (i: usize)
    ensures
        i == first_after(events@, position),
{
    let mut i: usize = 0;
    while i < events.len() && events[i].timestamp_ms <= position
        invariant
            i <= events@.len(),
            forall|k: int| 0 <= k < i ==> (#[trigger] events@[k]).timestamp_ms <= position,
        decreases events@.len() - i,
    {
        i = i + 1;
    }
    proof {
        lemma_first_after(events@, position, i as int);
    }
    i
}

proof fn lemma_first_after_bounds(events: Seq<RecordingEvent>, position: u64)
    ensures
        0 <= first_after(events, position) <= events.len(),
        first_after(events, position) < events.len() ==> events[first_after(events, position)].timestamp_ms
            > position,
    decreases events.len(),
{
    if events.len() > 0 && events[0].timestamp_ms <= position {
        lemma_first_after_bounds(events.drop_first(), position);
        let k = first_after(events.drop_first(), position);
        if k < events.len() - 1 {
            assert(events.drop_first()[k] == events[k + 1]);
        }
    }
}

/// Right after a seek to `position`, no event is due at that same
/// position: playback resumes with the first event later than it.
pub proof fn law_seek_then_nothing_due(events: Seq<RecordingEvent>, position: u64)
    ensures
        due_count(events, first_after(events, position), position) == 0,
{
    lemma_first_after_bounds(events, position);
    let k = first_after(events, position);
    let s = events.skip(k);
    if k < events.len() {
        assert(s[0] == events[k]);
    } else {
        assert(s.len() == 0);
    }
}

/// Whether the lower case of a recording's title, description or a tag
/// holds `q`.
pub open spec fn meta_matches(m: RecordingMeta, q: Seq<char>) -> bool {
    contains_seq(lowercase(m.title@), q) || (match m.description {
        Some(d) => contains_seq(lowercase(d@), q),
        None => false,
    }) || exists|i: int| 0 <= i < m.tags@.len() && contains_seq(lowercase((#[trigger] m.tags@[i])@), q)
}

/// Where `x` goes among `s`, sorted newest first: before the first one
/// started earlier.
pub open spec fn newest_point(s: Seq<RecordingMeta>, x: RecordingMeta) -> nat
    decreases s.len(),
{
    if s.len() == 0 || s[0].started_at < x.started_at {
        0
    } else {
        1 + newest_point(s.drop_first(), x)
    }
}

/// `s` sorted newest first, recordings started at the same time keeping
/// their order (a stable sort).
pub open spec fn newest_first(s: Seq<RecordingMeta>) -> Seq<RecordingMeta>
    decreases s.len(),
{
    if s.len() == 0 {
        s
    } else {
        let t = newest_first(s.drop_last());
        t.insert(newest_point(t, s.last()) as int, s.last())
    }
}

proof fn lemma_newest_point(s: Seq<RecordingMeta>, x: RecordingMeta, p: int)
    requires
        0 <= p <= s.len(),
        forall|i: int| 0 <= i < p ==> !((#[trigger] s[i]).started_at < x.started_at),
        p < s.len() ==> s[p].started_at < x.started_at,
    ensures
        newest_point(s, x) == p,
    decreases s.len(),
{
    if p > 0 {
        assert forall|i: int| 0 <= i < p - 1 implies !((#[trigger] s.drop_first()[i]).started_at < x.started_at) by {
            assert(s.drop_first()[i] == s[i + 1]);
        }
        lemma_newest_point(s.drop_first(), x, p - 1);
    }
}

/// The saved recordings: where they are stored and what is known of each,
/// newest first.
pub struct RecordingStore {
    storage_path: String,
    recordings: Vec<RecordingMeta>,
}

/// The file name a recording is saved under: its identifier and `.json`.
pub open spec fn file_name_of(id: RecordingId) -> Seq<char> {
    uuid_text(id.value()) + ".json"@
}

impl RecordingStore {
    /// What is known of the recordings, newest first.
    pub closed spec fn metas(self) -> Seq<RecordingMeta> {
        self.recordings@
    }

    /// The directory recordings are stored in.
    pub closed spec fn path(self) -> Seq<char> {
        self.storage_path@
    }

    /// A store in `storage_path` knowing no recordings.
    pub fn new(storage_path: &str) -> (s: Self)
        ensures
            s.metas().len() == 0,
            s.path() == storage_path@,
    {
        RecordingStore { storage_path: storage_path.to_owned(), recordings: Vec::new() }
    }

    /// The directory recordings are stored in.
    pub fn storage_path(&self) -> (p: &str)
        ensures
            p@ == self.path(),
    {
        self.storage_path.as_str()
    }

    /// The file name a recording is saved under.
    pub fn file_name(id: RecordingId) -> (s: String)
        ensures
            s@ == file_name_of(id),
    {
        let mut s = id.to_text();
        append_str(&mut s, ".json");
        s
    }

    /// Replaces what is known with the recordings read from disk, newest
    /// first.
    pub fn set_loaded(&mut self, found: Vec<RecordingMeta>)
        ensures
            final(self).metas() == newest_first(found@),
            final(self).path() == old(self).path(),
    {
        let ghost fv = found@;
        let mut out: Vec<RecordingMeta> = Vec::new();
        let mut rest = found;
        let mut i: usize = 0;
        let n = rest.len();
        assert(rest@ =~= fv.skip(0));
        while i < n
            invariant
                i <= n == fv.len(),
                rest@ == fv.skip(i as int),
                out@ == newest_first(fv.take(i as int)),
                self.storage_path == old(self).storage_path,
            decreases n - i,
        {
            let x = rest.remove(0);
            proof {
                assert(rest@ =~= fv.skip(i + 1));
            }
            let ghost sv = out@;
            let mut p: usize = 0;
            while p < out.len() && !(out[p].started_at < x.started_at)
                invariant
                    p <= out@.len(),
                    sv == out@,
                    forall|k: int| 0 <= k < p ==> !((#[trigger] sv[k]).started_at < x.started_at),
                decreases out@.len() - p,
            {
                p = p + 1;
            }
            proof {
                lemma_newest_point(sv, x, p as int);
                assert(fv.take(i + 1).drop_last() =~= fv.take(i as int));
                assert(fv.take(i + 1).last() == fv[i as int]);
            }
            out.insert(p, x);
            i = i + 1;
        }
        assert(fv.take(n as int) =~= fv);
        self.recordings = out;
    }

    /// Forgets the recordings with identifier `id`.
    pub fn forget(&mut self, id: RecordingId)
        ensures
            final(self).metas() == old(self).metas().filter(|m: RecordingMeta| m.id != id),
            final(self).path() == old(self).path(),
    {
        let ghost pred = |m: RecordingMeta| m.id != id;
        let mut rest: Vec<RecordingMeta> = Vec::new();
        std::mem::swap(&mut rest, &mut self.recordings);
        let ghost ov = rest@;
        let mut kept: Vec<RecordingMeta> = Vec::new();
        let n = rest.len();
        let mut i: usize = 0;
        assert(rest@ =~= ov.skip(0));
        while i < n
            invariant
                i <= n == ov.len(),
                rest@ == ov.skip(i as int),
                kept@ == ov.take(i as int).filter(pred),
                pred == (|m: RecordingMeta| m.id != id),
                self.storage_path == old(self).storage_path,
                self.recordings@.len() == 0,
            decreases n - i,
        {
            let x = rest.remove(0);
            proof {
                reveal(Seq::filter);
                assert(rest@ =~= ov.skip(i + 1));
                assert(ov.take(i + 1).drop_last() =~= ov.take(i as int));
                assert(ov.take(i + 1).last() == ov[i as int]);
            }
            if x.id != id {
                kept.push(x);
            }
            i = i + 1;
        }
        assert(ov.take(n as int) =~= ov);
        self.recordings = kept;
    }

    /// What is known of the recordings, newest first.
    pub fn list(&self) -> (r: &[RecordingMeta])
        ensures
            r@ == self.metas(),
    {
        self.recordings.as_slice()
    }

    /// The recordings whose title, description or a tag, in lower case,
    /// holds the lower case of `query`, in order.
    pub fn search(&self, query: &str) -> (r: Vec<&RecordingMeta>)
        ensures
            r@.map_values(|m: &RecordingMeta| *m) == self.metas().filter(
                |m: RecordingMeta| meta_matches(m, lowercase(query@)),
            ),
            query@.len() == 0 ==> r@.map_values(|m: &RecordingMeta| *m) == self.metas(),
    {
        let q = to_lowercase(query);
        proof {
            if query@.len() == 0 {
                let p = |m: RecordingMeta| meta_matches(m, lowercase(query@));
                assert forall|i: int| 0 <= i < self.metas().len() implies p(#[trigger] self.metas()[i]) by {
                    crate::text::lemma_contains_empty(lowercase(self.metas()[i].title@), lowercase(query@));
                }
                crate::text::lemma_filter_keeps_all(self.metas(), p);
            }
        }
        let qc = chars_of(q.as_str());
        let ghost pred = |m: RecordingMeta| meta_matches(m, lowercase(query@));
        let mut r: Vec<&RecordingMeta> = Vec::new();
        let mut i: usize = 0;
        while i < self.recordings.len()
            invariant
                i <= self.recordings@.len(),
                qc@ == lowercase(query@),
                pred == (|m: RecordingMeta| meta_matches(m, lowercase(query@))),
                r@.map_values(|m: &RecordingMeta| *m) == self.recordings@.take(i as int).filter(pred),
            decreases self.recordings@.len() - i,
        {
            proof {
                reveal(Seq::filter);
                assert(self.recordings@.take(i + 1).drop_last() =~= self.recordings@.take(i as int));
            }
            let m = &self.recordings[i];
            let ghost before = r@;
            if meta_matches_exec(m, &qc) {
                r.push(m);
                assert(r@.map_values(|m: &RecordingMeta| *m) =~= before.map_values(|m: &RecordingMeta| *m).push(*m));
            }
            i = i + 1;
        }
        assert(self.recordings@.take(self.recordings@.len() as int) =~= self.recordings@);
        r
    }

    /// The number of recordings known.
    pub fn count(&self) -> (n: usize)
        ensures
            n == self.metas().len(),
    {
        self.recordings.len()
    }
}

fn lower_has(s: &str, q: &Vec<char>) -> (b: bool)
    ensures
        b == contains_seq(lowercase(s@), q@),
{
    let l = to_lowercase(s);
    let lc = chars_of(l.as_str());
    contains_chars(lc.as_slice(), q.as_slice())
}

fn meta_matches_exec(m: &RecordingMeta, q: &Vec<char>) -> (b: bool)
    ensures
        b == meta_matches(*m, q@),
{
    if lower_has(m.title.as_str(), q) {
        return true;
    }
    match &m.description {
        Some(d) => {
            if lower_has(d.as_str(), q) {
                return true;
            }
        },
        None => {},
    }
    let mut i: usize = 0;
    while i < m.tags.len()
        invariant
            i <= m.tags@.len(),
            forall|k: int| 0 <= k < i ==> !contains_seq(lowercase((#[trigger] m.tags@[k])@), q@),
        decreases m.tags@.len() - i,
    {
        if lower_has(m.tags[i].as_str(), q) {
            return true;
        }
        i = i + 1;
    }
    false
}

} // verus!
