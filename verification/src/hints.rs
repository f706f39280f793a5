//! Keyboard hints: URLs, e-mail and IP addresses, file paths and git hashes
//! found in the visible lines, labelled `a`, `b`, ... `z`, `aa`, `ab`, ...
//! so that one can be picked by typing its label.
//!
//! Finding the candidates is the job of regular expressions (the `regex`
//! crate); which of them become hints, and in which order, is decided here.

use vstd::prelude::*;
use vstd::utf8::{encode_scalar, encode_utf8};
use crate::text::{
    chars_of, push_char, string_from_chars, slice_chars, starts_with_chars, chars_eq_ignore_ascii_case,
    is_whitespace, is_ws, leading_count, lemma_leading_count_step, lemma_leading_count_bound, starts_with, ends_with,
    contains_seq, utf8_len, lemma_utf8_len_skip, bytes_prefix_ends_with,
    bytes_prefix_contains, split_on, split_chars, lemma_split_on_nonempty, parse_unsigned,
    parse_unsigned_range, eq_ignore_ascii_case,
};

verus! {

/// The kinds of hint.
#[derive(Debug, Clone, Copy, PartialEq, Eq, Structural)]
pub enum HintType {
    /// HTTP/HTTPS URL
    Url,
    /// File path (absolute or relative)
    FilePath,
    /// IP address (v4 or v6)
    IpAddress,
    /// E-mail address
    Email,
    /// Git hash (short or full)
    GitHash,
    /// Port number
    Port,
}

/// What choosing a hint of kind `t` does.
pub open spec fn action_text(t: HintType) -> Seq<char> {
    match t {
        HintType::Url => "Open in browser"@,
        HintType::FilePath => "Open/Navigate"@,
        _ => "Copy to clipboard"@,
    }
}

impl HintType {
    /// What choosing a hint of this kind does.
    pub fn action_description(&self) -> (s: &'static str)
        ensures
            s@ == action_text(*self),
    {
        match self {
            HintType::Url => "Open in browser",
            HintType::FilePath => "Open/Navigate",
            HintType::IpAddress => "Copy to clipboard",
            HintType::Email => "Copy to clipboard",
            HintType::GitHash => "Copy to clipboard",
            HintType::Port => "Copy to clipboard",
        }
    }

    /// The icon shown beside a hint of this kind (none, for every kind).
    pub fn icon(&self) -> (s: &'static str)
        ensures
            s@ == Seq::<char>::empty(),
    {
        proof {
            reveal_strlit("");
        }
        ""
    }
}

/// A labelled hint on the screen.
#[derive(Debug)]
pub struct Hint {
    /// The label typed to pick it (a, b, ... z, aa, ab, ...).
    pub label: String,
    /// The matched text.
    pub text: String,
    /// Its kind.
    pub hint_type: HintType,
    /// Row, from the top of the visible lines.
    pub row: usize,
    /// Start column (0-indexed): the characters of the line before the
    /// match.
    pub col_start: usize,
    /// End column (exclusive): the characters of the line up to the end of
    /// the match.
    pub col_end: usize,
}

impl Clone for Hint {
    fn clone(&self) -> (r: Self)
        ensures
            r == *self,
    {
        Hint {
            label: self.label.clone(),
            text: self.text.clone(),
            hint_type: self.hint_type,
            row: self.row,
            col_start: self.col_start,
            col_end: self.col_end,
        }
    }
}

impl Hint {
    /// Whether the position (`row`, `col`) lies in this hint.
    pub fn contains(&self, row: usize, col: usize) -> (b: bool)
        ensures
            b == (self.row == row && self.col_start <= col && col < self.col_end),
    {
        self.row == row && col >= self.col_start && col < self.col_end
    }
}

/// Which kinds of hint to look for.
pub struct HintDetector {
    /// Look for URLs.
    pub detect_urls: bool,
    /// Look for file paths.
    pub detect_paths: bool,
    /// Look for IP addresses.
    pub detect_ips: bool,
    /// Look for e-mail addresses.
    pub detect_emails: bool,
    /// Look for git hashes.
    pub detect_git_hashes: bool,
}

impl Default for HintDetector {
    fn default() -> (d: Self)
        ensures
            d.detect_urls && d.detect_paths && d.detect_ips && d.detect_emails && d.detect_git_hashes,
    {
        HintDetector {
            detect_urls: true,
            detect_paths: true,
            detect_ips: true,
            detect_emails: true,
            detect_git_hashes: true,
        }
    }
}

/// HTTP and HTTPS URLs.
pub const URL_PATTERN: &'static str = r#"https?://[^\s<>"'`\]\)]+"#;

/// Absolute paths, relative paths and file names with an extension, each
/// perhaps with a line number, after the start of the line, white space or
/// a colon.
pub const FILE_PATH_PATTERN: &'static str =
    r"(?:^|[\s:])(/[^\s:]+|\.{1,2}/[^\s:]+|[a-zA-Z0-9_-]+\.[a-zA-Z0-9]+)(?::\d+)?";

/// Dotted IPv4 addresses, perhaps with a port.
pub const IP_V4_PATTERN: &'static str = r"\b(?:\d{1,3}\.){3}\d{1,3}(?::\d+)?\b";

/// IPv6 addresses, perhaps bracketed and with a port.
pub const IP_V6_PATTERN: &'static str = r"\[?[0-9a-fA-F:]+:[0-9a-fA-F:]+\]?(?::\d+)?";

/// E-mail addresses.
pub const EMAIL_PATTERN: &'static str = r"\b[a-zA-Z0-9._%+-]+@[a-zA-Z0-9.-]+\.[a-zA-Z]{2,}\b";

/// Hexadecimal strings of 7 to 40 digits.
pub const GIT_HASH_PATTERN: &'static str = r"\b[0-9a-f]{7,40}\b";

/// One match of a regular expression: its byte range in the searched text
/// and the matched text.
pub struct RegexMatch {
    pub start: usize,
    pub end: usize,
    pub text: String,
}

impl View for RegexMatch {
    type V = (usize, usize, Seq<char>);

    open spec fn view(&self) -> (usize, usize, Seq<char>) {
        (self.start, self.end, self.text@)
    }
}

/// The matches of `pattern` in `haystack`, as `Regex::find_iter` yields
/// them.
pub uninterp spec fn regex_matches(pattern: Seq<char>, haystack: Seq<char>) -> Seq<(usize, usize, Seq<char>)>;

/// The views of a list of matches.
pub open spec fn match_views(ms: Seq<RegexMatch>) -> Seq<(usize, usize, Seq<char>)> {
    ms.map_values(|m: RegexMatch| m@)
}

/// What the `regex` documentation promises of the matches of a search in
/// `haystack`: each is a byte range of the haystack whose bytes are the
/// matched text, and they come in order without overlapping.
pub open spec fn well_placed(haystack: Seq<char>, ms: Seq<(usize, usize, Seq<char>)>) -> bool {
    &&& forall|i: int|
        0 <= i < ms.len() ==> (#[trigger] ms[i]).0 <= ms[i].1 && ms[i].1 <= utf8_len(haystack)
            && encode_utf8(ms[i].2) == encode_utf8(haystack).subrange(ms[i].0 as int, ms[i].1 as int)
    &&& forall|i: int, j: int| 0 <= i < j < ms.len() ==> (#[trigger] ms[i]).1 <= (#[trigger] ms[j]).0
}

/// Compiles `pattern` with `Regex::new` and collects `Regex::find_iter` on
/// `haystack`, each match as its `start()`, `end()` and `as_str()`; no
/// match where the pattern does not compile. Claimed: the result is a
/// function of the pattern and the haystack (`regex_matches`), and it is
/// placed as the `regex` documentation says (`well_placed`).
#[verifier::external_body]
fn find_matches(pattern: &str, haystack: &str) -> (r: Vec<RegexMatch>)
    ensures
        match_views(r@) == regex_matches(pattern@, haystack@),
        well_placed(haystack@, match_views(r@)),
{
    match regex::Regex::new(pattern) {
        Ok(re) => re.find_iter(haystack).map(
            |m| RegexMatch { start: m.start(), end: m.end(), text: m.as_str().to_string() },
        ).collect(),
        Err(_) => Vec::new(),
    }
}

/// A hint found in one line: its kind, its text and its byte range.
pub struct LineHint {
    pub hint_type: HintType,
    pub text: String,
    pub start: usize,
    pub end: usize,
}

impl View for LineHint {
    type V = (HintType, Seq<char>, int, int);

    open spec fn view(&self) -> (HintType, Seq<char>, int, int) {
        (self.hint_type, self.text@, self.start as int, self.end as int)
    }
}

impl Clone for LineHint {
    fn clone(&self) -> (r: Self)
        ensures
            r == *self,
    {
        LineHint { hint_type: self.hint_type, text: self.text.clone(), start: self.start, end: self.end }
    }
}

/// The views of a list of line hints.
pub open spec fn hint_views(hs: Seq<LineHint>) -> Seq<(HintType, Seq<char>, int, int)> {
    hs.map_values(|h: LineHint| h@)
}

/// Whether the byte range `s..e` overlaps one of `found`.
pub open spec fn overlaps(found: Seq<(HintType, Seq<char>, int, int)>, s: int, e: int) -> bool {
    exists|i: int| 0 <= i < found.len() && s < (#[trigger] found[i]).3 && e > found[i].2
}

/// The passes over a line, in the order in which they claim text.
#[derive(Clone, Copy, PartialEq, Eq, Structural)]
pub enum Phase {
    Urls,
    Emails,
    Ipv4,
    Ipv6,
    Paths,
    GitHashes,
}

/// A matched path without the white space and colons before it.
pub open spec fn path_text(m: Seq<char>) -> Seq<char> {
    m.skip(leading_count(m, |c: char| is_ws(c) || c == ':') as int)
}

/// Whether `p` reads as a number no larger than 255 (as a `u16` first).
pub open spec fn octet_ok(p: Seq<char>) -> bool {
    match parse_unsigned(p, 65535) {
        Some(n) => n <= 255,
        None => false,
    }
}

/// Whether the address part of a matched IPv4 text (before any colon) has
/// only components no larger than 255.
pub open spec fn valid_ipv4(m: Seq<char>) -> bool {
    let parts = split_on(split_on(m, ':')[0], '.');
    forall|i: int| 0 <= i < parts.len() ==> octet_ok(#[trigger] parts[i])
}

/// Whether the text before a matched hash makes it look like a git hash,
/// or the hash is a full one.
pub open spec fn git_context(line: Seq<char>, m: (usize, usize, Seq<char>)) -> bool {
    let before = encode_utf8(line).take(m.0 as int);
    ||| ends_with(before, encode_utf8("commit "@))
    ||| ends_with(before, encode_utf8("hash "@))
    ||| ends_with(before, encode_utf8("ref "@))
    ||| contains_seq(before, encode_utf8("git "@))
    ||| utf8_len(m.2) >= 40
}

/// What one match adds to the hints found so far in a pass.
pub open spec fn phase_step(
    phase: Phase,
    line: Seq<char>,
    found: Seq<(HintType, Seq<char>, int, int)>,
    m: (usize, usize, Seq<char>),
) -> Seq<(HintType, Seq<char>, int, int)> {
    let s = m.0 as int;
    let e = m.1 as int;
    let t = m.2;
    match phase {
        Phase::Urls => found.push((HintType::Url, t, s, e)),
        Phase::Emails => if overlaps(found, s, e) {
            found
        } else {
            found.push((HintType::Email, t, s, e))
        },
        Phase::Ipv4 => if valid_ipv4(t) && !overlaps(found, s, e) {
            found.push((HintType::IpAddress, t, s, e))
        } else {
            found
        },
        Phase::Ipv6 => if overlaps(found, s, e) {
            found
        } else {
            found.push((HintType::IpAddress, t, s, e))
        },
        Phase::Paths => {
            let p = path_text(t);
            let a = s + (utf8_len(t) - utf8_len(p));
            if !overlaps(found, a, e) && !starts_with(p, "http"@) && utf8_len(p) > 2 {
                found.push((HintType::FilePath, p, a, e))
            } else {
                found
            }
        },
        Phase::GitHashes => if git_context(line, m) && !overlaps(found, s, e) {
            found.push((HintType::GitHash, t, s, e))
        } else {
            found
        },
    }
}

/// In the git-hash pass, a match that overlaps no hint found so far is
/// kept as a git hash when the bytes of the line before it end with
/// `commit `, `hash ` or `ref `, or hold `git `, or when it is a full
/// hash of at least forty characters; one that overlaps a hint found
/// before is dropped.
pub proof fn law_git_hash_context(
    line: Seq<char>,
    found: Seq<(HintType, Seq<char>, int, int)>,
    m: (usize, usize, Seq<char>),
)
    ensures
        !overlaps(found, m.0 as int, m.1 as int) && (ends_with(
            encode_utf8(line).take(m.0 as int),
            encode_utf8("commit "@),
        ) || ends_with(encode_utf8(line).take(m.0 as int), encode_utf8("hash "@)) || ends_with(
            encode_utf8(line).take(m.0 as int),
            encode_utf8("ref "@),
        ) || contains_seq(encode_utf8(line).take(m.0 as int), encode_utf8("git "@)) || utf8_len(m.2) >= 40)
            ==> phase_step(Phase::GitHashes, line, found, m) == found.push(
            (HintType::GitHash, m.2, m.0 as int, m.1 as int),
        ),
        overlaps(found, m.0 as int, m.1 as int) ==> phase_step(Phase::GitHashes, line, found, m) == found,
{
}

/// A match kept by a pass stays among the hints of every later step of
/// that pass: the hints of a pass only grow.
pub proof fn law_run_phase_grows(
    phase: Phase,
    line: Seq<char>,
    found: Seq<(HintType, Seq<char>, int, int)>,
    ms: Seq<(usize, usize, Seq<char>)>,
    n: int,
)
    requires
        0 <= n <= ms.len(),
    ensures
        run_phase(phase, line, found, ms.take(n)).is_prefix_of(run_phase(phase, line, found, ms)),
    decreases ms.len(),
{
    if n < ms.len() {
        assert(ms.drop_last().take(n) =~= ms.take(n));
        law_run_phase_grows(phase, line, found, ms.drop_last(), n);
        law_phase_step_grows(phase, line, run_phase(phase, line, found, ms.drop_last()), ms.last());
    } else {
        assert(ms.take(n) =~= ms);
    }
}

/// A hash match that directly follows `commit ` on its line, and
/// overlaps none of the hints found before it, is among the hints that the
/// git-hash pass gives.
pub proof fn law_commit_hash_reported(
    line: Seq<char>,
    found: Seq<(HintType, Seq<char>, int, int)>,
    ms: Seq<(usize, usize, Seq<char>)>,
    i: int,
)
    requires
        0 <= i < ms.len(),
        ends_with(encode_utf8(line).take(ms[i].0 as int), encode_utf8("commit "@)),
        !overlaps(run_phase(Phase::GitHashes, line, found, ms.take(i)), ms[i].0 as int, ms[i].1 as int),
    ensures
        run_phase(Phase::GitHashes, line, found, ms).contains(
            (HintType::GitHash, ms[i].2, ms[i].0 as int, ms[i].1 as int),
        ),
{
    let before = run_phase(Phase::GitHashes, line, found, ms.take(i));
    let h = (HintType::GitHash, ms[i].2, ms[i].0 as int, ms[i].1 as int);
    assert(ms.take(i + 1).drop_last() =~= ms.take(i));
    assert(ms.take(i + 1).last() == ms[i]);
    law_git_hash_context(line, before, ms[i]);
    let after = run_phase(Phase::GitHashes, line, found, ms.take(i + 1));
    assert(after == before.push(h));
    assert(after[before.len() as int] == h);
    law_run_phase_grows(Phase::GitHashes, line, found, ms, i + 1);
    let all = run_phase(Phase::GitHashes, line, found, ms);
    assert(all[before.len() as int] == h);
}

/// One step of a pass keeps the hints found before it.
pub proof fn law_phase_step_grows(
    phase: Phase,
    line: Seq<char>,
    found: Seq<(HintType, Seq<char>, int, int)>,
    m: (usize, usize, Seq<char>),
)
    ensures
        found.is_prefix_of(phase_step(phase, line, found, m)),
{
    assert(found.is_prefix_of(found));
    assert(found.is_prefix_of(found.push((HintType::GitHash, m.2, m.0 as int, m.1 as int))));
}

/// The hints after one pass over the matches `ms`.
pub open spec fn run_phase(
    phase: Phase,
    line: Seq<char>,
    found: Seq<(HintType, Seq<char>, int, int)>,
    ms: Seq<(usize, usize, Seq<char>)>,
) -> Seq<(HintType, Seq<char>, int, int)>
    decreases ms.len(),
{
    if ms.len() == 0 {
        found
    } else {
        phase_step(phase, line, run_phase(phase, line, found, ms.drop_last()), ms.last())
    }
}

/// The hints of a line, given the matches of each pattern in it: URLs first,
/// then e-mail addresses, IP addresses, paths and git hashes, each kept only
/// where it does not overlap one kept before.
pub open spec fn line_hints_from(
    det: HintDetector,
    line: Seq<char>,
    urls: Seq<(usize, usize, Seq<char>)>,
    emails: Seq<(usize, usize, Seq<char>)>,
    ipv4: Seq<(usize, usize, Seq<char>)>,
    ipv6: Seq<(usize, usize, Seq<char>)>,
    paths: Seq<(usize, usize, Seq<char>)>,
    gits: Seq<(usize, usize, Seq<char>)>,
) -> Seq<(HintType, Seq<char>, int, int)> {
    let f0 = Seq::<(HintType, Seq<char>, int, int)>::empty();
    let f1 = if det.detect_urls {
        run_phase(Phase::Urls, line, f0, urls)
    } else {
        f0
    };
    let f2 = if det.detect_emails {
        run_phase(Phase::Emails, line, f1, emails)
    } else {
        f1
    };
    let f3 = if det.detect_ips {
        run_phase(Phase::Ipv6, line, run_phase(Phase::Ipv4, line, f2, ipv4), ipv6)
    } else {
        f2
    };
    let f4 = if det.detect_paths {
        run_phase(Phase::Paths, line, f3, paths)
    } else {
        f3
    };
    if det.detect_git_hashes {
        run_phase(Phase::GitHashes, line, f4, gits)
    } else {
        f4
    }
}

/// The hints of a line.
pub open spec fn line_hints(det: HintDetector, line: Seq<char>) -> Seq<(HintType, Seq<char>, int, int)> {
    line_hints_from(
        det,
        line,
        regex_matches(URL_PATTERN@, line),
        regex_matches(EMAIL_PATTERN@, line),
        regex_matches(IP_V4_PATTERN@, line),
        regex_matches(IP_V6_PATTERN@, line),
        regex_matches(FILE_PATH_PATTERN@, line),
        regex_matches(GIT_HASH_PATTERN@, line),
    )
}

/// Whether `s..e` overlaps one of `found`.
fn overlaps_any(found: &Vec<LineHint>, s: usize, e: usize) -> (b: bool)
    ensures
        b == overlaps(hint_views(found@), s as int, e as int),
{
    let ghost fv = hint_views(found@);
    let mut i: usize = 0;
    while i < found.len()
        invariant
            i <= found@.len(),
            fv == hint_views(found@),
            forall|j: int| 0 <= j < i ==> !(s < (#[trigger] fv[j]).3 && e > fv[j].2),
        decreases found@.len() - i,
    {
        if s < found[i].end && e > found[i].start {
            assert(s < fv[i as int].3 && e > fv[i as int].2);
            return true;
        }
        i = i + 1;
    }
    false
}

/// Whether the IPv4 text `t` has only components no larger than 255.
fn ipv4_components_ok(t: &str) -> (b: bool)
    ensures
        b == valid_ipv4(t@),
{
    let chars = chars_of(t);
    let fields = split_chars(chars.as_slice(), ':');
    proof {
        lemma_split_on_nonempty(t@, ':');
    }
    let parts = split_chars(fields[0].as_slice(), '.');
    let ghost ps = split_on(split_on(t@, ':')[0], '.');
    let mut i: usize = 0;
    while i < parts.len()
        invariant
            i <= parts@.len() == ps.len(),
            ps == split_on(split_on(t@, ':')[0], '.'),
            forall|j: int| 0 <= j < parts@.len() ==> #[trigger] parts@[j]@ == ps[j],
            forall|j: int| 0 <= j < i ==> octet_ok(#[trigger] ps[j]),
        decreases parts@.len() - i,
    {
        let part = &parts[i];
        let n = parse_unsigned_range(part.as_slice(), 0, part.len(), 65535);
        assert(part@.subrange(0, part@.len() as int) =~= ps[i as int]);
        match n {
            Some(v) => {
                if v > 255 {
                    assert(!octet_ok(ps[i as int]));
                    return false;
                }
            },
            None => {
                assert(!octet_ok(ps[i as int]));
                return false;
            },
        }
        i = i + 1;
    }
    true
}

/// The byte at which the path in the matched text `t` starts, counted from
/// the match's start, and the path itself.
fn trimmed_path(t: &str) -> (r: (usize, String))
    ensures
        r.1@ == path_text(t@),
        r.0 == utf8_len(t@) - utf8_len(path_text(t@)),
{
    let chars = chars_of(t);
    let mut k: usize = 0;
    while k < chars.len() && (is_whitespace(chars[k]) || chars[k] == ':')
        invariant
            k <= chars@.len(),
            chars@ == t@,
            forall|i: int| 0 <= i < k ==> (is_ws(#[trigger] chars@[i]) || chars@[i] == ':'),
        decreases chars@.len() - k,
    {
        k = k + 1;
    }
    proof {
        lemma_leading_count_step(t@, |c: char| is_ws(c) || c == ':', k as int);
        lemma_utf8_len_skip(t@, k as int);
    }
    let rest = slice_chars(chars.as_slice(), k, chars.len());
    let p = string_from_chars(rest.as_slice());
    assert(p@ =~= path_text(t@));
    let whole = t.as_bytes().len();
    let part = p.as_str().as_bytes().len();
    (whole - part, p)
}

/// One step of a pass: the hint that the match `m` adds, if any.
fn phase_candidate(phase: Phase, line: &str, bytes: &[u8], found: &Vec<LineHint>, m: &RegexMatch) -> (r:
    Option<LineHint>)
    requires
        bytes@ == encode_utf8(line@),
        m.start <= m.end <= utf8_len(line@),
        encode_utf8(m.text@) == encode_utf8(line@).subrange(m.start as int, m.end as int),
    ensures
        phase_step(phase, line@, hint_views(found@), m@) == match r {
            Some(h) => hint_views(found@).push(h@),
            None => hint_views(found@),
        },
{
    let s = m.start;
    let e = m.end;
    match phase {
        Phase::Urls => Some(LineHint { hint_type: HintType::Url, text: m.text.clone(), start: s, end: e }),
        Phase::Emails => {
            if overlaps_any(found, s, e) {
                None
            } else {
                Some(LineHint { hint_type: HintType::Email, text: m.text.clone(), start: s, end: e })
            }
        },
        Phase::Ipv4 => {
            if ipv4_components_ok(m.text.as_str()) && !overlaps_any(found, s, e) {
                Some(LineHint { hint_type: HintType::IpAddress, text: m.text.clone(), start: s, end: e })
            } else {
                None
            }
        },
        Phase::Ipv6 => {
            if overlaps_any(found, s, e) {
                None
            } else {
                Some(LineHint { hint_type: HintType::IpAddress, text: m.text.clone(), start: s, end: e })
            }
        },
        Phase::Paths => {
            let (skipped, p) = trimmed_path(m.text.as_str());
            assert(utf8_len(m.text@) == e - s);
            let a = s + skipped;
            let pc = chars_of(p.as_str());
            let http = chars_of("http");
            if !overlaps_any(found, a, e) && !starts_with_chars(pc.as_slice(), http.as_slice())
                && p.as_str().as_bytes().len() > 2 {
                Some(LineHint { hint_type: HintType::FilePath, text: p, start: a, end: e })
            } else {
                None
            }
        },
        Phase::GitHashes => {
            let commit = "commit ".as_bytes();
            let hash = "hash ".as_bytes();
            let git_ref = "ref ".as_bytes();
            let git = "git ".as_bytes();
            let context = bytes_prefix_ends_with(bytes, s, commit) || bytes_prefix_ends_with(bytes, s, hash)
                || bytes_prefix_ends_with(bytes, s, git_ref) || bytes_prefix_contains(bytes, s, git)
                || m.text.as_str().as_bytes().len() >= 40;
            if context && !overlaps_any(found, s, e) {
                Some(LineHint { hint_type: HintType::GitHash, text: m.text.clone(), start: s, end: e })
            } else {
                None
            }
        },
    }
}

/// One pass over the matches `ms`, adding to `found`.
fn run_phase_exec(phase: Phase, line: &str, bytes: &[u8], found: &mut Vec<LineHint>, ms: &Vec<RegexMatch>)
    requires
        bytes@ == encode_utf8(line@),
        well_placed(line@, match_views(ms@)),
    ensures
        hint_views(final(found)@) == run_phase(phase, line@, hint_views(old(found)@), match_views(ms@)),
{
    let ghost start = hint_views(found@);
    let ghost mv = match_views(ms@);
    let mut i: usize = 0;
    while i < ms.len()
        invariant
            i <= ms@.len(),
            mv == match_views(ms@),
            bytes@ == encode_utf8(line@),
            well_placed(line@, mv),
            hint_views(found@) == run_phase(phase, line@, start, mv.take(i as int)),
        decreases ms@.len() - i,
    {
        assert(mv[i as int] == ms@[i as int]@);
        let c = phase_candidate(phase, line, bytes, found, &ms[i]);
        assert(mv.take(i + 1).drop_last() =~= mv.take(i as int));
        match c {
            Some(h) => {
                let ghost before = found@;
                found.push(h);
                assert(hint_views(found@) =~= hint_views(before).push(h@));
            },
            None => {},
        }
        assert(hint_views(found@) == run_phase(phase, line@, start, mv.take(i + 1)));
        i = i + 1;
    }
    assert(mv.take(ms@.len() as int) =~= mv);
}

impl HintDetector {
    /// A detector that looks for every kind of hint.
    pub fn new() -> (d: Self)
        ensures
            d.detect_urls && d.detect_paths && d.detect_ips && d.detect_emails && d.detect_git_hashes,
    {
        Self::default()
    }

    /// The hints of `line`, given the matches of each pattern in it.
    pub fn hints_from_matches(
        &self,
        line: &str,
        urls: &Vec<RegexMatch>,
        emails: &Vec<RegexMatch>,
        ipv4: &Vec<RegexMatch>,
        ipv6: &Vec<RegexMatch>,
        paths: &Vec<RegexMatch>,
        gits: &Vec<RegexMatch>,
    ) -> (r: Vec<LineHint>)
        requires
            well_placed(line@, match_views(urls@)),
            well_placed(line@, match_views(emails@)),
            well_placed(line@, match_views(ipv4@)),
            well_placed(line@, match_views(ipv6@)),
            well_placed(line@, match_views(paths@)),
            well_placed(line@, match_views(gits@)),
        ensures
            hint_views(r@) == line_hints_from(
                *self,
                line@,
                match_views(urls@),
                match_views(emails@),
                match_views(ipv4@),
                match_views(ipv6@),
                match_views(paths@),
                match_views(gits@),
            ),
    {
        let bytes = line.as_bytes();
        let mut found: Vec<LineHint> = Vec::new();
        assert(hint_views(found@) =~= Seq::<(HintType, Seq<char>, int, int)>::empty());
        if self.detect_urls {
            run_phase_exec(Phase::Urls, line, bytes, &mut found, urls);
        }
        if self.detect_emails {
            run_phase_exec(Phase::Emails, line, bytes, &mut found, emails);
        }
        if self.detect_ips {
            run_phase_exec(Phase::Ipv4, line, bytes, &mut found, ipv4);
            run_phase_exec(Phase::Ipv6, line, bytes, &mut found, ipv6);
        }
        if self.detect_paths {
            run_phase_exec(Phase::Paths, line, bytes, &mut found, paths);
        }
        if self.detect_git_hashes {
            run_phase_exec(Phase::GitHashes, line, bytes, &mut found, gits);
        }
        found
    }

    /// The hints of one line, in the order in which they were claimed.
    pub fn scan_line(&self, line: &str) -> (r: Vec<LineHint>)
        ensures
            hint_views(r@) == line_hints(*self, line@),
            all_placed(line@, hint_views(r@)),
    {
        let urls = if self.detect_urls {
            find_matches(URL_PATTERN, line)
        } else {
            Vec::new()
        };
        let emails = if self.detect_emails {
            find_matches(EMAIL_PATTERN, line)
        } else {
            Vec::new()
        };
        let ipv4 = if self.detect_ips {
            find_matches(IP_V4_PATTERN, line)
        } else {
            Vec::new()
        };
        let ipv6 = if self.detect_ips {
            find_matches(IP_V6_PATTERN, line)
        } else {
            Vec::new()
        };
        let paths = if self.detect_paths {
            find_matches(FILE_PATH_PATTERN, line)
        } else {
            Vec::new()
        };
        let gits = if self.detect_git_hashes {
            find_matches(GIT_HASH_PATTERN, line)
        } else {
            Vec::new()
        };
        let r = self.hints_from_matches(line, &urls, &emails, &ipv4, &ipv6, &paths, &gits);
        proof {
            lemma_line_hints_placed(
                *self,
                line@,
                match_views(urls@),
                match_views(emails@),
                match_views(ipv4@),
                match_views(ipv6@),
                match_views(paths@),
                match_views(gits@),
            );
        }
        r
    }
}


/// Whether a hint at `a` comes after one at `b` in reading order (by row,
/// then by first column).
pub open spec fn reads_after(a: (int, (HintType, Seq<char>, int, int)), b: (int, (HintType, Seq<char>, int, int))) -> bool {
    a.0 > b.0 || (a.0 == b.0 && a.1.2 > b.1.2)
}

/// Where `x` goes in the ordered `s`: before the first element that reads
/// after it.
pub open spec fn insert_pos(s: Seq<(int, (HintType, Seq<char>, int, int))>, x: (int, (HintType, Seq<char>, int, int))) -> nat
    decreases s.len(),
{
    if s.len() == 0 || reads_after(s[0], x) {
        0
    } else {
        1 + insert_pos(s.drop_first(), x)
    }
}

/// `s` put in reading order, keeping the order of hints at one place
/// (insertion of each element in turn).
pub open spec fn reading_order(s: Seq<(int, (HintType, Seq<char>, int, int))>) -> Seq<(int, (HintType, Seq<char>, int, int))>
    decreases s.len(),
{
    if s.len() == 0 {
        s
    } else {
        let t = reading_order(s.drop_last());
        t.insert(insert_pos(t, s.last()) as int, s.last())
    }
}

/// The number of bytes of the UTF-8 encoding of `c`.
pub open spec fn char_utf8_len(c: char) -> nat {
    encode_scalar(c as u32).len()
}

/// The column of byte `b` in the line `s`: the number of its characters
/// whose encoding lies wholly within its first `b` bytes.
pub open spec fn byte_col(s: Seq<char>, b: int) -> nat
    decreases s.len(),
{
    if s.len() == 0 {
        0
    } else if char_utf8_len(s[0]) <= b {
        1 + byte_col(s.drop_first(), b - char_utf8_len(s[0]))
    } else {
        0
    }
}

/// The number of bytes of the UTF-8 encoding of `c`.
fn char_bytes(c: char) -> (n: usize)
    ensures
        n == char_utf8_len(c),
        1 <= n <= 4,
{
    proof {
        vstd::utf8::char_is_scalar(c);
    }
    let v = c as u32;
    if v < 0x80 {
        1
    } else if v < 0x800 {
        2
    } else if v < 0x10000 {
        3
    } else {
        4
    }
}

/// The column of byte `b` in the characters `chars`.
pub fn byte_to_col(chars: &[char], b: usize) -> (c: usize)
    ensures
        c == byte_col(chars@, b as int),
{
    let mut i: usize = 0;
    let mut acc: usize = 0;
    assert(chars@.skip(0) =~= chars@);
    while i < chars.len()
        invariant
            i <= chars@.len(),
            acc <= b,
            byte_col(chars@, b as int) == i + byte_col(chars@.skip(i as int), b - acc),
        decreases chars@.len() - i,
    {
        let w = char_bytes(chars[i]);
        proof {
            assert(chars@.skip(i as int).drop_first() =~= chars@.skip(i + 1));
            assert(chars@.skip(i as int)[0] == chars@[i as int]);
        }
        if w > b - acc {
            return i;
        }
        acc = acc + w;
        i = i + 1;
    }
    i
}

/// A column counts the characters before a byte that starts one: the
/// column of the end of the first `k` characters is `k`.
pub proof fn lemma_byte_col_at_boundary(s: Seq<char>, k: int)
    requires
        0 <= k <= s.len(),
    ensures
        byte_col(s, utf8_len(s.take(k)) as int) == k,
    decreases k,
{
    if k == 0 {
        assert(s.take(0) =~= Seq::<char>::empty());
        if s.len() > 0 {
            vstd::utf8::char_is_scalar(s[0]);
        }
    } else {
        let t = s.drop_first();
        assert(s.take(k)[0] == s[0]);
        assert(s.take(k).drop_first() =~= t.take(k - 1));
        lemma_byte_col_at_boundary(t, k - 1);
    }
}

/// No column lies past the end of the line.
proof fn lemma_byte_col_bound(s: Seq<char>, b: int)
    ensures
        byte_col(s, b) <= s.len(),
    decreases s.len(),
{
    if s.len() > 0 {
        lemma_byte_col_bound(s.drop_first(), b - char_utf8_len(s[0]));
    }
}

/// Columns grow with bytes.
proof fn lemma_byte_col_monotone(s: Seq<char>, a: int, b: int)
    requires
        a <= b,
    ensures
        byte_col(s, a) <= byte_col(s, b),
    decreases s.len(),
{
    if s.len() > 0 {
        lemma_byte_col_monotone(s.drop_first(), a - char_utf8_len(s[0]), b - char_utf8_len(s[0]));
    }
}

/// The encoding of a line starts with the encoding of its first character.
proof fn lemma_first_char_bytes(s: Seq<char>)
    requires
        s.len() > 0,
    ensures
        encode_utf8(s) == encode_scalar(s[0] as u32) + encode_utf8(s.drop_first()),
        char_utf8_len(s[0]) >= 1,
        utf8_len(s) == char_utf8_len(s[0]) + utf8_len(s.drop_first()),
        !vstd::utf8::is_continuation_byte(encode_utf8(s)[0]),
        forall|j: int|
            1 <= j < char_utf8_len(s[0]) ==> vstd::utf8::is_continuation_byte(#[trigger] encode_utf8(s)[j]),
        vstd::utf8::length_of_first_codepoint(encode_utf8(s)) == char_utf8_len(s[0]),
        vstd::utf8::decode_first_codepoint(encode_utf8(s)) == s[0] as u32,
        vstd::utf8::valid_leading_and_continuation_bytes_first_codepoint(encode_utf8(s)),
{
    vstd::utf8::encode_utf8_first_scalar(s);
    vstd::utf8::char_is_scalar(s[0]);
}

/// Text whose encoding is a stretch of a line's encoding is the stretch of
/// the line between the columns of the stretch's ends.
pub proof fn lemma_bytes_to_columns(s: Seq<char>, t: Seq<char>, a: int, b: int)
    requires
        0 <= a <= b <= utf8_len(s),
        encode_utf8(t) == encode_utf8(s).subrange(a, b),
    ensures
        byte_col(s, a) <= byte_col(s, b) <= s.len(),
        t == s.subrange(byte_col(s, a) as int, byte_col(s, b) as int),
    decreases s.len() + t.len(),
{
    lemma_byte_col_monotone(s, a, b);
    lemma_byte_col_bound(s, b);
    if t.len() > 0 {
        lemma_first_char_bytes(t);
    }
    if s.len() == 0 {
        if t.len() > 0 {
            assert(encode_utf8(t).len() == 0);
        }
        assert(t =~= s.subrange(0, 0));
    } else {
        lemma_first_char_bytes(s);
        let w = char_utf8_len(s[0]) as int;
        let rest = s.drop_first();
        let es = encode_utf8(s);
        if a >= w {
            assert(encode_utf8(s).subrange(a, b) =~= encode_utf8(rest).subrange(a - w, b - w));
            lemma_bytes_to_columns(rest, t, a - w, b - w);
            assert(t =~= s.subrange(byte_col(s, a) as int, byte_col(s, b) as int));
        } else if t.len() == 0 {
            assert(encode_utf8(t).len() == 0);
            assert(a == b);
            assert(t =~= s.subrange(byte_col(s, a) as int, byte_col(s, b) as int));
        } else if a > 0 {
            assert(encode_utf8(t)[0] == es[a]);
            assert(vstd::utf8::is_continuation_byte(es[a]));
            assert(false);
        } else {
            let u = encode_utf8(t);
            let lt = char_utf8_len(t[0]) as int;
            assert(u.len() == b);
            assert(lt <= b) by {
                lemma_first_char_bytes(t);
                assert(utf8_len(t) == lt + utf8_len(t.drop_first()));
            }
            assert forall|j: int| 0 <= j < b implies #[trigger] u[j] == es[j] by {
                assert(u[j] == es.subrange(0, b)[j]);
            }
            assert(u[0] == es[0]);
            assert(lt == w);
            if w >= 2 {
                assert(u[1] == es[1]);
            }
            if w >= 3 {
                assert(u[2] == es[2]);
            }
            if w >= 4 {
                assert(u[3] == es[3]);
            }
            assert(t[0] as u32 == s[0] as u32);
            vstd::utf8::char_u32_cast(t[0], t[0] as u32);
            vstd::utf8::char_u32_cast(s[0], s[0] as u32);
            assert(t[0] == s[0]);
            let t2 = t.drop_first();
            assert(encode_utf8(t2) =~= u.subrange(w, b));
            assert(u.subrange(w, b) =~= es.subrange(w, b));
            lemma_bytes_to_columns(s, t2, w, b);
            assert(byte_col(rest, 0) == 0) by {
                if rest.len() > 0 {
                    lemma_first_char_bytes(rest);
                }
            }
            assert(byte_col(s, w) == 1);
            assert(byte_col(s, 0) == 0);
            let cb = byte_col(s, b) as int;
            assert(t2 == s.subrange(1, cb));
            assert(t =~= seq![t[0]] + t2);
            assert(s.subrange(0, cb) =~= seq![s[0]] + s.subrange(1, cb));
            assert(t =~= s.subrange(0, byte_col(s, b) as int));
        }
    }
}

/// A hint found in `line` lies where its text is: its bytes are the
/// line's bytes in its range.
pub open spec fn placed(line: Seq<char>, h: (HintType, Seq<char>, int, int)) -> bool {
    &&& 0 <= h.2 <= h.3 <= utf8_len(line)
    &&& encode_utf8(h.1) == encode_utf8(line).subrange(h.2, h.3)
}

/// Every hint of `hs` lies where its text is.
pub open spec fn all_placed(line: Seq<char>, hs: Seq<(HintType, Seq<char>, int, int)>) -> bool {
    forall|i: int| 0 <= i < hs.len() ==> placed(line, #[trigger] hs[i])
}

/// The encoding of two texts one after the other is their encodings one
/// after the other.
proof fn lemma_encode_append(x: Seq<char>, y: Seq<char>)
    ensures
        encode_utf8(x + y) == encode_utf8(x) + encode_utf8(y),
    decreases x.len(),
{
    if x.len() == 0 {
        assert(x + y =~= y);
        assert(encode_utf8(x) + encode_utf8(y) =~= encode_utf8(y));
    } else {
        assert((x + y)[0] == x[0]);
        assert((x + y).drop_first() =~= x.drop_first() + y);
        lemma_encode_append(x.drop_first(), y);
        assert(encode_utf8(x + y) =~= encode_utf8(x) + encode_utf8(y));
    }
}

proof fn lemma_step_placed(phase: Phase, line: Seq<char>, found: Seq<(HintType, Seq<char>, int, int)>, m: (usize, usize, Seq<char>))
    requires
        all_placed(line, found),
        m.0 <= m.1 && m.1 <= utf8_len(line),
        encode_utf8(m.2) == encode_utf8(line).subrange(m.0 as int, m.1 as int),
    ensures
        all_placed(line, phase_step(phase, line, found, m)),
{
    let r = phase_step(phase, line, found, m);
    if phase == Phase::Paths {
        let t = m.2;
        let k = leading_count(t, |c: char| is_ws(c) || c == ':') as int;
        lemma_leading_count_bound(t, |c: char| is_ws(c) || c == ':');
        assert(t =~= t.take(k) + t.skip(k));
        lemma_encode_append(t.take(k), t.skip(k));
        let d = utf8_len(t.take(k)) as int;
        let et = encode_utf8(t);
        assert(et == encode_utf8(t.take(k)) + encode_utf8(t.skip(k)));
        assert(encode_utf8(t.skip(k)) =~= et.subrange(d, et.len() as int));
        assert(et.len() == m.1 - m.0);
        assert(et.subrange(d, et.len() as int) =~= encode_utf8(line).subrange(m.0 + d, m.1 as int));
    }
    assert forall|i: int| 0 <= i < r.len() implies placed(line, #[trigger] r[i]) by {
        if i < found.len() {
            assert(r[i] == found[i]);
        }
    }
}

proof fn lemma_run_phase_placed(phase: Phase, line: Seq<char>, found: Seq<(HintType, Seq<char>, int, int)>, ms: Seq<(usize, usize, Seq<char>)>)
    requires
        all_placed(line, found),
        well_placed(line, ms),
    ensures
        all_placed(line, run_phase(phase, line, found, ms)),
    decreases ms.len(),
{
    if ms.len() > 0 {
        assert(well_placed(line, ms.drop_last())) by {
            assert forall|i: int, j: int| 0 <= i < j < ms.drop_last().len() implies (#[trigger] ms.drop_last()[i]).1
                <= (#[trigger] ms.drop_last()[j]).0 by {
                assert(ms.drop_last()[i] == ms[i] && ms.drop_last()[j] == ms[j]);
            }
            assert forall|i: int| 0 <= i < ms.drop_last().len() implies (#[trigger] ms.drop_last()[i]).0 <= ms.drop_last()[i].1
                && ms.drop_last()[i].1 <= utf8_len(line) && encode_utf8(ms.drop_last()[i].2) == encode_utf8(line).subrange(
                ms.drop_last()[i].0 as int,
                ms.drop_last()[i].1 as int,
            ) by {
                assert(ms.drop_last()[i] == ms[i]);
            }
        }
        lemma_run_phase_placed(phase, line, found, ms.drop_last());
        assert(ms.last() == ms[ms.len() - 1]);
        lemma_step_placed(phase, line, run_phase(phase, line, found, ms.drop_last()), ms.last());
    }
}

/// The hints of a line lie where their texts are, when the matches do.
proof fn lemma_line_hints_placed(
    det: HintDetector,
    line: Seq<char>,
    urls: Seq<(usize, usize, Seq<char>)>,
    emails: Seq<(usize, usize, Seq<char>)>,
    ipv4: Seq<(usize, usize, Seq<char>)>,
    ipv6: Seq<(usize, usize, Seq<char>)>,
    paths: Seq<(usize, usize, Seq<char>)>,
    gits: Seq<(usize, usize, Seq<char>)>,
)
    requires
        well_placed(line, urls),
        well_placed(line, emails),
        well_placed(line, ipv4),
        well_placed(line, ipv6),
        well_placed(line, paths),
        well_placed(line, gits),
    ensures
        all_placed(line, line_hints_from(det, line, urls, emails, ipv4, ipv6, paths, gits)),
{
    let f0 = Seq::<(HintType, Seq<char>, int, int)>::empty();
    lemma_run_phase_placed(Phase::Urls, line, f0, urls);
    let f1 = if det.detect_urls {
        run_phase(Phase::Urls, line, f0, urls)
    } else {
        f0
    };
    lemma_run_phase_placed(Phase::Emails, line, f1, emails);
    let f2 = if det.detect_emails {
        run_phase(Phase::Emails, line, f1, emails)
    } else {
        f1
    };
    lemma_run_phase_placed(Phase::Ipv4, line, f2, ipv4);
    lemma_run_phase_placed(Phase::Ipv6, line, run_phase(Phase::Ipv4, line, f2, ipv4), ipv6);
    let f3 = if det.detect_ips {
        run_phase(Phase::Ipv6, line, run_phase(Phase::Ipv4, line, f2, ipv4), ipv6)
    } else {
        f2
    };
    lemma_run_phase_placed(Phase::Paths, line, f3, paths);
    let f4 = if det.detect_paths {
        run_phase(Phase::Paths, line, f3, paths)
    } else {
        f3
    };
    lemma_run_phase_placed(Phase::GitHashes, line, f4, gits);
}

/// A hint, tagged with its row, stands in its line: the row is one of the
/// lines, its columns lie within that line, and its text is the line's
/// text between them.
pub open spec fn on_its_line(lines: Seq<String>, h: (int, (HintType, Seq<char>, int, int))) -> bool {
    &&& 0 <= h.0 < lines.len()
    &&& 0 <= h.1.2 <= h.1.3 <= lines[h.0]@.len()
    &&& h.1.1 == lines[h.0]@.subrange(h.1.2, h.1.3)
}

/// A hint found in `line` with its byte range turned into columns.
pub open spec fn in_columns(line: Seq<char>, h: (HintType, Seq<char>, int, int)) -> (HintType, Seq<char>, int, int) {
    (h.0, h.1, byte_col(line, h.2) as int, byte_col(line, h.3) as int)
}

/// The hints of each line, tagged with its row and placed by columns, line
/// after line.
pub open spec fn all_line_hints(det: HintDetector, lines: Seq<String>) -> Seq<(int, (HintType, Seq<char>, int, int))>
    decreases lines.len(),
{
    if lines.len() == 0 {
        Seq::empty()
    } else {
        let row = lines.len() - 1;
        all_line_hints(det, lines.drop_last()) + line_hints(det, lines.last()@).map_values(
            |h: (HintType, Seq<char>, int, int)| (row, in_columns(lines.last()@, h)),
        )
    }
}

/// The label of the hint at index `n`: a..z, then aa..az, ba.., and so on.
pub open spec fn label_of(n: nat) -> Seq<char>
    decreases n,
{
    if n < 26 {
        seq![(97 + n) as char]
    } else {
        label_of((n / 26 - 1) as nat).push((97 + n % 26) as char)
    }
}

proof fn lemma_insert_pos(s: Seq<(int, (HintType, Seq<char>, int, int))>, x: (int, (HintType, Seq<char>, int, int)), p: int)
    requires
        0 <= p <= s.len(),
        forall|i: int| 0 <= i < p ==> !reads_after(#[trigger] s[i], x),
        p < s.len() ==> reads_after(s[p], x),
    ensures
        insert_pos(s, x) == p,
    decreases s.len(),
{
    if p > 0 {
        assert forall|i: int| 0 <= i < p - 1 implies !reads_after(#[trigger] s.drop_first()[i], x) by {
            assert(s.drop_first()[i] == s[i + 1]);
        }
        lemma_insert_pos(s.drop_first(), x, p - 1);
    }
}

/// Whether hints are in reading order: none reads after a later one.
pub open spec fn in_reading_order(s: Seq<(int, (HintType, Seq<char>, int, int))>) -> bool {
    forall|i: int, j: int| 0 <= i < j < s.len() ==> !reads_after(#[trigger] s[i], #[trigger] s[j])
}

proof fn lemma_insert_pos_props(s: Seq<(int, (HintType, Seq<char>, int, int))>, x: (int, (HintType, Seq<char>, int, int)))
    ensures
        insert_pos(s, x) <= s.len(),
        forall|i: int| 0 <= i < insert_pos(s, x) ==> !reads_after(#[trigger] s[i], x),
        insert_pos(s, x) < s.len() ==> reads_after(s[insert_pos(s, x) as int], x),
    decreases s.len(),
{
    if s.len() > 0 && !reads_after(s[0], x) {
        lemma_insert_pos_props(s.drop_first(), x);
        assert forall|i: int| 0 <= i < insert_pos(s, x) implies !reads_after(#[trigger] s[i], x) by {
            if i > 0 {
                assert(s[i] == s.drop_first()[i - 1]);
            }
        }
        if insert_pos(s, x) < s.len() {
            assert(s[insert_pos(s, x) as int] == s.drop_first()[insert_pos(s.drop_first(), x) as int]);
        }
    }
}

/// Putting hints in reading order puts them in reading order.
pub proof fn lemma_reading_order_sorted(s: Seq<(int, (HintType, Seq<char>, int, int))>)
    ensures
        in_reading_order(reading_order(s)),
        reading_order(s).len() == s.len(),
    decreases s.len(),
{
    if s.len() > 0 {
        let t = reading_order(s.drop_last());
        lemma_reading_order_sorted(s.drop_last());
        let x = s.last();
        lemma_insert_pos_props(t, x);
        let p = insert_pos(t, x) as int;
        let r = t.insert(p, x);
        assert forall|i: int, j: int| 0 <= i < j < r.len() implies !reads_after(#[trigger] r[i], #[trigger] r[j]) by {
            if j < p {
                assert(r[i] == t[i] && r[j] == t[j]);
            } else if j == p {
                assert(r[i] == t[i]);
            } else if i < p {
                assert(r[i] == t[i] && r[j] == t[j - 1]);
            } else if i == p {
                assert(r[j] == t[j - 1]);
                assert(reads_after(t[p], x));
                if j - 1 > p {
                    assert(!reads_after(t[p], t[j - 1]));
                }
            } else {
                assert(r[i] == t[i - 1] && r[j] == t[j - 1]);
            }
        }
    }
}

/// A hint goes somewhere among the others or after them.
proof fn lemma_insert_pos_bound(s: Seq<(int, (HintType, Seq<char>, int, int))>, x: (int, (HintType, Seq<char>, int, int)))
    ensures
        insert_pos(s, x) <= s.len(),
    decreases s.len(),
{
    if s.len() > 0 && !reads_after(s[0], x) {
        lemma_insert_pos_bound(s.drop_first(), x);
    }
}

/// A tagged line hint.
struct RowHint {
    row: usize,
    hint: LineHint,
}

impl RowHint {
    spec fn view(&self) -> (int, (HintType, Seq<char>, int, int)) {
        (self.row as int, self.hint@)
    }
}

spec fn row_views(v: Seq<RowHint>) -> Seq<(int, (HintType, Seq<char>, int, int))> {
    v.map_values(|r: RowHint| r.view())
}

/// Puts `x` into the ordered `sorted` where `reading_order` puts it.
fn insert_in_order(sorted: &mut Vec<RowHint>, x: RowHint)
    ensures
        row_views(final(sorted)@) == row_views(old(sorted)@).insert(
            insert_pos(row_views(old(sorted)@), x.view()) as int,
            x.view(),
        ),
{
    let ghost sv = row_views(sorted@);
    let mut p: usize = 0;
    while p < sorted.len() && !(sorted[p].row > x.row || (sorted[p].row == x.row
        && sorted[p].hint.start > x.hint.start))
        invariant
            p <= sorted@.len(),
            sv == row_views(sorted@),
            forall|i: int| 0 <= i < p ==> !reads_after(#[trigger] sv[i], x.view()),
        decreases sorted@.len() - p,
    {
        assert(sv[p as int] == sorted@[p as int].view());
        p = p + 1;
    }
    proof {
        if p < sorted@.len() {
            assert(sv[p as int] == sorted@[p as int].view());
        }
        lemma_insert_pos(sv, x.view(), p as int);
    }
    let ghost xv = x.view();
    sorted.insert(p, x);
    assert(row_views(sorted@) =~= sv.insert(p as int, xv));
}

/// The label of the hint at index `idx`: a..z, then aa..az, ba.., and so
/// on.
pub fn index_to_label(idx: usize) -> (s: String)
    ensures
        s@ == label_of(idx as nat),
    decreases idx,
{
    if idx < 26 {
        let mut s = String::new();
        let c: u8 = 97 + idx as u8;
        push_char(&mut s, c as char);
        assert(s@ =~= label_of(idx as nat));
        s
    } else {
        let mut s = index_to_label(idx / 26 - 1);
        let c: u8 = 97 + (idx % 26) as u8;
        push_char(&mut s, c as char);
        s
    }
}

impl HintDetector {
    /// The hints of all `lines`, in reading order, labelled by their index.
    pub fn scan(&self, lines: &[String]) -> (hints: Vec<Hint>)
        ensures
            hints@.len() == reading_order(all_line_hints(*self, lines@)).len(),
            forall|i: int|
                0 <= i < hints@.len() ==> {
                    let h = reading_order(all_line_hints(*self, lines@))[i];
                    &&& (#[trigger] hints@[i]).label@ == label_of(i as nat)
                    &&& hints@[i].row == h.0
                    &&& hints@[i].hint_type == h.1.0
                    &&& hints@[i].text@ == h.1.1
                    &&& hints@[i].col_start == h.1.2
                    &&& hints@[i].col_end == h.1.3
                },
            forall|i: int|
                0 <= i < hints@.len() ==> (#[trigger] hints@[i]).row < lines@.len() && hints@[i].col_start
                    <= hints@[i].col_end <= lines@[hints@[i].row as int]@.len() && hints@[i].text@
                    == lines@[hints@[i].row as int]@.subrange(hints@[i].col_start as int, hints@[i].col_end as int),
            forall|i: int, j: int|
                0 <= i < j < hints@.len() ==> (#[trigger] hints@[i]).row < (#[trigger] hints@[j]).row || (hints@[i].row
                    == hints@[j].row && hints@[i].col_start <= hints@[j].col_start),
    {
        let mut sorted: Vec<RowHint> = Vec::new();
        let mut row: usize = 0;
        while row < lines.len()
            invariant
                row <= lines@.len(),
                row_views(sorted@) == reading_order(all_line_hints(*self, lines@.take(row as int))),
                forall|k: int| 0 <= k < sorted@.len() ==> on_its_line(lines@, #[trigger] row_views(sorted@)[k]),
            decreases lines@.len() - row,
        {
            let found = self.scan_line(lines[row].as_str());
            let line_chars = chars_of(lines[row].as_str());
            let ghost line = lines@[row as int]@;
            let ghost before = all_line_hints(*self, lines@.take(row as int));
            let ghost tagged = hint_views(found@).map_values(
                |h: (HintType, Seq<char>, int, int)| (row as int, in_columns(line, h)),
            );
            proof {
                assert(lines@.take(row + 1).drop_last() =~= lines@.take(row as int));
                assert(all_line_hints(*self, lines@.take(row + 1)) == before + tagged);
            }
            let mut j: usize = 0;
            while j < found.len()
                invariant
                    j <= found@.len(),
                    row < lines@.len(),
                    line_chars@ == line,
                    tagged == hint_views(found@).map_values(
                        |h: (HintType, Seq<char>, int, int)| (row as int, in_columns(line, h)),
                    ),
                    row_views(sorted@) == reading_order(before + tagged.take(j as int)),
                    line == lines@[row as int]@,
                    all_placed(line, hint_views(found@)),
                    forall|k: int| 0 <= k < sorted@.len() ==> on_its_line(lines@, #[trigger] row_views(sorted@)[k]),
                decreases found@.len() - j,
            {
                let h = &found[j];
                let start = byte_to_col(line_chars.as_slice(), h.start);
                let end = byte_to_col(line_chars.as_slice(), h.end);
                let x = RowHint {
                    row,
                    hint: LineHint { hint_type: h.hint_type, text: h.text.clone(), start, end },
                };
                assert((before + tagged.take(j + 1)).drop_last() =~= before + tagged.take(j as int));
                assert(x.view() == tagged[j as int]);
                proof {
                    assert(hint_views(found@)[j as int] == h@);
                    assert(placed(line, h@));
                    lemma_bytes_to_columns(line, h.text@, h.start as int, h.end as int);
                }
                let ghost xv = x.view();
                let ghost old_rows = row_views(sorted@);
                insert_in_order(&mut sorted, x);
                proof {
                    let nv = row_views(sorted@);
                    let pos = insert_pos(old_rows, xv) as int;
                    lemma_insert_pos_bound(old_rows, xv);
                    assert forall|k: int| 0 <= k < nv.len() implies on_its_line(lines@, #[trigger] nv[k]) by {
                        if k < pos {
                            assert(nv[k] == old_rows[k]);
                        } else if k == pos {
                            assert(nv[k] == xv);
                        } else {
                            assert(nv[k] == old_rows[k - 1]);
                        }
                    }
                }
                j = j + 1;
            }
            assert(tagged.take(found@.len() as int) =~= tagged);
            row = row + 1;
        }
        assert(lines@.take(lines@.len() as int) =~= lines@);
        let ghost order = row_views(sorted@);
        let mut hints: Vec<Hint> = Vec::new();
        let mut i: usize = 0;
        while i < sorted.len()
            invariant
                i <= sorted@.len(),
                order == row_views(sorted@),
                hints@.len() == i,
                forall|k: int|
                    0 <= k < i ==> {
                        let h = order[k];
                        &&& (#[trigger] hints@[k]).label@ == label_of(k as nat)
                        &&& hints@[k].row == h.0
                        &&& hints@[k].hint_type == h.1.0
                        &&& hints@[k].text@ == h.1.1
                        &&& hints@[k].col_start == h.1.2
                        &&& hints@[k].col_end == h.1.3
                    },
                forall|k: int| 0 <= k < sorted@.len() ==> on_its_line(lines@, #[trigger] order[k]),
            decreases sorted@.len() - i,
        {
            let e = &sorted[i];
            assert(order[i as int] == e.view());
            hints.push(
                Hint {
                    label: index_to_label(i),
                    text: e.hint.text.clone(),
                    hint_type: e.hint.hint_type,
                    row: e.row,
                    col_start: e.hint.start,
                    col_end: e.hint.end,
                },
            );
            i = i + 1;
        }
        proof {
            assert forall|k: int| 0 <= k < hints@.len() implies (#[trigger] hints@[k]).row < lines@.len()
                && hints@[k].col_start <= hints@[k].col_end <= lines@[hints@[k].row as int]@.len() && hints@[k].text@
                == lines@[hints@[k].row as int]@.subrange(hints@[k].col_start as int, hints@[k].col_end as int) by {
                assert(on_its_line(lines@, order[k]));
            }
            lemma_reading_order_sorted(all_line_hints(*self, lines@));
            assert forall|a: int, b: int| 0 <= a < b < hints@.len() implies (#[trigger] hints@[a]).row < (
            #[trigger] hints@[b]).row || (hints@[a].row == hints@[b].row && hints@[a].col_start <= hints@[b].col_start) by {
                assert(!reads_after(order[a], order[b]));
            }
        }
        hints
    }

    /// The first of `hints` whose label is `label`, ignoring ASCII case.
    pub fn find_by_label<'a>(&self, hints: &'a [Hint], label: &str) -> (r: Option<&'a Hint>)
        ensures
            match r {
                Some(h) => exists|i: int|
                    0 <= i < hints@.len() && *h == hints@[i] && eq_ignore_ascii_case(hints@[i].label@, label@)
                        && forall|j: int| 0 <= j < i ==> !eq_ignore_ascii_case(#[trigger] hints@[j].label@, label@),
                None => forall|j: int| 0 <= j < hints@.len() ==> !eq_ignore_ascii_case(#[trigger] hints@[j].label@, label@),
            },
    {
        let wanted = chars_of(label);
        let mut i: usize = 0;
        while i < hints.len()
            invariant
                i <= hints@.len(),
                wanted@ == label@,
                forall|j: int| 0 <= j < i ==> !eq_ignore_ascii_case(#[trigger] hints@[j].label@, label@),
            decreases hints@.len() - i,
        {
            let have = chars_of(hints[i].label.as_str());
            if chars_eq_ignore_ascii_case(have.as_slice(), wanted.as_slice()) {
                return Some(&hints[i]);
            }
            i = i + 1;
        }
        None
    }
}


/// Whether `c` is an ASCII lower-case letter.
pub open spec fn is_lower(c: char) -> bool {
    'a' <= c <= 'z'
}

/// Whether every character of `s` is an ASCII lower-case letter.
pub open spec fn all_lower(s: Seq<char>) -> bool {
    forall|i: int| 0 <= i < s.len() ==> is_lower(#[trigger] s[i])
}

/// The place of a lower-case letter in the alphabet, from 0.
pub open spec fn letter(c: char) -> int {
    c as int - 97
}

/// One more than the index that a label stands for: each letter counts its
/// place in the alphabet plus one, times 26 to the power of the number of
/// letters after it.
pub open spec fn label_weight(s: Seq<char>) -> int
    decreases s.len(),
{
    if s.len() == 0 {
        0
    } else {
        (letter(s.last()) + 1) + 26 * label_weight(s.drop_last())
    }
}

/// The index a label stands for: none for an empty label or one with a
/// character that is not a lower-case letter.
pub open spec fn label_index(s: Seq<char>) -> Option<nat> {
    if s.len() == 0 || !all_lower(s) {
        None
    } else {
        Some((label_weight(s) - 1) as nat)
    }
}

/// 26 to the power `e`.
pub open spec fn pow26(e: nat) -> int
    decreases e,
{
    if e == 0 {
        1
    } else {
        26 * pow26((e - 1) as nat)
    }
}

proof fn lemma_weight_prepend(x: char, u: Seq<char>)
    ensures
        label_weight(seq![x] + u) == (letter(x) + 1) * pow26(u.len()) + label_weight(u),
    decreases u.len(),
{
    let w = seq![x] + u;
    if u.len() == 0 {
        assert(w.drop_last() =~= Seq::<char>::empty());
        assert(w.last() == x);
        assert(label_weight(Seq::<char>::empty()) == 0);
        assert(pow26(0) == 1);
        assert(label_weight(w) == letter(x) + 1);
        assert((letter(x) + 1) * 1 == letter(x) + 1);
    } else {
        assert(w.drop_last() =~= seq![x] + u.drop_last());
        assert(w.last() == u.last());
        lemma_weight_prepend(x, u.drop_last());
        let p = pow26((u.len() - 1) as nat);
        let a = letter(x) + 1;
        let lw = label_weight(u.drop_last());
        assert(pow26(u.len()) == 26 * p);
        assert(label_weight(seq![x] + u.drop_last()) == a * p + lw);
        assert(label_weight(w) == (letter(u.last()) + 1) + 26 * label_weight(w.drop_last()));
        assert(label_weight(u) == (letter(u.last()) + 1) + 26 * lw);
        assert(26 * (a * p + lw) == a * (26 * p) + 26 * lw) by (nonlinear_arith);
        assert(label_weight(w) == a * pow26(u.len()) + label_weight(u));
    }
}

proof fn lemma_weight_nonneg(s: Seq<char>)
    requires
        all_lower(s),
    ensures
        label_weight(s) >= 0,
        s.len() > 0 ==> label_weight(s) >= 1,
    decreases s.len(),
{
    if s.len() > 0 {
        lemma_weight_nonneg(s.drop_last());
    }
}

proof fn lemma_pow_pos(e: nat)
    ensures
        pow26(e) >= 1,
    decreases e,
{
    if e > 0 {
        lemma_pow_pos((e - 1) as nat);
    }
}

proof fn lemma_weight_suffix(s: Seq<char>, k: int)
    requires
        all_lower(s),
        0 <= k <= s.len(),
    ensures
        label_weight(s.skip(k)) <= label_weight(s),
    decreases k,
{
    if k == 0 {
        assert(s.skip(0) =~= s);
    } else {
        lemma_weight_suffix(s, k - 1);
        assert(s.skip(k - 1) =~= seq![s[k - 1]] + s.skip(k));
        lemma_weight_prepend(s[k - 1], s.skip(k));
        lemma_pow_pos(s.skip(k).len());
        let a = letter(s[k - 1]) + 1;
        let p = pow26(s.skip(k).len());
        assert(a * p >= 0) by (nonlinear_arith)
            requires
                a >= 1,
                p >= 1,
        ;
    }
}

proof fn lemma_label_of(n: nat)
    ensures
        label_of(n).len() > 0,
        all_lower(label_of(n)),
        label_weight(label_of(n)) == n + 1,
    decreases n,
{
    if n < 26 {
        assert(label_of(n).drop_last() =~= Seq::<char>::empty());
        assert(label_weight(Seq::<char>::empty()) == 0);
        assert(letter(label_of(n).last()) == n);
    } else {
        let m = (n / 26 - 1) as nat;
        lemma_label_of(m);
        assert(label_of(n).drop_last() =~= label_of(m));
        assert(n == 26 * (n / 26) + n % 26) by (nonlinear_arith);
    }
}

/// The label of hint `n` stands for `n`, and `label_to_index` can read it
/// back whenever `n` fits in a `usize`.
pub proof fn law_label_round_trip(n: nat)
    ensures
        label_index(label_of(n)) == Some(n),
        forall|k: int|
            0 <= k < label_of(n).len() ==> label_weight(#[trigger] label_of(n).skip(k)) <= n + 1,
{
    lemma_label_of(n);
    assert forall|k: int| 0 <= k < label_of(n).len() implies label_weight(
        #[trigger] label_of(n).skip(k),
    ) <= n + 1 by {
        lemma_weight_suffix(label_of(n), k);
    }
}

/// A label of lower-case letters is the label of the index it stands for:
/// reading a label and writing that index back gives the label again.
pub proof fn law_label_index_round_trip(s: Seq<char>)
    requires
        s.len() > 0,
        all_lower(s),
    ensures
        label_index(s) is Some,
        label_of(label_index(s)->0) == s,
    decreases s.len(),
{
    lemma_weight_nonneg(s);
    let c = s.last();
    let l = letter(c);
    assert(is_lower(s[s.len() - 1]));
    assert(0 <= l < 26);
    if s.len() == 1 {
        assert(s.drop_last() =~= Seq::<char>::empty());
        assert(label_weight(s.drop_last()) == 0);
        assert(label_weight(s) == l + 1);
        assert(((97 + l) as char) == c);
        assert(label_of(l as nat) =~= s);
    } else {
        let init = s.drop_last();
        assert(all_lower(init)) by {
            assert forall|i: int| 0 <= i < init.len() implies is_lower(#[trigger] init[i]) by {
                assert(init[i] == s[i]);
            }
        }
        law_label_index_round_trip(init);
        lemma_weight_nonneg(init);
        let w = label_weight(init);
        let n = l + 26 * w;
        assert(label_weight(s) == l + 1 + 26 * w);
        assert(n >= 26);
        assert(n / 26 == w && n % 26 == l) by (nonlinear_arith)
            requires
                n == l + 26 * w,
                0 <= l < 26,
                w >= 1,
        ;
        assert(((97 + l) as char) == c);
        assert(label_of(n as nat) == label_of((w - 1) as nat).push(c));
        assert(label_of(n as nat) =~= s);
    }
}

/// The index that `label` stands for (the inverse of `index_to_label`);
/// `None` for an empty label or one with a character that is not a
/// lower-case letter.
pub fn label_to_index(label: &str) -> (r: Option<usize>)
    requires
        forall|k: int|
            0 <= k < label@.len() && all_lower(label@.skip(k)) ==> label_weight(#[trigger] label@.skip(k))
                <= usize::MAX + 1,
    ensures
        match label_index(label@) {
            Some(n) => r == Some(n as usize),
            None => r is None,
        },
{
    let v = chars_of(label);
    let n = v.len();
    if n == 0 {
        return None;
    }
    let mut result: usize = 0;
    let mut p26: usize = 1;
    let mut i: usize = 0;
    while i < n
        invariant
            0 <= i <= n,
            n == v@.len(),
            v@ == label@,
            forall|k: int|
                0 <= k < label@.len() && all_lower(label@.skip(k)) ==> label_weight(
                    #[trigger] label@.skip(k),
                ) <= usize::MAX + 1,
            all_lower(v@.skip(n - i)),
            i > 0 ==> result == label_weight(v@.skip(n - i)) - 1,
            i > 0 ==> p26 == pow26((i - 1) as nat),
            i == 0 ==> p26 == 1,
        decreases n - i,
    {
        let c = v[n - 1 - i];
        if !(c >= 'a' && c <= 'z') {
            assert(!is_lower(label@[n - 1 - i]));
            return None;
        }
        let digit: usize = (c as u32 - 97) as usize;
        let ghost rest = v@.skip(n - i);
        let ghost next = v@.skip(n - 1 - i);
        proof {
            assert(next =~= seq![c] + rest);
            lemma_weight_prepend(c, rest);
            assert(all_lower(next));
            lemma_weight_nonneg(rest);
        }
        if i == 0 {
            assert(rest.len() == 0);
            result = digit;
        } else {
            proof {
                lemma_pow_pos((i - 1) as nat);
                assert(pow26(i as nat) == 26 * p26);
                assert(label_weight(next) <= usize::MAX + 1);
                let d1 = digit + 1;
                assert(p26 * 26 <= d1 * (p26 * 26)) by (nonlinear_arith)
                    requires
                        d1 >= 1,
                        p26 >= 1,
                ;
            }
            p26 = p26 * 26;
            result = result + (digit + 1) * p26;
        }
        i = i + 1;
    }
    assert(v@.skip(0) =~= v@);
    Some(result)
}

/// The state of hint mode: the hints on show, the letters typed so far and
/// whether the mode is on.
#[derive(Debug)]
pub struct HintModeState {
    /// The hints on show.
    pub hints: Vec<Hint>,
    /// The letters typed so far.
    pub input_buffer: String,
    /// Whether hint mode is on.
    pub active: bool,
}

impl Default for HintModeState {
    fn default() -> (s: Self)
        ensures
            s.hints@.len() == 0,
            s.input_buffer@.len() == 0,
            !s.active,
    {
        HintModeState { hints: Vec::new(), input_buffer: String::new(), active: false }
    }
}

impl HintModeState {
    /// Hint mode off, with nothing on show.
    pub fn new() -> (s: Self)
        ensures
            s.hints@.len() == 0,
            s.input_buffer@.len() == 0,
            !s.active,
    {
        Self::default()
    }

    /// Turns hint mode on with `hints` on show and nothing typed.
    pub fn activate(&mut self, hints: Vec<Hint>)
        ensures
            final(self).hints@ == hints@,
            final(self).input_buffer@.len() == 0,
            final(self).active,
    {
        self.hints = hints;
        self.input_buffer = String::new();
        self.active = true;
    }

    /// Turns hint mode off, with nothing on show.
    pub fn deactivate(&mut self)
        ensures
            final(self).hints@.len() == 0,
            final(self).input_buffer@.len() == 0,
            !final(self).active,
    {
        self.hints.clear();
        self.input_buffer = String::new();
        self.active = false;
    }

    /// Takes a typed character: a lower-case letter while the mode is on is
    /// added to what was typed; if that is now the label of a hint, the
    /// first such hint is returned and the mode turns off; if no label
    /// starts with it, what was typed is forgotten.
    pub fn handle_key(&mut self, c: char) -> (r: Option<Hint>)
        ensures
            !old(self).active || !is_lower(c) ==> r is None && *final(self) == *old(self),
            old(self).active && is_lower(c) ==> {
                let buf = old(self).input_buffer@.push(c);
                let hs = old(self).hints@;
                if exists|i: int| 0 <= i < hs.len() && (#[trigger] hs[i]).label@ == buf {
                    &&& exists|i: int|
                        0 <= i < hs.len() && (#[trigger] hs[i]).label@ == buf && r == Some(hs[i])
                            && forall|j: int| 0 <= j < i ==> (#[trigger] hs[j]).label@ != buf
                    &&& final(self).hints@.len() == 0
                    &&& final(self).input_buffer@.len() == 0
                    &&& !final(self).active
                } else {
                    &&& r is None
                    &&& final(self).hints@ == hs
                    &&& final(self).active
                    &&& final(self).input_buffer@ == if exists|i: int|
                        0 <= i < hs.len() && starts_with((#[trigger] hs[i]).label@, buf) {
                        buf
                    } else {
                        Seq::<char>::empty()
                    }
                }
            },
    {
        if !self.active {
            return None;
        }
        if !(c >= 'a' && c <= 'z') {
            return None;
        }
        push_char(&mut self.input_buffer, c);
        let ghost buf = self.input_buffer@;
        let mut i: usize = 0;
        while i < self.hints.len()
            invariant
                i <= self.hints@.len(),
                buf == self.input_buffer@,
                buf == old(self).input_buffer@.push(c),
                self.hints@ == old(self).hints@,
                self.active,
                old(self).active,
                is_lower(c),
                forall|j: int| 0 <= j < i ==> (#[trigger] self.hints@[j]).label@ != buf,
            decreases self.hints@.len() - i,
        {
            if self.hints[i].label == self.input_buffer {
                let result = self.hints[i].clone();
                self.deactivate();
                return Some(result);
            }
            i = i + 1;
        }
        let typed = chars_of(self.input_buffer.as_str());
        let mut has_prefix = false;
        let mut k: usize = 0;
        while k < self.hints.len()
            invariant
                k <= self.hints@.len(),
                typed@ == buf,
                buf == self.input_buffer@,
                buf == old(self).input_buffer@.push(c),
                self.hints@ == old(self).hints@,
                self.active,
                forall|j: int| 0 <= j < self.hints@.len() ==> (#[trigger] self.hints@[j]).label@ != buf,
                has_prefix == exists|j: int| 0 <= j < k && starts_with((#[trigger] self.hints@[j]).label@, buf),
            decreases self.hints@.len() - k,
        {
            let label = chars_of(self.hints[k].label.as_str());
            if starts_with_chars(label.as_slice(), typed.as_slice()) {
                has_prefix = true;
            }
            k = k + 1;
        }
        if !has_prefix {
            self.input_buffer = String::new();
        }
        None
    }

    /// The hints whose labels start with what was typed so far (all of them
    /// when nothing was typed), in order.
    pub fn matching_hints(&self) -> (r: Vec<&Hint>)
        ensures
            r@.len() == self.hints@.filter(|h: Hint| starts_with(h.label@, self.input_buffer@)).len(),
            forall|i: int|
                0 <= i < r@.len() ==> *r@[i] == self.hints@.filter(
                    |h: Hint| starts_with(h.label@, self.input_buffer@),
                )[i],
    {
        let ghost pred = |h: Hint| starts_with(h.label@, self.input_buffer@);
        let typed = chars_of(self.input_buffer.as_str());
        let mut r: Vec<&Hint> = Vec::new();
        let mut i: usize = 0;
        while i < self.hints.len()
            invariant
                i <= self.hints@.len(),
                typed@ == self.input_buffer@,
                pred == |h: Hint| starts_with(h.label@, self.input_buffer@),
                r@.len() == self.hints@.take(i as int).filter(pred).len(),
                forall|j: int| 0 <= j < r@.len() ==> *r@[j] == self.hints@.take(i as int).filter(pred)[j],
            decreases self.hints@.len() - i,
        {
            let label = chars_of(self.hints[i].label.as_str());
            proof {
                reveal(Seq::filter);
                assert(self.hints@.take(i + 1).drop_last() =~= self.hints@.take(i as int));
            }
            if starts_with_chars(label.as_slice(), typed.as_slice()) {
                r.push(&self.hints[i]);
            }
            i = i + 1;
        }
        assert(self.hints@.take(self.hints@.len() as int) =~= self.hints@);
        r
    }
}

} // verus!
