//! Saved command snippets: creating them, finding them by id, searching,
//! filtering by tag or category, the orders they are listed in, and the
//! category tree.

use vstd::prelude::*;
use crate::order::{seq_lt, str_less, strictly_sorted, insert_sorted_unique};
use crate::images::{find_char, index_of, lemma_index_of};
use crate::text::{
    trim, trim_chars, slice_chars,
    chars_of, contains_chars, contains_seq, split_on, split_chars, string_views, string_from_chars,
    str_eq, starts_with, starts_with_chars, push_char, append_str,
};

verus! {

/// The lower case of a text, as `str::to_lowercase` gives it.
pub uninterp spec fn lowercase(s: Seq<char>) -> Seq<char>;

/// Calls `str::to_lowercase`. Claimed: the result is a function of the
/// text (`lowercase`), and an ASCII text is lowered character by character
/// (A-Z to a-z, every other character kept, as Unicode's case tables map
/// ASCII); what the function does beyond ASCII is not stated.
#[verifier::external_body]
pub fn to_lowercase(s: &str) -> (r: String)
    ensures
        r@ == lowercase(s@),
        (forall|i: int| 0 <= i < s@.len() ==> (#[trigger] s@[i]) < '\u{80}') ==> r@ == s@.map_values(
            |c: char| crate::text::ascii_lower(c),
        ),
{
    s.to_lowercase()
}

/// Calls `uuid::Uuid::new_v4()` and formats the id with `to_string`.
/// Claimed: the hyphenated form, 36 characters; the id itself is random.
#[verifier::external_body]
fn new_uuid_string() -> (r: String)
    ensures
        r@.len() == 36,
{
    uuid::Uuid::new_v4().to_string()
}

/// A saved command.
#[derive(Debug, Clone)]
pub struct Snippet {
    /// Unique identifier
    pub id: String,
    /// Display name
    pub name: String,
    /// The command to run (with `{{var_name}}` placeholders)
    pub command: String,
    /// Description
    pub description: String,
    /// Tags for organization and searching
    pub tags: Vec<String>,
    /// Category path, such as "Git/Commit"
    pub category: String,
    /// Pinned snippet
    pub pinned: bool,
    /// Creation time (seconds since the epoch)
    pub created_at: i64,
    /// Last use (seconds since the epoch)
    pub last_used: Option<i64>,
    /// Number of uses
    pub use_count: u32,
}

/// The parts of a category path (none for no category).
pub open spec fn category_parts_of(category: Seq<char>) -> Seq<Seq<char>> {
    if category.len() == 0 {
        Seq::empty()
    } else {
        split_on(category, '/')
    }
}

impl Snippet {
    /// A new snippet without a category.
    pub fn new(name: String, command: String, description: String, tags: Vec<String>) -> (s: Self)
        ensures
            s.name == name,
            s.command == command,
            s.description == description,
            s.tags == tags,
            s.category@.len() == 0,
            !s.pinned,
            s.last_used is None,
            s.use_count == 0,
            s.id@.len() == 36,
    {
        Self::with_category(name, command, description, tags, String::new())
    }

    /// A new snippet in `category`, with a fresh random id, created now,
    /// never used.
    pub fn with_category(
        name: String,
        command: String,
        description: String,
        tags: Vec<String>,
        category: String,
    ) -> (s: Self)
        ensures
            s.name == name,
            s.command == command,
            s.description == description,
            s.tags == tags,
            s.category == category,
            !s.pinned,
            s.last_used is None,
            s.use_count == 0,
            s.id@.len() == 36,
    {
        let timestamp = crate::clock::unix_seconds() as i64;
        Snippet {
            id: new_uuid_string(),
            name,
            command,
            description,
            tags,
            category,
            pinned: false,
            created_at: timestamp,
            last_used: None,
            use_count: 0,
        }
    }

    /// Counts one more use at `now` (seconds since the Unix epoch).
    pub fn record_use_at(&mut self, now: i64)
        requires
            old(self).use_count < u32::MAX,
        ensures
            *final(self) == (Snippet { use_count: (old(self).use_count + 1) as u32, last_used: Some(now), ..*old(self) }),
    {
        self.use_count = self.use_count + 1;
        self.last_used = Some(now);
    }

    /// Counts one more use, now: `record_use_at` of the clock's reading.
    pub fn record_use(&mut self)
        requires
            old(self).use_count < u32::MAX,
        ensures
            final(self).use_count == old(self).use_count + 1,
            final(self).last_used is Some,
            final(self).id == old(self).id,
            final(self).name == old(self).name,
            final(self).command == old(self).command,
            final(self).description == old(self).description,
            final(self).tags == old(self).tags,
            final(self).category == old(self).category,
            final(self).pinned == old(self).pinned,
            final(self).created_at == old(self).created_at,
    {
        let now = crate::clock::unix_seconds() as i64;
        self.record_use_at(now);
    }

    /// Whether the command holds a variable placeholder `{{…}}`.
    pub fn has_variables(&self) -> (b: bool)
        ensures
            b == (placeholder_insides(self.command@).len() > 0),
    {
        let insides = find_placeholders(self.command.as_str());
        insides.len() > 0
    }

    /// The parts of the category path, split at `/` (none without a
    /// category).
    pub fn category_parts(&self) -> (parts: Vec<String>)
        ensures
            string_views(parts@) == category_parts_of(self.category@),
    {
        let c = chars_of(self.category.as_str());
        let mut parts: Vec<String> = Vec::new();
        if c.len() == 0 {
            assert(string_views(parts@) =~= category_parts_of(self.category@));
            return parts;
        }
        let pieces = split_chars(c.as_slice(), '/');
        let mut i: usize = 0;
        while i < pieces.len()
            invariant
                i <= pieces@.len(),
                c@ == self.category@,
                c@.len() > 0,
                pieces@.len() == split_on(c@, '/').len(),
                forall|j: int| 0 <= j < pieces@.len() ==> #[trigger] pieces@[j]@ == split_on(c@, '/')[j],
                string_views(parts@) == split_on(c@, '/').take(i as int),
            decreases pieces@.len() - i,
        {
            let ghost before = parts@;
            parts.push(string_from_chars(pieces[i].as_slice()));
            assert(string_views(parts@) =~= string_views(before).push(pieces@[i as int]@));
            assert(split_on(c@, '/').take(i + 1) =~= split_on(c@, '/').take(i as int).push(
                split_on(c@, '/')[i as int],
            ));
            i = i + 1;
        }
        assert(split_on(c@, '/').take(pieces@.len() as int) =~= split_on(c@, '/'));
        parts
    }

    /// The first part of the category path, if there is a category.
    pub fn top_category(&self) -> (top: Option<String>)
        ensures
            match top {
                Some(t) => category_parts_of(self.category@).len() > 0 && t@ == category_parts_of(
                    self.category@,
                )[0],
                None => category_parts_of(self.category@).len() == 0,
            },
    {
        let mut parts = self.category_parts();
        if parts.len() == 0 {
            None
        } else {
            Some(parts.remove(0))
        }
    }
}

/// The snippets behind a list of references.
pub open spec fn derefs(v: Seq<&Snippet>) -> Seq<Snippet> {
    v.map_values(|s: &Snippet| *s)
}

/// The orders snippets are listed in.
#[derive(Clone, Copy, PartialEq, Eq, Structural)]
pub enum SnippetOrder {
    /// By name.
    Name,
    /// Most used first.
    Usage,
    /// By last use, most recent first, after those never used (which come
    /// newest first).
    Recency,
}

/// Whether `a` goes strictly after `b` in the order `o`.
pub open spec fn goes_after(o: SnippetOrder, a: Snippet, b: Snippet) -> bool {
    match o {
        SnippetOrder::Name => seq_lt(b.name@, a.name@),
        SnippetOrder::Usage => a.use_count < b.use_count,
        SnippetOrder::Recency => match (a.last_used, b.last_used) {
            (Some(at), Some(bt)) => bt > at,
            (Some(_), None) => true,
            (None, Some(_)) => false,
            (None, None) => b.created_at > a.created_at,
        },
    }
}

/// Where `x` goes in the ordered `s`: before the first element that goes
/// after it.
pub open spec fn insert_point(o: SnippetOrder, s: Seq<Snippet>, x: Snippet) -> nat
    decreases s.len(),
{
    if s.len() == 0 || goes_after(o, s[0], x) {
        0
    } else {
        1 + insert_point(o, s.drop_first(), x)
    }
}

/// `s` in the order `o`, keeping the given order of snippets that the
/// order does not tell apart (a stable sort).
pub open spec fn sorted_by(o: SnippetOrder, s: Seq<Snippet>) -> Seq<Snippet>
    decreases s.len(),
{
    if s.len() == 0 {
        s
    } else {
        let t = sorted_by(o, s.drop_last());
        t.insert(insert_point(o, t, s.last()) as int, s.last())
    }
}

proof fn lemma_insert_point(o: SnippetOrder, s: Seq<Snippet>, x: Snippet, p: int)
    requires
        0 <= p <= s.len(),
        forall|i: int| 0 <= i < p ==> !goes_after(o, #[trigger] s[i], x),
        p < s.len() ==> goes_after(o, s[p], x),
    ensures
        insert_point(o, s, x) == p,
    decreases s.len(),
{
    if p > 0 {
        assert forall|i: int| 0 <= i < p - 1 implies !goes_after(o, #[trigger] s.drop_first()[i], x) by {
            assert(s.drop_first()[i] == s[i + 1]);
        }
        lemma_insert_point(o, s.drop_first(), x, p - 1);
    }
}

/// Whether `a` goes strictly after `b` in the order `o`.
fn goes_after_exec(o: SnippetOrder, a: &Snippet, b: &Snippet) -> (r: bool)
    ensures
        r == goes_after(o, *a, *b),
{
    match o {
        SnippetOrder::Name => str_less(b.name.as_str(), a.name.as_str()),
        SnippetOrder::Usage => a.use_count < b.use_count,
        SnippetOrder::Recency => match (a.last_used, b.last_used) {
            (Some(at), Some(bt)) => bt > at,
            (Some(_), None) => true,
            (None, Some(_)) => false,
            (None, None) => b.created_at > a.created_at,
        },
    }
}

/// `v` in the order `o` (stable).
fn sort_snippets<'a>(o: SnippetOrder, v: Vec<&'a Snippet>) -> (r: Vec<&'a Snippet>)
    ensures
        derefs(r@) == sorted_by(o, derefs(v@)),
{
    let ghost dv = derefs(v@);
    let mut out: Vec<&'a Snippet> = Vec::new();
    let mut i: usize = 0;
    while i < v.len()
        invariant
            i <= v@.len(),
            dv == derefs(v@),
            derefs(out@) == sorted_by(o, dv.take(i as int)),
        decreases v@.len() - i,
    {
        let x = v[i];
        let ghost sv = derefs(out@);
        let mut p: usize = 0;
        while p < out.len() && !goes_after_exec(o, out[p], x)
            invariant
                p <= out@.len(),
                sv == derefs(out@),
                forall|k: int| 0 <= k < p ==> !goes_after(o, #[trigger] sv[k], *x),
            decreases out@.len() - p,
        {
            p = p + 1;
        }
        proof {
            lemma_insert_point(o, sv, *x, p as int);
            assert(dv.take(i + 1).drop_last() =~= dv.take(i as int));
            assert(dv.take(i + 1).last() == *x);
        }
        out.insert(p, x);
        assert(derefs(out@) =~= sv.insert(p as int, *x));
        i = i + 1;
    }
    assert(dv.take(v@.len() as int) =~= dv);
    out
}

/// Which snippets a listing keeps.
pub enum SnippetFilter {
    /// The pinned ones.
    Pinned,
    /// Those with a tag whose lower case is the given text.
    Tag(String),
    /// Those whose lower-case category is the given text or lies under it.
    Category(String),
    /// Those without a category.
    Uncategorized,
    /// Those whose lower-case name, description, command or a tag holds the
    /// given text.
    Query(String),
}

/// Whether some tag of `s`, in lower case, satisfies `p`.
pub open spec fn some_tag(s: Snippet, p: spec_fn(Seq<char>) -> bool) -> bool {
    exists|j: int| 0 <= j < s.tags@.len() && p(lowercase(#[trigger] s.tags@[j]@))
}

/// Whether `s` is in the (lower-case) category `c` or under it.
pub open spec fn in_category(c: Seq<char>, s: Snippet) -> bool {
    let sc = lowercase(s.category@);
    sc == c || starts_with(sc, c.push('/'))
}

/// Whether the lower-case name, description, command or a tag of `s` holds
/// `q`.
pub open spec fn matches_query(q: Seq<char>, s: Snippet) -> bool {
    contains_seq(lowercase(s.name@), q) || contains_seq(lowercase(s.description@), q) || contains_seq(
        lowercase(s.command@),
        q,
    ) || some_tag(s, |x: Seq<char>| contains_seq(x, q))
}

/// Whether the listing `f` keeps `s`.
pub open spec fn keeps(f: SnippetFilter, s: Snippet) -> bool {
    match f {
        SnippetFilter::Pinned => s.pinned,
        SnippetFilter::Tag(t) => some_tag(s, |x: Seq<char>| x == t@),
        SnippetFilter::Category(c) => in_category(c@, s),
        SnippetFilter::Uncategorized => s.category@.len() == 0,
        SnippetFilter::Query(q) => matches_query(q@, s),
    }
}

/// Whether some tag of `s`, in lower case, equals `t` (or, with `within`,
/// holds `t`).
fn tag_matches(s: &Snippet, t: &Vec<char>, within: bool) -> (b: bool)
    ensures
        b == if within {
            some_tag(*s, |x: Seq<char>| contains_seq(x, t@))
        } else {
            some_tag(*s, |x: Seq<char>| x == t@)
        },
{
    let mut j: usize = 0;
    while j < s.tags.len()
        invariant
            j <= s.tags@.len(),
            forall|k: int|
                0 <= k < j ==> !(if within {
                    contains_seq(lowercase(#[trigger] s.tags@[k]@), t@)
                } else {
                    lowercase(s.tags@[k]@) == t@
                }),
        decreases s.tags@.len() - j,
    {
        let low = to_lowercase(s.tags[j].as_str());
        let lc = chars_of(low.as_str());
        let m = if within {
            contains_chars(lc.as_slice(), t.as_slice())
        } else {
            crate::text::chars_eq(lc.as_slice(), t.as_slice())
        };
        if m {
            return true;
        }
        j = j + 1;
    }
    false
}

/// Whether the lower case of `s` holds `q`.
fn lower_contains(s: &String, q: &Vec<char>) -> (b: bool)
    ensures
        b == contains_seq(lowercase(s@), q@),
{
    let low = to_lowercase(s.as_str());
    let lc = chars_of(low.as_str());
    contains_chars(lc.as_slice(), q.as_slice())
}

/// Whether the listing `f` keeps `s`.
fn keeps_exec(f: &SnippetFilter, s: &Snippet) -> (b: bool)
    ensures
        b == keeps(*f, *s),
{
    match f {
        SnippetFilter::Pinned => s.pinned,
        SnippetFilter::Tag(t) => {
            let tc = chars_of(t.as_str());
            tag_matches(s, &tc, false)
        },
        SnippetFilter::Category(c) => {
            let low = to_lowercase(s.category.as_str());
            let sc = chars_of(low.as_str());
            let cc = chars_of(c.as_str());
            let mut prefix = cc.clone();
            prefix.push('/');
            assert(prefix@ == c@.push('/'));
            crate::text::chars_eq(sc.as_slice(), cc.as_slice()) || starts_with_chars(sc.as_slice(), prefix.as_slice())
        },
        SnippetFilter::Uncategorized => s.category.as_str().is_empty(),
        SnippetFilter::Query(q) => {
            let qc = chars_of(q.as_str());
            lower_contains(&s.name, &qc) || lower_contains(&s.description, &qc) || lower_contains(
                &s.command,
                &qc,
            ) || tag_matches(s, &qc, true)
        },
    }
}

/// Snippet storage.
#[derive(Debug, Clone)]
pub struct SnippetsConfig {
    /// The snippets
    pub snippets: Vec<Snippet>,
}

impl Default for SnippetsConfig {
    fn default() -> (c: Self)
        ensures
            c.snippets@.len() == 0,
    {
        SnippetsConfig { snippets: Vec::new() }
    }
}

/// Whether some snippet of `snips` has the tag `t`.
pub open spec fn has_tag(snips: Seq<Snippet>, t: Seq<char>) -> bool {
    exists|a: int, b: int| 0 <= a < snips.len() && 0 <= b < snips[a].tags@.len() && (#[trigger] snips[a].tags@[b])@ == t
}

/// Whether one of the first `n` tags of `s` is `t`.
pub open spec fn tag_in(s: Snippet, n: int, t: Seq<char>) -> bool {
    exists|k: int| 0 <= k < n && (#[trigger] s.tags@[k])@ == t
}

/// The view of an optional string.
pub open spec fn opt_text(o: Option<String>) -> Option<Seq<char>> {
    match o {
        Some(s) => Some(s@),
        None => None,
    }
}

/// The category of `s` (or, with `top`, its first part), if it has one.
pub open spec fn snippet_key(top: bool, s: Snippet) -> Option<Seq<char>> {
    if top {
        if category_parts_of(s.category@).len() > 0 {
            Some(category_parts_of(s.category@)[0])
        } else {
            None
        }
    } else if s.category@.len() > 0 {
        Some(s.category@)
    } else {
        None
    }
}

/// Whether some snippet of `snips` has the key `t`.
pub open spec fn has_key(snips: Seq<Snippet>, top: bool, t: Seq<char>) -> bool {
    exists|a: int| 0 <= a < snips.len() && snippet_key(top, #[trigger] snips[a]) == Some(t)
}

/// Whether a path of `k` characters ends at a `/` of the category `c`
/// or is all of it.
pub open spec fn path_end(c: Seq<char>, k: int) -> bool {
    0 <= k <= c.len() && (k == c.len() || c[k] == '/')
}

/// Whether `t` is the category of one of `snips`, or a path above one.
pub open spec fn in_tree(snips: Seq<Snippet>, t: Seq<char>) -> bool {
    exists|a: int, k: int|
        #![trigger snips[a].category@.take(k)]
        0 <= a < snips.len() && snips[a].category@.len() > 0 && path_end(snips[a].category@, k) && t
            == snips[a].category@.take(k)
}

/// Whether `t` is a path of the category `c` that ends before position `k`.
pub open spec fn prefix_below(c: Seq<char>, k: int, t: Seq<char>) -> bool {
    exists|m: int| 0 <= m < k && path_end(c, m) && t == c.take(m)
}

/// The number of snippets in exactly the category `t`.
pub open spec fn tree_count(snips: Seq<Snippet>, t: Seq<char>) -> nat {
    snips.filter(|s: Snippet| s.category@.len() > 0 && s.category@ == t).len()
}

/// The number of `/` in `t`.
pub open spec fn slashes(t: Seq<char>) -> nat {
    t.filter(|c: char| c == '/').len()
}

/// The paths of a list of tree entries.
pub open spec fn entry_paths(v: Seq<(String, usize)>) -> Seq<Seq<char>> {
    v.map_values(|e: (String, usize)| e.0@)
}

/// A path that is in no snippet's tree counts no snippet.
proof fn lemma_count_new_path(snips: Seq<Snippet>, t: Seq<char>)
    ensures
        !in_tree(snips, t) ==> tree_count(snips, t) == 0,
    decreases snips.len(),
{
    if snips.len() > 0 && !in_tree(snips, t) {
        let init = snips.drop_last();
        assert(!in_tree(init, t)) by {
            if in_tree(init, t) {
                let (a, k) = choose|a: int, k: int|
                    #![trigger init[a].category@.take(k)]
                    0 <= a < init.len() && init[a].category@.len() > 0 && path_end(init[a].category@, k) && t
                        == init[a].category@.take(k);
                assert(snips[a] == init[a]);
                assert(snips[a].category@.take(k) == t);
            }
        }
        lemma_count_new_path(init, t);
        reveal(Seq::filter);
        let l = snips.last();
        if l.category@.len() > 0 && l.category@ == t {
            let n = l.category@.len() as int;
            assert(l.category@.take(n) =~= l.category@);
            assert(snips[snips.len() - 1].category@.take(n) == t);
        }
    }
}

/// A count of snippets is at most the number of snippets.
proof fn lemma_count_bound(snips: Seq<Snippet>, t: Seq<char>)
    ensures
        tree_count(snips, t) <= snips.len(),
{
    snips.lemma_filter_len(|s: Snippet| s.category@.len() > 0 && s.category@ == t);
}

/// The tree after one more snippet: its own paths join those of the others.
proof fn lemma_tree_step(pre: Seq<Snippet>, post: Seq<Snippet>, s: Snippet, t: Seq<char>)
    requires
        post == pre.push(s),
    ensures
        in_tree(post, t) <==> (in_tree(pre, t) || (s.category@.len() > 0 && exists|m: int|
            path_end(s.category@, m) && t == s.category@.take(m))),
{
    if in_tree(post, t) {
        let (a, k) = choose|a: int, k: int|
            #![trigger post[a].category@.take(k)]
            0 <= a < post.len() && post[a].category@.len() > 0 && path_end(post[a].category@, k) && t
                == post[a].category@.take(k);
        if a < pre.len() {
            assert(pre[a] == post[a]);
            assert(pre[a].category@.take(k) == t);
        }
    }
    if in_tree(pre, t) {
        let (a, k) = choose|a: int, k: int|
            #![trigger pre[a].category@.take(k)]
            0 <= a < pre.len() && pre[a].category@.len() > 0 && path_end(pre[a].category@, k) && t
                == pre[a].category@.take(k);
        assert(post[a] == pre[a]);
        assert(post[a].category@.take(k) == t);
    }
    if s.category@.len() > 0 && exists|m: int| path_end(s.category@, m) && t == s.category@.take(m) {
        let m = choose|m: int| path_end(s.category@, m) && t == s.category@.take(m);
        let a = pre.len() as int;
        assert(post[a] == s);
        assert(post[a].category@.take(m) == t);
    }
}

/// The number of `/` in `t`.
fn count_slashes(t: &str) -> (n: usize)
    ensures
        n == slashes(t@),
{
    let v = chars_of(t);
    let mut n: usize = 0;
    let mut i: usize = 0;
    while i < v.len()
        invariant
            i <= v@.len(),
            v@ == t@,
            n == v@.take(i as int).filter(|c: char| c == '/').len(),
            n <= i,
        decreases v@.len() - i,
    {
        proof {
            reveal(Seq::filter);
            assert(v@.take(i + 1).drop_last() =~= v@.take(i as int));
        }
        if v[i] == '/' {
            n = n + 1;
        }
        i = i + 1;
    }
    assert(v@.take(v@.len() as int) =~= v@);
    n
}

/// Adds the path `x` with no snippets to the ordered `entries`, unless it
/// is there.
fn ensure_entry(entries: &mut Vec<(String, usize)>, x: &String)
    requires
        strictly_sorted(entry_paths(old(entries)@)),
    ensures
        strictly_sorted(entry_paths(final(entries)@)),
        forall|t: Seq<char>|
            #[trigger] entry_paths(final(entries)@).contains(t) <==> (entry_paths(old(entries)@).contains(t) || t
                == x@),
        forall|j: int|
            0 <= j < final(entries)@.len() ==> old(entries)@.contains(#[trigger] final(entries)@[j]) || (
            final(entries)@[j].0@ == x@ && final(entries)@[j].1 == 0 && !entry_paths(old(entries)@).contains(x@)),
{
    let ghost sv = entry_paths(entries@);
    let ghost ov = entries@;
    let mut p: usize = 0;
    while p < entries.len() && str_less(entries[p].0.as_str(), x.as_str())
        invariant
            p <= entries@.len(),
            sv == entry_paths(entries@),
            ov == entries@,
            strictly_sorted(sv),
            forall|i: int| 0 <= i < p ==> seq_lt(#[trigger] sv[i], x@),
        decreases entries@.len() - p,
    {
        p = p + 1;
    }
    if p < entries.len() && str_eq(entries[p].0.as_str(), x.as_str()) {
        assert(sv[p as int] == x@);
        assert(sv.contains(x@));
        assert forall|j: int| 0 <= j < entries@.len() implies old(entries)@.contains(#[trigger] entries@[j]) by {}
        return;
    }
    proof {
        if p < sv.len() {
            crate::order::lemma_lt_total(sv[p as int], x@);
            assert forall|j: int| p <= j < sv.len() implies seq_lt(x@, #[trigger] sv[j]) by {
                if j > p {
                    crate::order::lemma_lt_transitive(x@, sv[p as int], sv[j]);
                }
            }
        }
        assert forall|j: int| 0 <= j < sv.len() implies sv[j] != x@ by {
            if j < p {
                crate::order::lemma_lt_irreflexive(x@);
            } else {
                crate::order::lemma_lt_irreflexive(x@);
            }
        }
    }
    entries.insert(p, (x.clone(), 0));
    let ghost nv = entry_paths(entries@);
    assert(nv =~= sv.insert(p as int, x@));
    assert forall|i: int, j: int| 0 <= i < j < nv.len() implies seq_lt(#[trigger] nv[i], #[trigger] nv[j]) by {
        if i < p && j == p {
        } else if i < p && j > p {
            assert(nv[j] == sv[j - 1]);
        } else if i == p {
            assert(nv[j] == sv[j - 1]);
        } else if i > p {
            assert(nv[i] == sv[i - 1]);
            assert(nv[j] == sv[j - 1]);
        }
    }
    assert forall|t: Seq<char>| #[trigger] nv.contains(t) <==> (sv.contains(t) || t == x@) by {
        if nv.contains(t) {
            let k = choose|k: int| 0 <= k < nv.len() && nv[k] == t;
            if k < p {
                assert(sv[k] == t);
            } else if k > p {
                assert(sv[k - 1] == t);
            }
        }
        if sv.contains(t) {
            let k = choose|k: int| 0 <= k < sv.len() && sv[k] == t;
            if k < p {
                assert(nv[k] == t);
            } else {
                assert(nv[k + 1] == t);
            }
        }
        if t == x@ {
            assert(nv[p as int] == t);
        }
    }
    assert forall|j: int| 0 <= j < entries@.len() implies ov.contains(#[trigger] entries@[j]) || (
    entries@[j].0@ == x@ && entries@[j].1 == 0 && !sv.contains(x@)) by {
        if j < p {
            assert(ov[j] == entries@[j]);
        } else if j > p {
            assert(ov[j - 1] == entries@[j]);
        }
    }
}

/// Whether `s` has the id `id`.
pub open spec fn has_id(s: Snippet, id: Seq<char>) -> bool {
    s.id@ == id
}

impl SnippetsConfig {
    /// The index of the first snippet with id `id`.
    fn position(&self, id: &str) -> (r: Option<usize>)
        ensures
            match r {
                Some(i) => i < self.snippets@.len() && has_id(self.snippets@[i as int], id@) && forall|j: int|
                    0 <= j < i ==> !has_id(#[trigger] self.snippets@[j], id@),
                None => forall|j: int| 0 <= j < self.snippets@.len() ==> !has_id(#[trigger] self.snippets@[j], id@),
            },
    {
        let mut i: usize = 0;
        while i < self.snippets.len()
            invariant
                i <= self.snippets@.len(),
                forall|j: int| 0 <= j < i ==> !has_id(#[trigger] self.snippets@[j], id@),
            decreases self.snippets@.len() - i,
        {
            if str_eq(self.snippets[i].id.as_str(), id) {
                return Some(i);
            }
            i = i + 1;
        }
        None
    }

    /// Adds a snippet at the end.
    pub fn add(&mut self, snippet: Snippet)
        ensures
            final(self).snippets@ == old(self).snippets@.push(snippet),
    {
        self.snippets.push(snippet);
    }

    /// Removes the first snippet with id `id`; whether there was one.
    pub fn remove(&mut self, id: &str) -> (removed: bool)
        ensures
            removed == exists|j: int| 0 <= j < old(self).snippets@.len() && has_id(#[trigger] old(self).snippets@[j], id@),
            removed ==> exists|i: int|
                0 <= i < old(self).snippets@.len() && has_id(old(self).snippets@[i], id@) && (forall|j: int|
                    0 <= j < i ==> !has_id(#[trigger] old(self).snippets@[j], id@)) && final(self).snippets@
                    == old(self).snippets@.remove(i),
            !removed ==> final(self).snippets@ == old(self).snippets@,
    {
        match self.position(id) {
            Some(i) => {
                self.snippets.remove(i);
                true
            },
            None => false,
        }
    }

    /// Replaces the first snippet with the id of `snippet`; whether there
    /// was one.
    pub fn update(&mut self, snippet: Snippet) -> (updated: bool)
        ensures
            updated == exists|j: int|
                0 <= j < old(self).snippets@.len() && has_id(#[trigger] old(self).snippets@[j], snippet.id@),
            updated ==> exists|i: int|
                0 <= i < old(self).snippets@.len() && has_id(old(self).snippets@[i], snippet.id@) && (forall|j: int|
                    0 <= j < i ==> !has_id(#[trigger] old(self).snippets@[j], snippet.id@)) && final(self).snippets@
                    == old(self).snippets@.update(i, snippet),
            !updated ==> final(self).snippets@ == old(self).snippets@,
    {
        match self.position(snippet.id.as_str()) {
            Some(i) => {
                self.snippets.set(i, snippet);
                true
            },
            None => false,
        }
    }

    /// The first snippet with id `id`.
    pub fn find(&self, id: &str) -> (r: Option<&Snippet>)
        ensures
            match r {
                Some(s) => exists|i: int|
                    0 <= i < self.snippets@.len() && *s == self.snippets@[i] && has_id(self.snippets@[i], id@)
                        && forall|j: int| 0 <= j < i ==> !has_id(#[trigger] self.snippets@[j], id@),
                None => forall|j: int| 0 <= j < self.snippets@.len() ==> !has_id(#[trigger] self.snippets@[j], id@),
            },
    {
        match self.position(id) {
            Some(i) => Some(&self.snippets[i]),
            None => None,
        }
    }

    /// The first snippet with id `id`, to change in place.
    pub fn find_mut(&mut self, id: &str) -> (r: Option<&mut Snippet>)
        ensures
            match r {
                Some(s) => exists|i: int|
                    0 <= i < old(self).snippets@.len() && *s == old(self).snippets@[i] && has_id(
                        old(self).snippets@[i],
                        id@,
                    ) && (forall|j: int| 0 <= j < i ==> !has_id(#[trigger] old(self).snippets@[j], id@))
                        && final(self).snippets@ == old(self).snippets@.update(i, *final(s)),
                None => (forall|j: int|
                    0 <= j < old(self).snippets@.len() ==> !has_id(#[trigger] old(self).snippets@[j], id@))
                    && *final(self) == *old(self),
            },
    {
        match self.position(id) {
            Some(i) => Some(&mut self.snippets[i]),
            None => None,
        }
    }

    /// The snippets that the listing `f` keeps, in order.
    pub fn filtered(&self, f: &SnippetFilter) -> (r: Vec<&Snippet>)
        ensures
            derefs(r@) == self.snippets@.filter(|s: Snippet| keeps(*f, s)),
    {
        let ghost pred = |s: Snippet| keeps(*f, s);
        let mut r: Vec<&Snippet> = Vec::new();
        let mut i: usize = 0;
        while i < self.snippets.len()
            invariant
                i <= self.snippets@.len(),
                pred == |s: Snippet| keeps(*f, s),
                derefs(r@) == self.snippets@.take(i as int).filter(pred),
            decreases self.snippets@.len() - i,
        {
            proof {
                reveal(Seq::filter);
                assert(self.snippets@.take(i + 1).drop_last() =~= self.snippets@.take(i as int));
            }
            let ghost before = r@;
            if keeps_exec(f, &self.snippets[i]) {
                r.push(&self.snippets[i]);
                assert(derefs(r@) =~= derefs(before).push(self.snippets@[i as int]));
            }
            i = i + 1;
        }
        assert(self.snippets@.take(self.snippets@.len() as int) =~= self.snippets@);
        r
    }

    /// The snippets whose lower-case name, description, command or a tag
    /// holds the lower case of `query`, in order.
    pub fn search(&self, query: &str) -> (r: Vec<&Snippet>)
        ensures
            derefs(r@) == self.snippets@.filter(|s: Snippet| matches_query(lowercase(query@), s)),
            query@.len() == 0 ==> derefs(r@) == self.snippets@,
    {
        let q = to_lowercase(query);
        let f = SnippetFilter::Query(q);
        let r = self.filtered(&f);
        assert((|s: Snippet| keeps(f, s)) =~= (|s: Snippet| matches_query(lowercase(query@), s)));
        proof {
            if query@.len() == 0 {
                let p = |s: Snippet| matches_query(lowercase(query@), s);
                assert forall|i: int| 0 <= i < self.snippets@.len() implies p(#[trigger] self.snippets@[i]) by {
                    crate::text::lemma_contains_empty(lowercase(self.snippets@[i].name@), lowercase(query@));
                }
                crate::text::lemma_filter_keeps_all(self.snippets@, p);
            }
        }
        r
    }

    /// References to all snippets, in order.
    fn all_refs(&self) -> (r: Vec<&Snippet>)
        ensures
            derefs(r@) == self.snippets@,
    {
        let mut all: Vec<&Snippet> = Vec::new();
        let mut i: usize = 0;
        while i < self.snippets.len()
            invariant
                i <= self.snippets@.len(),
                derefs(all@) == self.snippets@.take(i as int),
            decreases self.snippets@.len() - i,
        {
            let ghost before = all@;
            all.push(&self.snippets[i]);
            assert(derefs(all@) =~= derefs(before).push(self.snippets@[i as int]));
            assert(self.snippets@.take(i + 1) =~= self.snippets@.take(i as int).push(self.snippets@[i as int]));
            i = i + 1;
        }
        assert(self.snippets@.take(self.snippets@.len() as int) =~= self.snippets@);
        all
    }

    /// All snippets, most used first.
    pub fn by_usage(&self) -> (r: Vec<&Snippet>)
        ensures
            derefs(r@) == sorted_by(SnippetOrder::Usage, self.snippets@),
    {
        sort_snippets(SnippetOrder::Usage, self.all_refs())
    }

    /// All snippets by last use, most recent first, after those never used
    /// (newest first).
    pub fn by_recency(&self) -> (r: Vec<&Snippet>)
        ensures
            derefs(r@) == sorted_by(SnippetOrder::Recency, self.snippets@),
    {
        sort_snippets(SnippetOrder::Recency, self.all_refs())
    }

    /// The pinned snippets, by name.
    pub fn pinned(&self) -> (r: Vec<&Snippet>)
        ensures
            derefs(r@) == sorted_by(SnippetOrder::Name, self.snippets@.filter(|s: Snippet| s.pinned)),
    {
        let f = SnippetFilter::Pinned;
        let v = self.filtered(&f);
        assert((|s: Snippet| keeps(f, s)) =~= (|s: Snippet| s.pinned));
        sort_snippets(SnippetOrder::Name, v)
    }

    /// The snippets with a tag equal to `tag` in lower case, by name.
    pub fn with_tag(&self, tag: &str) -> (r: Vec<&Snippet>)
        ensures
            derefs(r@) == sorted_by(
                SnippetOrder::Name,
                self.snippets@.filter(|s: Snippet| some_tag(s, |x: Seq<char>| x == lowercase(tag@))),
            ),
    {
        let t = to_lowercase(tag);
        let f = SnippetFilter::Tag(t);
        let v = self.filtered(&f);
        assert((|s: Snippet| keeps(f, s)) =~= (|s: Snippet| some_tag(s, |x: Seq<char>| x == lowercase(tag@))));
        sort_snippets(SnippetOrder::Name, v)
    }

    /// The snippets in the category `category` or under it (ignoring case),
    /// by name.
    pub fn with_category(&self, category: &str) -> (r: Vec<&Snippet>)
        ensures
            derefs(r@) == sorted_by(
                SnippetOrder::Name,
                self.snippets@.filter(|s: Snippet| in_category(lowercase(category@), s)),
            ),
    {
        let c = to_lowercase(category);
        let f = SnippetFilter::Category(c);
        let v = self.filtered(&f);
        assert((|s: Snippet| keeps(f, s)) =~= (|s: Snippet| in_category(lowercase(category@), s)));
        sort_snippets(SnippetOrder::Name, v)
    }

    /// The snippets without a category, by name.
    pub fn uncategorized(&self) -> (r: Vec<&Snippet>)
        ensures
            derefs(r@) == sorted_by(
                SnippetOrder::Name,
                self.snippets@.filter(|s: Snippet| s.category@.len() == 0),
            ),
    {
        let f = SnippetFilter::Uncategorized;
        let v = self.filtered(&f);
        assert((|s: Snippet| keeps(f, s)) =~= (|s: Snippet| s.category@.len() == 0));
        sort_snippets(SnippetOrder::Name, v)
    }

    /// Every tag of every snippet, once each, in order.
    pub fn tags(&self) -> (r: Vec<String>)
        ensures
            strictly_sorted(string_views(r@)),
            forall|t: Seq<char>| string_views(r@).contains(t) <==> has_tag(self.snippets@, t),
    {
        let mut r: Vec<String> = Vec::new();
        let mut i: usize = 0;
        while i < self.snippets.len()
            invariant
                i <= self.snippets@.len(),
                strictly_sorted(string_views(r@)),
                forall|t: Seq<char>|
                    string_views(r@).contains(t) <==> has_tag(self.snippets@.take(i as int), t),
            decreases self.snippets@.len() - i,
        {
            let s = &self.snippets[i];
            let ghost before = string_views(r@);
            let mut j: usize = 0;
            while j < s.tags.len()
                invariant
                    j <= s.tags@.len(),
                    strictly_sorted(string_views(r@)),
                    forall|t: Seq<char>|
                        #[trigger] string_views(r@).contains(t) ==> (before.contains(t) || tag_in(*s, j as int, t)),
                    forall|t: Seq<char>| #[trigger] before.contains(t) ==> string_views(r@).contains(t),
                    forall|k: int| 0 <= k < j ==> string_views(r@).contains(#[trigger] s.tags@[k]@),
                decreases s.tags@.len() - j,
            {
                let ghost rv = string_views(r@);
                insert_sorted_unique(&mut r, &s.tags[j]);
                assert forall|t: Seq<char>| #[trigger] string_views(r@).contains(t) implies (before.contains(t)
                    || tag_in(*s, j + 1, t)) by {
                    if t == s.tags@[j as int]@ {
                        assert(tag_in(*s, j + 1, t));
                    } else {
                        assert(rv.contains(t));
                        if tag_in(*s, j as int, t) {
                            let k = choose|k: int| 0 <= k < j && (#[trigger] s.tags@[k])@ == t;
                            assert(tag_in(*s, j + 1, t));
                        }
                    }
                }
                assert forall|k: int| 0 <= k < j + 1 implies string_views(r@).contains(
                    #[trigger] s.tags@[k]@,
                ) by {
                    if k < j {
                        assert(rv.contains(s.tags@[k]@));
                    }
                }
                assert forall|t: Seq<char>| #[trigger] before.contains(t) implies string_views(r@).contains(t) by {
                    assert(rv.contains(t));
                }
                j = j + 1;
            }
            proof {
                let pre = self.snippets@.take(i as int);
                let post = self.snippets@.take(i + 1);
                assert(post[i as int] == *s);
                assert forall|t: Seq<char>| string_views(r@).contains(t) <==> has_tag(post, t) by {
                    if string_views(r@).contains(t) {
                        if before.contains(t) {
                            let (a, b) = choose|a: int, b: int|
                                0 <= a < pre.len() && 0 <= b < pre[a].tags@.len() && (#[trigger] pre[a].tags@[b])@ == t;
                            assert(post[a] == pre[a]);
                            assert(post[a].tags@[b]@ == t);
                        } else {
                            let k = choose|k: int| 0 <= k < s.tags@.len() && (#[trigger] s.tags@[k])@ == t;
                            assert(post[i as int].tags@[k]@ == t);
                        }
                    }
                    if has_tag(post, t) {
                        let (a, b) = choose|a: int, b: int|
                            0 <= a < post.len() && 0 <= b < post[a].tags@.len() && (#[trigger] post[a].tags@[b])@ == t;
                        if a < i {
                            assert(pre[a] == post[a]);
                            assert(pre[a].tags@[b]@ == t);
                            assert(before.contains(t));
                        } else {
                            assert(s.tags@[b]@ == t);
                        }
                    }
                }
            }
            i = i + 1;
        }
        assert(self.snippets@.take(self.snippets@.len() as int) =~= self.snippets@);
        r
    }

    /// The key of `s` that a listing of distinct keys collects.
    fn key_of(s: &Snippet, top: bool) -> (k: Option<String>)
        ensures
            opt_text(k) == snippet_key(top, *s),
    {
        if top {
            s.top_category()
        } else if s.category.as_str().is_empty() {
            None
        } else {
            Some(s.category.clone())
        }
    }

    /// The distinct keys of the snippets, in order.
    fn distinct_keys(&self, top: bool) -> (r: Vec<String>)
        ensures
            strictly_sorted(string_views(r@)),
            forall|t: Seq<char>| string_views(r@).contains(t) <==> has_key(self.snippets@, top, t),
    {
        let mut r: Vec<String> = Vec::new();
        let mut i: usize = 0;
        while i < self.snippets.len()
            invariant
                i <= self.snippets@.len(),
                strictly_sorted(string_views(r@)),
                forall|t: Seq<char>|
                    string_views(r@).contains(t) <==> has_key(self.snippets@.take(i as int), top, t),
            decreases self.snippets@.len() - i,
        {
            let ghost before = string_views(r@);
            let k = Self::key_of(&self.snippets[i], top);
            let ghost pre = self.snippets@.take(i as int);
            let ghost post = self.snippets@.take(i + 1);
            match k {
                Some(key) => {
                    insert_sorted_unique(&mut r, &key);
                },
                None => {},
            }
            proof {
                assert(post[i as int] == self.snippets@[i as int]);
                assert forall|t: Seq<char>| string_views(r@).contains(t) <==> has_key(post, top, t) by {
                    if has_key(post, top, t) {
                        let a = choose|a: int| 0 <= a < post.len() && snippet_key(top, #[trigger] post[a]) == Some(t);
                        if a < i {
                            assert(pre[a] == post[a]);
                            assert(has_key(pre, top, t));
                        }
                    }
                    if before.contains(t) {
                        let a = choose|a: int| 0 <= a < pre.len() && snippet_key(top, #[trigger] pre[a]) == Some(t);
                        assert(post[a] == pre[a]);
                    }
                }
            }
            i = i + 1;
        }
        assert(self.snippets@.take(self.snippets@.len() as int) =~= self.snippets@);
        r
    }

    /// The distinct categories, in order.
    pub fn categories(&self) -> (r: Vec<String>)
        ensures
            strictly_sorted(string_views(r@)),
            forall|t: Seq<char>| string_views(r@).contains(t) <==> has_key(self.snippets@, false, t),
    {
        self.distinct_keys(false)
    }

    /// The distinct top-level categories, in order.
    pub fn top_categories(&self) -> (r: Vec<String>)
        ensures
            strictly_sorted(string_views(r@)),
            forall|t: Seq<char>| string_views(r@).contains(t) <==> has_key(self.snippets@, true, t),
    {
        self.distinct_keys(true)
    }

    /// Every category and every path above one, in order, with its number
    /// of `/` (its depth) and the number of snippets in exactly that
    /// category.
    pub fn category_tree(&self) -> (r: Vec<(String, usize, usize)>)
        ensures
            strictly_sorted(r@.map_values(|e: (String, usize, usize)| e.0@)),
            forall|t: Seq<char>|
                r@.map_values(|e: (String, usize, usize)| e.0@).contains(t) <==> in_tree(self.snippets@, t),
            forall|i: int|
                0 <= i < r@.len() ==> (#[trigger] r@[i]).1 == slashes(r@[i].0@) && r@[i].2 == tree_count(
                    self.snippets@,
                    r@[i].0@,
                ),
    {
        let mut entries: Vec<(String, usize)> = Vec::new();
        let mut i: usize = 0;
        while i < self.snippets.len()
            invariant
                i <= self.snippets@.len(),
                strictly_sorted(entry_paths(entries@)),
                forall|t: Seq<char>| entry_paths(entries@).contains(t) <==> in_tree(self.snippets@.take(i as int), t),
                forall|j: int|
                    0 <= j < entries@.len() ==> (#[trigger] entries@[j]).1 == tree_count(
                        self.snippets@.take(i as int),
                        entries@[j].0@,
                    ),
            decreases self.snippets@.len() - i,
        {
            let s = &self.snippets[i];
            let c = chars_of(s.category.as_str());
            let ghost pre = self.snippets@.take(i as int);
            let ghost post = self.snippets@.take(i + 1);
            proof {
                assert(post.drop_last() =~= pre);
                assert(post.last() == *s);
                reveal(Seq::filter);
                assert forall|p: Seq<char>|
                    tree_count(post, p) == tree_count(pre, p) + (if s.category@.len() > 0 && s.category@ == p {
                        1int
                    } else {
                        0int
                    }) by {
                    reveal(Seq::filter);
                }
            }
            if c.len() > 0 {
                let mut k: usize = 0;
                while k < c.len()
                    invariant
                        k <= c@.len(),
                        c@ == s.category@,
                        c@.len() > 0,
                        pre == self.snippets@.take(i as int),
                        strictly_sorted(entry_paths(entries@)),
                        forall|t: Seq<char>|
                            #[trigger] entry_paths(entries@).contains(t) <==> (in_tree(pre, t) || prefix_below(c@, k as int, t)),
                        forall|j: int|
                            0 <= j < entries@.len() ==> (#[trigger] entries@[j]).1 == tree_count(pre, entries@[j].0@),
                    decreases c@.len() - k,
                {
                    let ghost before = entry_paths(entries@);
                    if c[k] == '/' {
                        let prefix = string_from_chars(crate::text::slice_chars(c.as_slice(), 0, k).as_slice());
                        proof {
                            assert(c@.subrange(0, k as int) =~= c@.take(k as int));
                            lemma_count_new_path(pre, prefix@);
                        }
                        ensure_entry(&mut entries, &prefix);
                    }
                    proof {
                        assert forall|t: Seq<char>| #[trigger] entry_paths(entries@).contains(t) <==> (in_tree(pre, t)
                            || prefix_below(c@, k + 1, t)) by {
                            if prefix_below(c@, k + 1, t) && !prefix_below(c@, k as int, t) {
                                let m = choose|m: int| 0 <= m < k + 1 && path_end(c@, m) && t == c@.take(m);
                                assert(m == k);
                            }
                            if prefix_below(c@, k as int, t) {
                                let m = choose|m: int| 0 <= m < k && path_end(c@, m) && t == c@.take(m);
                                assert(prefix_below(c@, k + 1, t));
                            }
                            if c@[k as int] == '/' && t == c@.take(k as int) {
                                assert(path_end(c@, k as int));
                                assert(prefix_below(c@, k + 1, t));
                            }
                        }
                    }
                    k = k + 1;
                }
                let whole = s.category.clone();
                proof {
                    lemma_count_new_path(pre, whole@);
                }
                ensure_entry(&mut entries, &whole);
                proof {
                    let n = c@.len() as int;
                    assert(c@.take(n) =~= c@);
                    assert(path_end(c@, n));
                    assert forall|t: Seq<char>| #[trigger] entry_paths(entries@).contains(t) <==> (in_tree(pre, t)
                        || prefix_below(c@, n + 1, t)) by {
                        if prefix_below(c@, n + 1, t) && !prefix_below(c@, n, t) {
                            let m = choose|m: int| 0 <= m < n + 1 && path_end(c@, m) && t == c@.take(m);
                            assert(m == n);
                        }
                        if prefix_below(c@, n, t) {
                            let m = choose|m: int| 0 <= m < n && path_end(c@, m) && t == c@.take(m);
                            assert(prefix_below(c@, n + 1, t));
                        }
                        if t == c@ {
                            assert(prefix_below(c@, n + 1, t));
                        }
                    }
                }
                // the category itself is now an entry: count this snippet in it
                let ghost ev = entries@;
                let mut q: usize = 0;
                while q < entries.len() && !str_eq(entries[q].0.as_str(), s.category.as_str())
                    invariant
                        q <= entries@.len(),
                        ev == entries@,
                        forall|j: int| 0 <= j < q ==> (#[trigger] entries@[j]).0@ != s.category@,
                    decreases entries@.len() - q,
                {
                    q = q + 1;
                }
                proof {
                    let n = c@.len() as int;
                    assert(c@.take(n) =~= c@);
                    assert(path_end(c@, n));
                    assert(entry_paths(entries@).contains(s.category@));
                    if q == entries@.len() {
                        let j = choose|j: int| 0 <= j < entries@.len() && entry_paths(entries@)[j] == s.category@;
                        assert(entries@[j].0@ == s.category@);
                    }
                }
                let (path, count) = entries.remove(q);
                proof {
                    assert(count == tree_count(pre, s.category@));
                    lemma_count_bound(pre, s.category@);
                }
                entries.insert(q, (path, count + 1));
                proof {
                    assert(entry_paths(entries@) =~= entry_paths(ev));
                    assert forall|j: int| 0 <= j < entries@.len() implies (#[trigger] entries@[j]).1 == tree_count(
                        post,
                        entries@[j].0@,
                    ) by {
                        if j != q {
                            assert(entries@[j] == ev[j]);
                            if ev[j].0@ == s.category@ {
                                let sv = entry_paths(ev);
                                if j < q {
                                    assert(seq_lt(sv[j], sv[q as int]));
                                } else {
                                    assert(seq_lt(sv[q as int], sv[j]));
                                }
                                crate::order::lemma_lt_irreflexive(s.category@);
                            }
                        }
                    }
                    assert(post =~= pre.push(*s));
                    assert forall|t: Seq<char>| entry_paths(entries@).contains(t) <==> in_tree(post, t) by {
                        lemma_tree_step(pre, post, *s, t);
                        let n = c@.len() as int;
                        if exists|m: int| path_end(s.category@, m) && t == s.category@.take(m) {
                            let m = choose|m: int| path_end(s.category@, m) && t == s.category@.take(m);
                            assert(prefix_below(c@, n + 1, t));
                        }
                        if prefix_below(c@, n + 1, t) {
                            let m = choose|m: int| 0 <= m < n + 1 && path_end(c@, m) && t == c@.take(m);
                            assert(path_end(s.category@, m) && t == s.category@.take(m));
                        }
                    }
                }
            } else {
                proof {
                    assert(post =~= pre.push(*s));
                    assert forall|t: Seq<char>| entry_paths(entries@).contains(t) <==> in_tree(post, t) by {
                        lemma_tree_step(pre, post, *s, t);
                    }
                }
            }
            i = i + 1;
        }
        assert(self.snippets@.take(self.snippets@.len() as int) =~= self.snippets@);
        let mut r: Vec<(String, usize, usize)> = Vec::new();
        let mut j: usize = 0;
        while j < entries.len()
            invariant
                j <= entries@.len(),
                r@.len() == j,
                forall|k: int|
                    0 <= k < j ==> (#[trigger] r@[k]).0@ == entries@[k].0@ && r@[k].1 == slashes(r@[k].0@) && r@[k].2
                        == entries@[k].1,
            decreases entries@.len() - j,
        {
            let depth = count_slashes(entries[j].0.as_str());
            r.push((entries[j].0.clone(), depth, entries[j].1));
            j = j + 1;
        }
        assert(r@.map_values(|e: (String, usize, usize)| e.0@) =~= entry_paths(entries@));
        r
    }
}


/// A variable placeholder of a snippet's command.
#[derive(Debug, Clone, PartialEq, Eq)]
pub struct SnippetVariable {
    /// Variable name (without braces)
    pub name: String,
    /// Default value, if given (`{{var:default}}`)
    pub default: Option<String>,
    /// Description or hint, if given (`{{var|hint}}`)
    pub hint: Option<String>,
}

/// Where a placeholder that starts at `i` of `s` ends (the index just
/// after it), if one starts there: `{{`, then one or more characters up to
/// the first `}` after them, which must be followed by another `}` (the
/// pattern `\{\{([^}]+)\}\}`).
pub open spec fn placeholder_at(s: Seq<char>, i: int) -> Option<int> {
    if 0 <= i && i + 1 < s.len() && s[i] == '{' && s[i + 1] == '{' {
        match index_of(s.skip(i + 2), '}') {
            Some(k) => if k > 0 && i + 2 + k + 1 < s.len() && s[i + 2 + k + 1] == '}' {
                Some(i + 2 + k + 2)
            } else {
                None
            },
            None => None,
        }
    } else {
        None
    }
}

/// The placeholders of `s` from `p` on, each as (start, end), found left
/// to right without overlapping, as `Regex::find_iter` finds them.
pub open spec fn placeholder_spans(s: Seq<char>, p: int) -> Seq<(int, int)>
    decreases s.len() - p,
{
    if p < 0 || p >= s.len() {
        Seq::empty()
    } else {
        match placeholder_at(s, p) {
            Some(e) => if p < e <= s.len() {
                seq![(p, e)] + placeholder_spans(s, e)
            } else {
                Seq::empty()
            },
            None => placeholder_spans(s, p + 1),
        }
    }
}

/// The insides of the placeholders of `s` from `p` on, in order.
pub open spec fn insides_from(s: Seq<char>, p: int) -> Seq<Seq<char>> {
    placeholder_spans(s, p).map_values(|x: (int, int)| s.subrange(x.0 + 2, x.1 - 2))
}

/// The insides of the placeholders `{{…}}` of a command, in order.
pub open spec fn placeholder_insides(command: Seq<char>) -> Seq<Seq<char>> {
    insides_from(command, 0)
}

/// `s` from `p` on with each placeholder replaced by `replacement(inside,
/// values)` and everything else kept.
pub open spec fn replaced_from(s: Seq<char>, p: int, values: Seq<(Seq<char>, Seq<char>)>) -> Seq<char>
    decreases s.len() - p,
{
    if p < 0 || p >= s.len() {
        Seq::empty()
    } else {
        match placeholder_at(s, p) {
            Some(e) => if p < e <= s.len() {
                replacement(s.subrange(p + 2, e - 2), values) + replaced_from(s, e, values)
            } else {
                Seq::empty()
            },
            None => seq![s[p]] + replaced_from(s, p + 1, values),
        }
    }
}

/// The command with each placeholder replaced by `replacement(inside,
/// values)`.
pub open spec fn placeholders_replaced(command: Seq<char>, values: Seq<(Seq<char>, Seq<char>)>) -> Seq<char> {
    replaced_from(command, 0, values)
}

proof fn lemma_placeholder_end(s: Seq<char>, i: int)
    ensures
        placeholder_at(s, i) matches Some(e) ==> i + 4 < e <= s.len() && s[e - 2] == '}' && s[e - 1] == '}',
{
    if 0 <= i && i + 1 < s.len() && s[i] == '{' && s[i + 1] == '{' {
        match index_of(s.skip(i + 2), '}') {
            Some(k) => {
                lemma_index_of_found(s.skip(i + 2), '}');
            },
            None => {},
        }
    }
}

proof fn lemma_index_of_found(s: Seq<char>, c: char)
    ensures
        index_of(s, c) matches Some(k) ==> k < s.len() && s[k as int] == c && forall|j: int| 0 <= j < k ==> s[j] != c,
    decreases s.len(),
{
    if s.len() > 0 && s[0] != c {
        lemma_index_of_found(s.drop_first(), c);
        match index_of(s.drop_first(), c) {
            Some(k) => {
                assert forall|j: int| 0 <= j < k + 1 implies s[j] != c by {
                    if j > 0 {
                        assert(s[j] == s.drop_first()[j - 1]);
                    }
                }
            },
            None => {},
        }
    }
}

/// Where the placeholder starting at `i` of `v` ends, if one starts there.
fn placeholder_end(v: &[char], i: usize) -> (r: Option<usize>)
    requires
        i < v@.len(),
    ensures
        match r {
            Some(e) => placeholder_at(v@, i as int) == Some(e as int),
            None => placeholder_at(v@, i as int) is None,
        },
{
    let n = v.len();
    if i + 1 < n && v[i] == '{' && v[i + 1] == '{' {
        let mut j = i + 2;
        while j < n && v[j] != '}'
            invariant
                i + 2 <= j <= n == v@.len(),
                forall|t: int| i + 2 <= t < j ==> v@[t] != '}',
            decreases n - j,
        {
            j = j + 1;
        }
        proof {
            let t = v@.skip(i + 2);
            assert forall|x: int| 0 <= x < j - (i + 2) implies t[x] != '}' by {
                assert(t[x] == v@[x + i + 2]);
            }
            if j < n {
                assert(t[j - (i + 2)] == v@[j as int]);
            }
            lemma_index_of(t, '}', j - (i + 2));
        }
        if j < n && j > i + 2 && j + 1 < n && v[j + 1] == '}' {
            Some(j + 2)
        } else {
            None
        }
    } else {
        None
    }
}

/// The characters `from` up to `to` of `v`, as a text.
fn text_of(v: &[char], from: usize, to: usize) -> (s: String)
    requires
        from <= to <= v@.len(),
    ensures
        s@ == v@.subrange(from as int, to as int),
{
    let part = slice_chars(v, from, to);
    string_from_chars(part.as_slice())
}

/// The insides of the placeholders of `command`, in order.
fn find_placeholders(command: &str) -> (r: Vec<String>)
    ensures
        string_views(r@) == placeholder_insides(command@),
{
    let v = chars_of(command);
    let ghost s = v@;
    let mut r: Vec<String> = Vec::new();
    let mut i: usize = 0;
    while i < v.len()
        invariant
            i <= v@.len(),
            s == v@ && v@ == command@,
            string_views(r@) + insides_from(s, i as int) == insides_from(s, 0),
        decreases v@.len() - i,
    {
        proof {
            lemma_placeholder_end(s, i as int);
        }
        match placeholder_end(v.as_slice(), i) {
            Some(e) => {
                let inside = text_of(v.as_slice(), i + 2, e - 2);
                let ghost before = r@;
                r.push(inside);
                proof {
                    assert(placeholder_spans(s, i as int) == seq![(i as int, e as int)] + placeholder_spans(s, e as int));
                    assert(insides_from(s, i as int) =~= seq![s.subrange(i + 2, e - 2)] + insides_from(s, e as int));
                    assert(string_views(r@) =~= string_views(before).push(inside@));
                    assert(string_views(r@) + insides_from(s, e as int) =~= string_views(before) + insides_from(
                        s,
                        i as int,
                    ));
                }
                i = e;
            },
            None => {
                assert(insides_from(s, i as int) =~= insides_from(s, i + 1));
                i = i + 1;
            },
        }
    }
    assert(insides_from(s, i as int) =~= Seq::<Seq<char>>::empty());
    assert(string_views(r@) =~= string_views(r@) + insides_from(s, i as int));
    r
}

/// The views of the values given for variables.
pub open spec fn value_views(values: Seq<(String, String)>) -> Seq<(Seq<char>, Seq<char>)> {
    values.map_values(|p: (String, String)| (p.0@, p.1@))
}

/// `command` with each placeholder replaced by `replacement_for` of its
/// inside.
fn replace_placeholders(command: &str, values: &[(String, String)]) -> (r: String)
    ensures
        r@ == placeholders_replaced(command@, value_views(values@)),
{
    let v = chars_of(command);
    let ghost s = v@;
    let ghost vv = value_views(values@);
    let mut r = String::new();
    let mut i: usize = 0;
    while i < v.len()
        invariant
            i <= v@.len(),
            s == v@ && v@ == command@,
            vv == value_views(values@),
            r@ + replaced_from(s, i as int, vv) == replaced_from(s, 0, vv),
        decreases v@.len() - i,
    {
        proof {
            lemma_placeholder_end(s, i as int);
        }
        let ghost before = r@;
        match placeholder_end(v.as_slice(), i) {
            Some(e) => {
                let inside = text_of(v.as_slice(), i + 2, e - 2);
                let rep = replacement_for(inside.as_str(), values);
                append_str(&mut r, rep.as_str());
                proof {
                    assert(replaced_from(s, i as int, vv) == replacement(s.subrange(i + 2, e - 2), vv) + replaced_from(
                        s,
                        e as int,
                        vv,
                    ));
                    assert(r@ + replaced_from(s, e as int, vv) =~= before + replaced_from(s, i as int, vv));
                }
                i = e;
            },
            None => {
                push_char(&mut r, v[i]);
                proof {
                    assert(replaced_from(s, i as int, vv) == seq![s[i as int]] + replaced_from(s, i + 1, vv));
                    assert(r@ + replaced_from(s, i + 1, vv) =~= before + replaced_from(s, i as int, vv));
                }
                i = i + 1;
            },
        }
    }
    assert(r@ =~= r@ + replaced_from(s, i as int, vv));
    r
}

/// `s` up to the first `c` (all of it if there is none).
pub open spec fn before_char(s: Seq<char>, c: char) -> Seq<char> {
    match index_of(s, c) {
        Some(i) => s.take(i as int),
        None => s,
    }
}

/// `s` after the first `c`, if there is one.
pub open spec fn after_char(s: Seq<char>, c: char) -> Option<Seq<char>> {
    match index_of(s, c) {
        Some(i) => Some(s.skip(i + 1int)),
        None => None,
    }
}

/// The variable a placeholder's inside declares: `name[:default][|hint]`,
/// name and default trimmed.
pub open spec fn variable_of(inside: Seq<char>) -> (Seq<char>, Option<Seq<char>>, Option<Seq<char>>) {
    let name_part = before_char(inside, '|');
    let hint = after_char(inside, '|');
    let name = trim(before_char(name_part, ':'));
    let default = match after_char(name_part, ':') {
        Some(d) => Some(trim(d)),
        None => None,
    };
    (name, default, hint)
}

/// The view of a variable.
pub open spec fn variable_view(v: SnippetVariable) -> (Seq<char>, Option<Seq<char>>, Option<Seq<char>>) {
    (v.name@, match v.default {
        Some(d) => Some(d@),
        None => None,
    }, match v.hint {
        Some(h) => Some(h@),
        None => None,
    })
}

/// The variables of a list of placeholder insides, in order, each name
/// once (its first placeholder counts).
pub open spec fn variables_of(insides: Seq<Seq<char>>) -> Seq<(Seq<char>, Option<Seq<char>>, Option<Seq<char>>)>
    decreases insides.len(),
{
    if insides.len() == 0 {
        Seq::empty()
    } else {
        let earlier = variables_of(insides.drop_last());
        let v = variable_of(insides.last());
        if exists|i: int| 0 <= i < earlier.len() && earlier[i].0 == v.0 {
            earlier
        } else {
            earlier.push(v)
        }
    }
}

/// There are variables exactly when there are placeholders: the command
/// has variables (`has_variables`) exactly when `extract_variables` finds
/// some.
pub proof fn law_variables_iff_placeholders(insides: Seq<Seq<char>>)
    ensures
        (variables_of(insides).len() > 0) == (insides.len() > 0),
    decreases insides.len(),
{
    if insides.len() > 0 {
        law_variables_iff_placeholders(insides.drop_last());
        let earlier = variables_of(insides.drop_last());
        if exists|i: int| 0 <= i < earlier.len() && earlier[i].0 == variable_of(insides.last()).0 {
            assert(earlier.len() > 0);
        }
    }
}

/// The text a placeholder is replaced by: the value given for its name,
/// else its default, else the placeholder `{{name}}` itself.
pub open spec fn replacement(inside: Seq<char>, values: Seq<(Seq<char>, Seq<char>)>) -> Seq<char> {
    let name_part = before_char(inside, '|');
    let name = trim(before_char(name_part, ':'));
    if exists|i: int| 0 <= i < values.len() && values[i].0 == name {
        values[choose|i: int| 0 <= i < values.len() && values[i].0 == name && forall|j: int| 0 <= j < i ==> values[j].0 != name].1
    } else {
        match after_char(name_part, ':') {
            Some(d) => trim(d),
            None => "{{"@ + name + "}}"@,
        }
    }
}

/// A value given for a placeholder's variable replaces it, whether or not
/// the placeholder declares a default; the first value given for a name
/// counts. Only where no value is given does the default stand in, and
/// without a default the placeholder stays as `{{name}}`.
pub proof fn law_given_value_wins(inside: Seq<char>, values: Seq<(Seq<char>, Seq<char>)>, k: int)
    requires
        0 <= k < values.len(),
        values[k].0 == variable_of(inside).0,
        forall|j: int| 0 <= j < k ==> values[j].0 != values[k].0,
    ensures
        replacement(inside, values) == values[k].1,
{
    let name = variable_of(inside).0;
    let i = choose|i: int|
        0 <= i < values.len() && values[i].0 == name && forall|j: int| 0 <= j < i ==> values[j].0 != name;
    assert(0 <= i < values.len() && values[i].0 == name && forall|j: int| 0 <= j < i ==> values[j].0 != name);
    if i < k {
        assert(values[i].0 != values[k].0);
    } else if i > k {
        assert(values[k].0 != name);
    }
}

/// Where no value is given for a placeholder's variable, its default
/// replaces it, and without a default the placeholder `{{name}}` stays.
pub proof fn law_default_without_value(inside: Seq<char>, values: Seq<(Seq<char>, Seq<char>)>)
    requires
        forall|i: int| 0 <= i < values.len() ==> values[i].0 != variable_of(inside).0,
    ensures
        replacement(inside, values) == match variable_of(inside).1 {
            Some(d) => d,
            None => "{{"@ + variable_of(inside).0 + "}}"@,
        },
{
}

fn before(v: &Vec<char>, c: char) -> (r: Vec<char>)
    ensures
        r@ == before_char(v@, c),
{
    match find_char(v.as_slice(), c) {
        Some(i) => slice_chars(v.as_slice(), 0, i),
        None => slice_chars(v.as_slice(), 0, v.len()),
    }
}

fn after(v: &Vec<char>, c: char) -> (r: Option<Vec<char>>)
    ensures
        match r {
            Some(x) => after_char(v@, c) == Some(x@),
            None => after_char(v@, c) is None,
        },
{
    match find_char(v.as_slice(), c) {
        Some(i) => {
            let n = v.len();
            assert(i < n);
            let j = i + 1;
            Some(slice_chars(v.as_slice(), j, v.len()))
        },
        None => None,
    }
}

/// The variable a placeholder's inside declares.
pub fn parse_variable(inside: &str) -> (v: SnippetVariable)
    ensures
        variable_view(v) == variable_of(inside@),
{
    let c = chars_of(inside);
    let name_part = before(&c, '|');
    let hint = match after(&c, '|') {
        Some(h) => Some(string_from_chars(h.as_slice())),
        None => None,
    };
    let n = before(&name_part, ':');
    let name = string_from_chars(trim_chars(n.as_slice()).as_slice());
    let default = match after(&name_part, ':') {
        Some(d) => Some(string_from_chars(trim_chars(d.as_slice()).as_slice())),
        None => None,
    };
    SnippetVariable { name, default, hint }
}

/// The text a placeholder with inside `inner` is replaced by.
pub fn replacement_for(inner: &str, values: &[(String, String)]) -> (r: String)
    ensures
        r@ == replacement(inner@, value_views(values@)),
{
    let c = chars_of(inner);
    let name_part = before(&c, '|');
    let n = before(&name_part, ':');
    let name = string_from_chars(trim_chars(n.as_slice()).as_slice());
    let ghost vv = value_views(values@);
    let mut i: usize = 0;
    while i < values.len()
        invariant
            i <= values@.len(),
            vv == value_views(values@),
            name_part@ == before_char(inner@, '|'),
            name@ == trim(before_char(name_part@, ':')),
            forall|j: int| 0 <= j < i ==> (#[trigger] vv[j]).0 != name@,
        decreases values@.len() - i,
    {
        if str_eq(values[i].0.as_str(), name.as_str()) {
            proof {
                assert(vv[i as int].0 == name@);
                assert(exists|k: int| 0 <= k < vv.len() && vv[k].0 == name@ && forall|j: int| 0 <= j < k ==> vv[j].0 != name@) by {
                    assert(0 <= i < vv.len() && vv[i as int].0 == name@ && forall|j: int| 0 <= j < i ==> vv[j].0 != name@);
                }
                let k = choose|k: int| 0 <= k < vv.len() && vv[k].0 == name@ && forall|j: int| 0 <= j < k ==> vv[j].0 != name@;
                assert(vv[i as int].0 == name@);
                if k < i {
                    assert(vv[k].0 != name@);
                } else if k > i {
                    assert(vv[i as int].0 != name@);
                }
                assert(k == i);
                assert(name_part@ == before_char(inner@, '|'));
                assert(name@ == trim(before_char(name_part@, ':')));
                assert(replacement(inner@, vv) == vv[i as int].1);
            }
            return values[i].1.clone();
        }
        i = i + 1;
    }
    match after(&name_part, ':') {
        Some(d) => string_from_chars(trim_chars(d.as_slice()).as_slice()),
        None => {
            let mut s = "{{".to_owned();
            append_str(&mut s, name.as_str());
            append_str(&mut s, "}}");
            s
        },
    }
}

impl Snippet {
    /// The variables of the command's placeholders, in order, each name
    /// once: `{{var}}`, `{{var:default}}`, `{{var|hint}}` or
    /// `{{var:default|hint}}`.
    pub fn extract_variables(&self) -> (r: Vec<SnippetVariable>)
        ensures
            r@.map_values(|v: SnippetVariable| variable_view(v)) == variables_of(placeholder_insides(self.command@)),
    {
        let insides = find_placeholders(self.command.as_str());
        let ghost iv = string_views(insides@);
        let mut vars: Vec<SnippetVariable> = Vec::new();
        let mut i: usize = 0;
        while i < insides.len()
            invariant
                i <= insides@.len(),
                iv == string_views(insides@),
                vars@.map_values(|v: SnippetVariable| variable_view(v)) == variables_of(iv.take(i as int)),
            decreases insides@.len() - i,
        {
            let v = parse_variable(insides[i].as_str());
            let ghost earlier = vars@.map_values(|v: SnippetVariable| variable_view(v));
            proof {
                assert(iv.take(i + 1).drop_last() =~= iv.take(i as int));
                assert(iv.take(i + 1).last() == insides@[i as int]@);
            }
            let mut seen = false;
            let mut k: usize = 0;
            while k < vars.len()
                invariant
                    k <= vars@.len(),
                    earlier == vars@.map_values(|v: SnippetVariable| variable_view(v)),
                    seen ==> exists|j: int| 0 <= j < earlier.len() && earlier[j].0 == v.name@,
                    !seen ==> forall|j: int| 0 <= j < k ==> (#[trigger] earlier[j]).0 != v.name@,
                decreases vars@.len() - k,
            {
                if str_eq(vars[k].name.as_str(), v.name.as_str()) {
                    assert(earlier[k as int].0 == v.name@);
                    seen = true;
                }
                k = k + 1;
            }
            if !seen {
                vars.push(v);
                assert(vars@.map_values(|v: SnippetVariable| variable_view(v)) =~= earlier.push(variable_view(v)));
            }
            i = i + 1;
        }
        assert(iv.take(insides@.len() as int) =~= iv);
        vars
    }

    /// The command with each placeholder replaced by the value given for
    /// its variable, else its default, else left as `{{name}}`.
    pub fn substitute_variables(&self, values: &[(String, String)]) -> (r: String)
        ensures
            r@ == placeholders_replaced(self.command@, value_views(values@)),
    {
        replace_placeholders(self.command.as_str(), values)
    }
}

} // verus!
