//! Character-level text helpers shared by the parsers and searches:
//! converting between strings and character vectors, Unicode white space,
//! trimming, splitting and decimal numbers.

use vstd::prelude::*;
use vstd::std_specs::iter::IteratorSpec;

verus! {

/// The characters of a string, in order.
pub fn chars_of(s: &str) -> (v: Vec<char>)
    ensures
        v@ == s@,
{
    let mut v: Vec<char> = Vec::new();
    let chars_it = s.chars();
    for c in it: chars_it
        invariant
            it.seq() == s@,
            v@ == s@.take(it.index()),
            it.index() <= s@.len(),
    {
        assert(s@.take(it.index() + 1) =~= s@.take(it.index()).push(c));
        v.push(c);
    }
    assert(v@.len() == s@.len() ==> v@ =~= s@);
    v
}

/// Calls `String::push`. Claimed, as its documentation says: the character
/// is appended to the string.
#[verifier::external_body]
pub fn push_char(s: &mut String, c: char)
    ensures
        final(s)@ == old(s)@.push(c),
{
    s.push(c);
}

/// A string holding the characters of `v`.
pub fn string_from_chars(v: &[char]) -> (s: String)
    ensures
        s@ == v@,
{
    let mut s = String::new();
    let mut i: usize = 0;
    while i < v.len()
        invariant
            i <= v@.len(),
            s@ == v@.take(i as int),
        decreases v@.len() - i,
    {
        assert(v@.take(i + 1) =~= v@.take(i as int).push(v@[i as int]));
        push_char(&mut s, v[i]);
        i = i + 1;
    }
    assert(v@.take(v@.len() as int) =~= v@);
    s
}

/// Whether two character sequences are equal.
pub fn chars_eq(a: &[char], b: &[char]) -> (r: bool)
    ensures
        r == (a@ == b@),
{
    if a.len() != b.len() {
        return false;
    }
    let mut i: usize = 0;
    while i < a.len()
        invariant
            i <= a@.len() == b@.len(),
            a@.take(i as int) == b@.take(i as int),
        decreases a@.len() - i,
    {
        if a[i] != b[i] {
            assert(a@[i as int] != b@[i as int]);
            return false;
        }
        assert(a@.take(i + 1) =~= a@.take(i as int).push(a@[i as int]));
        assert(b@.take(i + 1) =~= b@.take(i as int).push(b@[i as int]));
        i = i + 1;
    }
    assert(a@.take(a@.len() as int) =~= a@);
    assert(b@.take(b@.len() as int) =~= b@);
    true
}

/// Whether two strings are equal.
pub fn str_eq(a: &str, b: &str) -> (r: bool)
    ensures
        r == (a@ == b@),
{
    let x = chars_of(a);
    let y = chars_of(b);
    chars_eq(x.as_slice(), y.as_slice())
}


/// Unicode `White_Space`: what `char::is_whitespace` accepts.
pub open spec fn is_ws(c: char) -> bool {
    ('\u{9}' <= c <= '\u{d}') || c == ' ' || c == '\u{85}' || c == '\u{a0}' || c == '\u{1680}' || (
    '\u{2000}' <= c <= '\u{200a}') || c == '\u{2028}' || c == '\u{2029}' || c == '\u{202f}' || c
        == '\u{205f}' || c == '\u{3000}'
}

/// Whether `c` is white space.
pub fn is_whitespace(c: char) -> (b: bool)
    ensures
        b == is_ws(c),
{
    (c >= '\u{9}' && c <= '\u{d}') || c == ' ' || c == '\u{85}' || c == '\u{a0}' || c == '\u{1680}'
        || (c >= '\u{2000}' && c <= '\u{200a}') || c == '\u{2028}' || c == '\u{2029}' || c
        == '\u{202f}' || c == '\u{205f}' || c == '\u{3000}'
}

/// The number of leading characters of `s` that satisfy `p`.
pub open spec fn leading_count(s: Seq<char>, p: spec_fn(char) -> bool) -> nat
    decreases s.len(),
{
    if s.len() > 0 && p(s[0]) {
        1 + leading_count(s.drop_first(), p)
    } else {
        0
    }
}

/// The number of trailing characters of `s` that satisfy `p`.
pub open spec fn trailing_count(s: Seq<char>, p: spec_fn(char) -> bool) -> nat
    decreases s.len(),
{
    if s.len() > 0 && p(s.last()) {
        1 + trailing_count(s.drop_last(), p)
    } else {
        0
    }
}

/// `s` without its leading white space.
pub open spec fn trim_start(s: Seq<char>) -> Seq<char> {
    s.skip(leading_count(s, |c: char| is_ws(c)) as int)
}

/// `s` without its trailing white space.
pub open spec fn trim_end(s: Seq<char>) -> Seq<char> {
    s.take(s.len() - trailing_count(s, |c: char| is_ws(c)))
}

/// `s` without leading and trailing white space.
pub open spec fn trim(s: Seq<char>) -> Seq<char> {
    trim_end(trim_start(s))
}

pub proof fn lemma_leading_count_bound(s: Seq<char>, p: spec_fn(char) -> bool)
    ensures
        leading_count(s, p) <= s.len(),
        forall|i: int| 0 <= i < leading_count(s, p) ==> p(#[trigger] s[i]),
        leading_count(s, p) < s.len() ==> !p(s[leading_count(s, p) as int]),
    decreases s.len(),
{
    if s.len() > 0 && p(s[0]) {
        lemma_leading_count_bound(s.drop_first(), p);
        assert forall|i: int| 0 <= i < leading_count(s, p) implies p(#[trigger] s[i]) by {
            if i > 0 {
                assert(s[i] == s.drop_first()[i - 1]);
            }
        }
    }
}

pub proof fn lemma_trailing_count_le(s: Seq<char>, p: spec_fn(char) -> bool)
    ensures
        trailing_count(s, p) <= s.len(),
    decreases s.len(),
{
    if s.len() > 0 && p(s.last()) {
        lemma_trailing_count_le(s.drop_last(), p);
    }
}

pub proof fn lemma_leading_count_step(s: Seq<char>, p: spec_fn(char) -> bool, k: int)
    requires
        0 <= k <= s.len(),
        forall|i: int| 0 <= i < k ==> p(#[trigger] s[i]),
        k < s.len() ==> !p(s[k]),
    ensures
        leading_count(s, p) == k,
    decreases s.len(),
{
    if k > 0 {
        assert forall|i: int| 0 <= i < k - 1 implies p(#[trigger] s.drop_first()[i]) by {
            assert(s.drop_first()[i] == s[i + 1]);
        }
        lemma_leading_count_step(s.drop_first(), p, k - 1);
    }
}

pub proof fn lemma_trailing_count_step(s: Seq<char>, p: spec_fn(char) -> bool, k: int)
    requires
        0 <= k <= s.len(),
        forall|i: int| s.len() - k <= i < s.len() ==> p(#[trigger] s[i]),
        k < s.len() ==> !p(s[s.len() - k - 1]),
    ensures
        trailing_count(s, p) == k,
    decreases s.len(),
{
    if k > 0 {
        assert forall|i: int|
            s.drop_last().len() - (k - 1) <= i < s.drop_last().len() implies p(
            #[trigger] s.drop_last()[i],
        ) by {
            assert(s.drop_last()[i] == s[i]);
        }
        lemma_trailing_count_step(s.drop_last(), p, k - 1);
    }
}

/// The position of the first character of `v[from..to]` that is not white
/// space (or `to`).
pub fn skip_ws_forward(v: &[char], from: usize, to: usize) -> (k: usize)
    requires
        from <= to <= v@.len(),
    ensures
        from <= k <= to,
        forall|i: int| from <= i < k ==> is_ws(#[trigger] v@[i]),
        k < to ==> !is_ws(v@[k as int]),
{
    let mut k = from;
    while k < to && is_whitespace(v[k])
        invariant
            from <= k <= to <= v@.len(),
            forall|i: int| from <= i < k ==> is_ws(#[trigger] v@[i]),
        decreases to - k,
    {
        k = k + 1;
    }
    k
}

/// The position just after the last character of `v[from..to]` that is not
/// white space (or `from`).
fn skip_ws_backward(v: &[char], from: usize, to: usize) -> (k: usize)
    requires
        from <= to <= v@.len(),
    ensures
        from <= k <= to,
        forall|i: int| k <= i < to ==> is_ws(#[trigger] v@[i]),
        k > from ==> !is_ws(v@[k - 1]),
{
    let mut k = to;
    while k > from && is_whitespace(v[k - 1])
        invariant
            from <= k <= to <= v@.len(),
            forall|i: int| k <= i < to ==> is_ws(#[trigger] v@[i]),
        decreases k - from,
    {
        k = k - 1;
    }
    k
}

/// The bounds of `v[from..to]` with its white space trimmed at both ends.
pub fn trim_bounds(v: &[char], from: usize, to: usize) -> (r: (usize, usize))
    requires
        from <= to <= v@.len(),
    ensures
        from <= r.0 <= r.1 <= to,
        v@.subrange(r.0 as int, r.1 as int) == trim(v@.subrange(from as int, to as int)),
{
    let a = skip_ws_forward(v, from, to);
    let b = skip_ws_backward(v, a, to);
    proof {
        let s = v@.subrange(from as int, to as int);
        lemma_leading_count_step(s, |c: char| is_ws(c), a - from);
        let t = trim_start(s);
        assert(t =~= v@.subrange(a as int, to as int));
        lemma_trailing_count_step(t, |c: char| is_ws(c), to - b);
        assert(trim_end(t) =~= v@.subrange(a as int, b as int));
    }
    (a, b)
}

/// `s` with white space trimmed at both ends.
pub fn trim_chars(s: &[char]) -> (r: Vec<char>)
    ensures
        r@ == trim(s@),
{
    let (a, b) = trim_bounds(s, 0, s.len());
    assert(s@.subrange(0, s@.len() as int) =~= s@);
    slice_chars(s, a, b)
}

/// A copy of `v[from..to]`.
pub fn slice_chars(v: &[char], from: usize, to: usize) -> (r: Vec<char>)
    requires
        from <= to <= v@.len(),
    ensures
        r@ == v@.subrange(from as int, to as int),
{
    let mut r: Vec<char> = Vec::new();
    let mut i = from;
    while i < to
        invariant
            from <= i <= to <= v@.len(),
            r@ == v@.subrange(from as int, i as int),
        decreases to - i,
    {
        assert(v@.subrange(from as int, i + 1) =~= v@.subrange(from as int, i as int).push(v@[i as int]));
        r.push(v[i]);
        i = i + 1;
    }
    r
}

/// Whether `s` starts with `p`.
pub open spec fn starts_with<A>(s: Seq<A>, p: Seq<A>) -> bool {
    p.len() <= s.len() && s.take(p.len() as int) == p
}

/// Whether `s` ends with `p`.
pub open spec fn ends_with<A>(s: Seq<A>, p: Seq<A>) -> bool {
    p.len() <= s.len() && s.skip(s.len() - p.len()) == p
}

/// Whether `p` occurs in `s` at position `i`.
pub open spec fn occurs_at<A>(s: Seq<A>, p: Seq<A>, i: int) -> bool {
    0 <= i && i + p.len() <= s.len() && s.subrange(i, i + p.len()) == p
}

/// Whether `p` occurs in `s`.
pub open spec fn contains_seq<A>(s: Seq<A>, p: Seq<A>) -> bool {
    exists|i: int| occurs_at(s, p, i)
}

/// Whether `p` occurs in `v` at position `i`.
pub fn matches_at(v: &[char], p: &[char], i: usize) -> (b: bool)
    ensures
        b == occurs_at(v@, p@, i as int),
{
    if i > v.len() || p.len() > v.len() - i {
        return false;
    }
    let mut k: usize = 0;
    while k < p.len()
        invariant
            k <= p@.len(),
            i + p@.len() <= v@.len(),
            v@.len() <= usize::MAX,
            forall|j: int| 0 <= j < k ==> v@[i + j] == p@[j],
        decreases p@.len() - k,
    {
        if v[i + k] != p[k] {
            assert(v@.subrange(i as int, i + p@.len())[k as int] != p@[k as int]);
            return false;
        }
        k = k + 1;
    }
    assert(v@.subrange(i as int, i + p@.len()) =~= p@);
    true
}

/// Whether `p` occurs anywhere in `v`.
pub fn contains_chars(v: &[char], p: &[char]) -> (b: bool)
    ensures
        b == contains_seq(v@, p@),
{
    if p.len() > v.len() {
        assert forall|i: int| !occurs_at(v@, p@, i) by {}
        return false;
    }
    let last = v.len() - p.len();
    let mut i: usize = 0;
    while i < last
        invariant
            p@.len() <= v@.len(),
            last == v@.len() - p@.len(),
            i <= last,
            forall|j: int| 0 <= j < i ==> !occurs_at(v@, p@, j),
        decreases last - i,
    {
        if matches_at(v, p, i) {
            return true;
        }
        i = i + 1;
    }
    if matches_at(v, p, last) {
        return true;
    }
    assert forall|j: int| !occurs_at(v@, p@, j) by {}
    false
}

/// Whether `v` starts with `p`.
pub fn starts_with_chars(v: &[char], p: &[char]) -> (b: bool)
    ensures
        b == starts_with(v@, p@),
{
    let r = matches_at(v, p, 0);
    assert(p@.len() <= v@.len() ==> v@.take(p@.len() as int) =~= v@.subrange(0, p@.len() as int));
    r
}

/// Whether `v` ends with `p`.
pub fn ends_with_chars(v: &[char], p: &[char]) -> (b: bool)
    ensures
        b == ends_with(v@, p@),
{
    if p.len() > v.len() {
        return false;
    }
    let r = matches_at(v, p, v.len() - p.len());
    assert(v@.skip(v@.len() - p@.len()) =~= v@.subrange(v@.len() - p@.len(), v@.len() as int));
    r
}

/// Whether `c` is an ASCII decimal digit.
pub open spec fn is_digit(c: char) -> bool {
    '0' <= c <= '9'
}

/// The value of the decimal digits `s` (no bound).
pub open spec fn digits_value(s: Seq<char>) -> nat
    decreases s.len(),
{
    if s.len() == 0 {
        0
    } else {
        digits_value(s.drop_last()) * 10 + (s.last() as nat - '0' as nat) as nat
    }
}

/// `s` without one leading `+`.
pub open spec fn without_plus(s: Seq<char>) -> Seq<char> {
    if s.len() > 0 && s[0] == '+' {
        s.drop_first()
    } else {
        s
    }
}

/// What `str::parse::<uN>` gives (`max` is the type's largest value): an
/// optional `+`, then at least one digit and only digits, and a value that
/// fits.
pub open spec fn parse_unsigned(s: Seq<char>, max: nat) -> Option<nat> {
    let d = without_plus(s);
    if d.len() > 0 && (forall|i: int| 0 <= i < d.len() ==> is_digit(#[trigger] d[i])) && digits_value(
        d,
    ) <= max {
        Some(digits_value(d))
    } else {
        None
    }
}

proof fn lemma_digits_monotone(s: Seq<char>, k: int)
    requires
        0 <= k <= s.len(),
        forall|i: int| 0 <= i < s.len() ==> is_digit(#[trigger] s[i]),
    ensures
        digits_value(s.take(k)) <= digits_value(s),
    decreases s.len(),
{
    if k < s.len() {
        assert(s.drop_last().take(k) =~= s.take(k));
        lemma_digits_monotone(s.drop_last(), k);
    } else {
        assert(s.take(k) =~= s);
    }
}

/// Parse `v[from..to]` as an unsigned number no larger than `max`.
pub fn parse_unsigned_range(v: &[char], from: usize, to: usize, max: u64) -> (r: Option<u64>)
    requires
        from <= to <= v@.len(),
    ensures
        match parse_unsigned(v@.subrange(from as int, to as int), max as nat) {
            Some(n) => r == Some(n as u64),
            None => r is None,
        },
{
    let ghost s = v@.subrange(from as int, to as int);
    let start = if from < to && v[from] == '+' {
        from + 1
    } else {
        from
    };
    let ghost d = v@.subrange(start as int, to as int);
    assert(d =~= without_plus(s));
    if start == to {
        return None;
    }
    let mut value: u64 = 0;
    let mut i = start;
    while i < to
        invariant
            start <= i <= to <= v@.len(),
            d == v@.subrange(start as int, to as int),
            s == v@.subrange(from as int, to as int),
            d == without_plus(s),
            forall|j: int| start <= j < i ==> is_digit(#[trigger] v@[j]),
            value == digits_value(v@.subrange(start as int, i as int)),
            value <= max,
        decreases to - i,
    {
        let c = v[i];
        if c < '0' || c > '9' {
            proof {
                assert(!is_digit(d[i - start]));
                assert(!(forall|j: int| 0 <= j < d.len() ==> is_digit(#[trigger] d[j])));
            }
            return None;
        }
        let digit = (c as u32 - '0' as u32) as u64;
        assert(v@.subrange(start as int, i + 1).drop_last() =~= v@.subrange(start as int, i as int));
        if digit > max || value > (max - digit) / 10 {
            proof {
                let t = v@.subrange(start as int, i + 1);
                assert(digits_value(t) == value * 10 + digit);
                assert(value * 10 + digit > max) by (nonlinear_arith)
                    requires
                        digit > max || value > (max - digit) / 10,
                        digit <= 9,
                        value >= 0,
                ;
                if forall|j: int| 0 <= j < d.len() ==> is_digit(#[trigger] d[j]) {
                    assert(d.take(i + 1 - start) =~= t);
                    lemma_digits_monotone(d, i + 1 - start);
                }
            }
            return None;
        }
        assert(value * 10 + digit <= max) by (nonlinear_arith)
            requires
                value <= (max - digit) / 10,
                digit <= max,
        ;
        value = value * 10 + digit;
        i = i + 1;
    }
    assert(v@.subrange(start as int, to as int) =~= d);
    Some(value)
}


/// Whether `p` occurs in the bytes `v` at position `i`.
pub fn bytes_match_at(v: &[u8], p: &[u8], i: usize) -> (b: bool)
    ensures
        b == occurs_at(v@, p@, i as int),
{
    if i > v.len() || p.len() > v.len() - i {
        return false;
    }
    let mut k: usize = 0;
    while k < p.len()
        invariant
            k <= p@.len(),
            i + p@.len() <= v@.len(),
            v@.len() <= usize::MAX,
            forall|j: int| 0 <= j < k ==> v@[i + j] == p@[j],
        decreases p@.len() - k,
    {
        if v[i + k] != p[k] {
            assert(v@.subrange(i as int, i + p@.len())[k as int] != p@[k as int]);
            return false;
        }
        k = k + 1;
    }
    assert(v@.subrange(i as int, i + p@.len()) =~= p@);
    true
}

/// Whether `p` occurs in the first `n` bytes of `v`.
pub fn bytes_prefix_contains(v: &[u8], n: usize, p: &[u8]) -> (b: bool)
    requires
        n <= v@.len(),
    ensures
        b == contains_seq(v@.take(n as int), p@),
{
    let ghost w = v@.take(n as int);
    if p.len() > n {
        assert forall|i: int| !occurs_at(w, p@, i) by {}
        return false;
    }
    let last = n - p.len();
    let mut i: usize = 0;
    while i < last
        invariant
            p@.len() <= n <= v@.len(),
            w == v@.take(n as int),
            last == n - p@.len(),
            i <= last,
            forall|j: int| 0 <= j < i ==> !occurs_at(w, p@, j),
        decreases last - i,
    {
        let m = bytes_match_at(v, p, i);
        assert(w.subrange(i as int, i + p@.len()) =~= v@.subrange(i as int, i + p@.len()));
        if m {
            assert(occurs_at(w, p@, i as int));
            return true;
        }
        i = i + 1;
    }
    let m = bytes_match_at(v, p, last);
    assert(w.subrange(last as int, last + p@.len()) =~= v@.subrange(last as int, last + p@.len()));
    if m {
        assert(occurs_at(w, p@, last as int));
        return true;
    }
    assert forall|j: int| !occurs_at(w, p@, j) by {}
    false
}

/// Whether the first `n` bytes of `v` end with `p`.
pub fn bytes_prefix_ends_with(v: &[u8], n: usize, p: &[u8]) -> (b: bool)
    requires
        n <= v@.len(),
    ensures
        b == ends_with(v@.take(n as int), p@),
{
    if p.len() > n {
        return false;
    }
    let r = bytes_match_at(v, p, n - p.len());
    assert(v@.take(n as int).skip(n - p@.len()) =~= v@.subrange(n - p@.len(), n as int));
    r
}

/// The number of bytes of the UTF-8 encoding of `s`.
pub open spec fn utf8_len(s: Seq<char>) -> nat {
    vstd::utf8::encode_utf8(s).len()
}

/// Dropping characters from the front never lengthens the encoding.
pub proof fn lemma_utf8_len_skip(s: Seq<char>, k: int)
    requires
        0 <= k <= s.len(),
    ensures
        utf8_len(s.skip(k)) <= utf8_len(s),
    decreases k,
{
    if k > 0 {
        assert(s.skip(k) =~= s.drop_first().skip(k - 1));
        lemma_utf8_len_skip(s.drop_first(), k - 1);
    } else {
        assert(s.skip(0) =~= s);
    }
}

/// The pieces of `s` between occurrences of `sep` (what `str::split` with
/// a character pattern yields: one more piece than there are separators).
pub open spec fn split_on(s: Seq<char>, sep: char) -> Seq<Seq<char>>
    decreases s.len(),
{
    if s.len() == 0 {
        seq![Seq::empty()]
    } else {
        let init = split_on(s.drop_last(), sep);
        if s.last() == sep {
            init.push(Seq::empty())
        } else {
            init.update(init.len() - 1, init.last().push(s.last()))
        }
    }
}

/// `split_on` always gives at least one piece.
pub proof fn lemma_split_on_nonempty(s: Seq<char>, sep: char)
    ensures
        split_on(s, sep).len() >= 1,
    decreases s.len(),
{
    if s.len() > 0 {
        lemma_split_on_nonempty(s.drop_last(), sep);
    }
}

/// The pieces of `v` between occurrences of `sep`.
pub fn split_chars(v: &[char], sep: char) -> (r: Vec<Vec<char>>)
    ensures
        r@.len() == split_on(v@, sep).len(),
        forall|i: int| 0 <= i < r@.len() ==> #[trigger] r@[i]@ == split_on(v@, sep)[i],
{
    let mut done: Vec<Vec<char>> = Vec::new();
    let mut cur: Vec<char> = Vec::new();
    let mut i: usize = 0;
    while i < v.len()
        invariant
            i <= v@.len(),
            done@.len() + 1 == split_on(v@.take(i as int), sep).len(),
            forall|j: int| 0 <= j < done@.len() ==> #[trigger] done@[j]@ == split_on(v@.take(i as int), sep)[j],
            cur@ == split_on(v@.take(i as int), sep).last(),
        decreases v@.len() - i,
    {
        proof {
            lemma_split_on_nonempty(v@.take(i as int), sep);
            assert(v@.take(i + 1).drop_last() =~= v@.take(i as int));
        }
        let c = v[i];
        if c == sep {
            done.push(cur);
            cur = Vec::new();
        } else {
            cur.push(c);
        }
        i = i + 1;
    }
    done.push(cur);
    assert(v@.take(v@.len() as int) =~= v@);
    done
}

/// ASCII lower case of `c` (other characters unchanged).
pub open spec fn ascii_lower(c: char) -> char {
    if 'A' <= c <= 'Z' {
        ((c as u32) + 32) as char
    } else {
        c
    }
}

/// `c.to_ascii_lowercase()`.
pub fn to_ascii_lower(c: char) -> (r: char)
    ensures
        r == ascii_lower(c),
{
    if c >= 'A' && c <= 'Z' {
        let b: u8 = (c as u32 + 32) as u8;
        b as char
    } else {
        c
    }
}

/// Whether `a` and `b` are equal when ASCII letters are compared without
/// regard to case.
pub open spec fn eq_ignore_ascii_case(a: Seq<char>, b: Seq<char>) -> bool {
    a.len() == b.len() && forall|i: int| 0 <= i < a.len() ==> ascii_lower(#[trigger] a[i]) == ascii_lower(b[i])
}

/// Whether `a` and `b` are equal ignoring ASCII case.
pub fn chars_eq_ignore_ascii_case(a: &[char], b: &[char]) -> (r: bool)
    ensures
        r == eq_ignore_ascii_case(a@, b@),
{
    if a.len() != b.len() {
        return false;
    }
    let mut i: usize = 0;
    while i < a.len()
        invariant
            i <= a@.len() == b@.len(),
            forall|j: int| 0 <= j < i ==> ascii_lower(#[trigger] a@[j]) == ascii_lower(b@[j]),
        decreases a@.len() - i,
    {
        if to_ascii_lower(a[i]) != to_ascii_lower(b[i]) {
            return false;
        }
        i = i + 1;
    }
    true
}

/// ASCII upper case of `c` (other characters unchanged).
pub open spec fn ascii_upper(c: char) -> char {
    if 'a' <= c <= 'z' {
        ((c as u32) - 32) as char
    } else {
        c
    }
}

/// `c.to_ascii_uppercase()`.
pub fn to_ascii_upper(c: char) -> (r: char)
    ensures
        r == ascii_upper(c),
{
    if c >= 'a' && c <= 'z' {
        let b: u8 = (c as u32 - 32) as u8;
        b as char
    } else {
        c
    }
}

/// Appends the characters of `t` to `s`.
pub fn append_str(s: &mut String, t: &str)
    ensures
        final(s)@ == old(s)@ + t@,
{
    let v = chars_of(t);
    let mut i: usize = 0;
    while i < v.len()
        invariant
            i <= v@.len(),
            v@ == t@,
            s@ == old(s)@ + t@.take(i as int),
        decreases v@.len() - i,
    {
        assert(t@.take(i + 1) =~= t@.take(i as int).push(v@[i as int]));
        push_char(s, v[i]);
        i = i + 1;
    }
    assert(t@.take(v@.len() as int) =~= t@);
}

/// The views of a list of strings.
pub open spec fn string_views(v: Seq<String>) -> Seq<Seq<char>> {
    v.map_values(|s: String| s@)
}

/// The words of `s`: its maximal runs of characters that are not white
/// space, in order (what `str::split_whitespace` yields).
pub open spec fn ws_words(s: Seq<char>) -> Seq<Seq<char>>
    decreases s.len(),
{
    if s.len() == 0 {
        Seq::empty()
    } else {
        let w = ws_words(s.drop_last());
        let c = s.last();
        if is_ws(c) {
            w
        } else if s.len() >= 2 && !is_ws(s[s.len() - 2]) {
            w.update(w.len() - 1, w.last().push(c))
        } else {
            w.push(seq![c])
        }
    }
}

/// A text that starts with a character that is not white space has a word.
pub proof fn lemma_ws_words_first(s: Seq<char>, k: int)
    requires
        0 < k <= s.len(),
        !is_ws(s[0]),
    ensures
        ws_words(s.take(k)).len() > 0,
    decreases k,
{
    if k == 1 {
        assert(s.take(1).drop_last() =~= Seq::<char>::empty());
    } else {
        lemma_ws_words_first(s, k - 1);
        assert(s.take(k).drop_last() =~= s.take(k - 1));
    }
}

/// A trimmed text starts with a character that is not white space.
pub proof fn lemma_trim_first(s: Seq<char>)
    ensures
        trim(s).len() > 0 ==> !is_ws(trim(s)[0]),
{
    let p = |c: char| is_ws(c);
    lemma_leading_count_bound(s, p);
    let t = trim_start(s);
    let n = leading_count(s, p);
    if trim(s).len() > 0 {
        lemma_trailing_count_le(t, p);
        assert(t.len() > 0);
        assert(t[0] == s[n as int]);
        assert(!p(s[n as int]));
        assert(trim(s)[0] == t[0]);
    }
}

/// The words of `v`, as `str::split_whitespace` yields them.
pub fn split_whitespace_chars(v: &[char]) -> (r: Vec<Vec<char>>)
    ensures
        r@.len() == ws_words(v@).len(),
        forall|i: int| 0 <= i < r@.len() ==> #[trigger] r@[i]@ == ws_words(v@)[i],
{
    let mut words: Vec<Vec<char>> = Vec::new();
    let mut i: usize = 0;
    while i < v.len()
        invariant
            i <= v@.len(),
            words@.len() == ws_words(v@.take(i as int)).len(),
            forall|j: int| 0 <= j < words@.len() ==> #[trigger] words@[j]@ == ws_words(v@.take(i as int))[j],
            i > 0 && !is_ws(v@[i - 1]) ==> words@.len() > 0,
        decreases v@.len() - i,
    {
        let c = v[i];
        proof {
            assert(v@.take(i + 1).drop_last() =~= v@.take(i as int));
            assert(v@.take(i + 1).last() == c);
            if i >= 1 {
                assert(v@.take(i + 1)[i - 1] == v@[i - 1]);
            }
        }
        if is_whitespace(c) {
        } else if i >= 1 && !is_whitespace(v[i - 1]) {
            let mut last = words.pop().unwrap();
            last.push(c);
            words.push(last);
        } else {
            let mut w: Vec<char> = Vec::new();
            w.push(c);
            assert(w@ =~= seq![c]);
            words.push(w);
        }
        proof {
            let t = v@.take(i + 1);
            assert(words@.len() == ws_words(t).len());
            assert forall|j: int| 0 <= j < words@.len() implies #[trigger] words@[j]@ == ws_words(t)[j] by {}
        }
        i = i + 1;
    }
    assert(v@.take(v@.len() as int) =~= v@);
    words
}

/// `parts` joined with `sep` between them.
pub open spec fn join_with(parts: Seq<Seq<char>>, sep: Seq<char>) -> Seq<char>
    decreases parts.len(),
{
    if parts.len() == 0 {
        Seq::empty()
    } else if parts.len() == 1 {
        parts[0]
    } else {
        join_with(parts.drop_last(), sep) + sep + parts.last()
    }
}

/// `parts` joined with `sep` between them.
pub fn join_chars(parts: &Vec<Vec<char>>, from: usize, sep: &str) -> (s: String)
    requires
        from <= parts@.len(),
    ensures
        s@ == join_with(parts@.skip(from as int).map_values(|p: Vec<char>| p@), sep@),
{
    let ghost pv = parts@.skip(from as int).map_values(|p: Vec<char>| p@);
    let mut s = String::new();
    let mut i: usize = from;
    while i < parts.len()
        invariant
            from <= i <= parts@.len(),
            pv == parts@.skip(from as int).map_values(|p: Vec<char>| p@),
            s@ == join_with(pv.take(i - from), sep@),
        decreases parts@.len() - i,
    {
        let ghost before = s@;
        if i > from {
            append_str(&mut s, sep);
        }
        let part = string_from_chars(parts[i].as_slice());
        append_str(&mut s, part.as_str());
        proof {
            assert(pv.take(i + 1 - from).drop_last() =~= pv.take(i - from));
            assert(pv[i - from] == parts@[i as int]@);
            if i == from {
                assert(before =~= Seq::<char>::empty());
            }
        }
        i = i + 1;
    }
    assert(pv.take(parts@.len() - from) =~= pv);
    s
}

/// The decimal digits of `n`, most significant first (what `to_string`
/// gives for an unsigned integer).
pub open spec fn decimal(n: nat) -> Seq<char>
    decreases n,
{
    if n < 10 {
        seq![(48 + n) as char]
    } else {
        decimal(n / 10).push((48 + n % 10) as char)
    }
}

/// The decimal digits of `n`.
pub fn u64_to_decimal(n: u64) -> (s: String)
    ensures
        s@ == decimal(n as nat),
    decreases n,
{
    if n < 10 {
        let mut s = String::new();
        let c: u8 = 48 + n as u8;
        push_char(&mut s, c as char);
        assert(s@ =~= decimal(n as nat));
        s
    } else {
        let mut s = u64_to_decimal(n / 10);
        let c: u8 = 48 + (n % 10) as u8;
        push_char(&mut s, c as char);
        s
    }
}


/// `s` with every occurrence of `p` replaced by `r`, scanning from the
/// left and not overlapping (what `str::replace` gives for a non-empty `p`).
pub open spec fn replace_all(s: Seq<char>, p: Seq<char>, r: Seq<char>) -> Seq<char>
    decreases s.len(),
{
    if p.len() == 0 || s.len() == 0 {
        s
    } else if starts_with(s, p) {
        r + replace_all(s.skip(p.len() as int), p, r)
    } else {
        seq![s[0]] + replace_all(s.drop_first(), p, r)
    }
}

/// `s` with every occurrence of `p` replaced by `r`.
pub fn replace_chars(s: &[char], p: &[char], r: &[char]) -> (out: Vec<char>)
    requires
        p@.len() > 0,
    ensures
        out@ == replace_all(s@, p@, r@),
{
    let mut out: Vec<char> = Vec::new();
    let mut i: usize = 0;
    assert(s@.skip(0) =~= s@);
    while i < s.len()
        invariant
            i <= s@.len(),
            p@.len() > 0,
            out@ + replace_all(s@.skip(i as int), p@, r@) == replace_all(s@, p@, r@),
        decreases s@.len() - i,
    {
        let ghost rest = s@.skip(i as int);
        if matches_at(s, p, i) {
            assert(rest.take(p@.len() as int) =~= s@.subrange(i as int, i + p@.len()));
            assert(rest.skip(p@.len() as int) =~= s@.skip(i + p@.len()));
            let ghost before = out@;
            let mut k: usize = 0;
            while k < r.len()
                invariant
                    k <= r@.len(),
                    out@ == before + r@.take(k as int),
                decreases r@.len() - k,
            {
                assert(r@.take(k + 1) =~= r@.take(k as int).push(r@[k as int]));
                out.push(r[k]);
                k = k + 1;
            }
            assert(r@.take(r@.len() as int) =~= r@);
            assert(before + (r@ + replace_all(s@.skip(i + p@.len()), p@, r@)) =~= out@ + replace_all(
                s@.skip(i + p@.len()),
                p@,
                r@,
            ));
            i = i + p.len();
        } else {
            assert(!starts_with(rest, p@)) by {
                if starts_with(rest, p@) {
                    assert(rest.take(p@.len() as int) =~= s@.subrange(i as int, i + p@.len()));
                }
            }
            assert(rest.drop_first() =~= s@.skip(i + 1));
            assert(rest[0] == s@[i as int]);
            let ghost before = out@;
            out.push(s[i]);
            assert(before + (seq![s@[i as int]] + replace_all(s@.skip(i + 1), p@, r@)) =~= out@
                + replace_all(s@.skip(i + 1), p@, r@));
            i = i + 1;
        }
    }
    assert(s@.skip(i as int) =~= Seq::<char>::empty());
    assert(out@ + Seq::<char>::empty() =~= out@);
    out
}

/// The upper case of a text, as `str::to_uppercase` gives it.
pub uninterp spec fn uppercase(s: Seq<char>) -> Seq<char>;

/// Calls `str::to_uppercase`. Claimed: the result is a function of the
/// text (`uppercase`), and an ASCII text is raised character by character
/// (a-z to A-Z, every other character kept, as Unicode's case tables map
/// ASCII); what the function does beyond ASCII (where one character may
/// become several) is not stated.
#[verifier::external_body]
pub(crate) fn to_uppercase(s: &str) -> (r: String)
    ensures
        r@ == uppercase(s@),
        (forall|i: int| 0 <= i < s@.len() ==> (#[trigger] s@[i]) < '\u{80}') ==> r@ == s@.map_values(
            |c: char| ascii_upper(c),
        ),
{
    s.to_uppercase()
}

/// Filtering by a test that every item passes keeps them all.
pub proof fn lemma_filter_keeps_all<A>(s: Seq<A>, p: spec_fn(A) -> bool)
    requires
        forall|i: int| 0 <= i < s.len() ==> p(#[trigger] s[i]),
    ensures
        s.filter(p) == s,
    decreases s.len(),
{
    reveal(Seq::filter);
    if s.len() > 0 {
        assert forall|i: int| 0 <= i < s.drop_last().len() implies p(#[trigger] s.drop_last()[i]) by {
            assert(s.drop_last()[i] == s[i]);
        }
        lemma_filter_keeps_all(s.drop_last(), p);
        assert(p(s[s.len() - 1]));
        assert(s.drop_last().push(s.last()) =~= s);
    }
}

/// The empty sequence occurs in every sequence.
pub proof fn lemma_contains_empty<A>(s: Seq<A>, q: Seq<A>)
    requires
        q.len() == 0,
    ensures
        contains_seq(s, q),
{
    assert(s.subrange(0, 0) =~= q);
    assert(occurs_at(s, q, 0));
}

} // verus!
