//! The order of strings (by character code, as `str`'s `Ord` compares their
//! UTF-8 bytes) and sorted lists of distinct strings.

use vstd::prelude::*;
use crate::text::{chars_of, string_views};

verus! {

/// Whether `a` comes strictly before `b` in lexicographic order of
/// character codes.
pub open spec fn seq_lt(a: Seq<char>, b: Seq<char>) -> bool
    decreases a.len(),
{
    if a.len() == 0 {
        b.len() > 0
    } else if b.len() == 0 {
        false
    } else if a[0] != b[0] {
        a[0] < b[0]
    } else {
        seq_lt(a.drop_first(), b.drop_first())
    }
}

/// No string comes before itself.
pub proof fn lemma_lt_irreflexive(a: Seq<char>)
    ensures
        !seq_lt(a, a),
    decreases a.len(),
{
    if a.len() > 0 {
        lemma_lt_irreflexive(a.drop_first());
    }
}

/// Of two different strings, one comes before the other.
pub proof fn lemma_lt_total(a: Seq<char>, b: Seq<char>)
    ensures
        a == b || seq_lt(a, b) || seq_lt(b, a),
    decreases a.len(),
{
    if a.len() > 0 && b.len() > 0 && a[0] == b[0] {
        lemma_lt_total(a.drop_first(), b.drop_first());
        if a.drop_first() == b.drop_first() {
            assert(a =~= seq![a[0]] + a.drop_first());
            assert(b =~= seq![b[0]] + b.drop_first());
        }
    } else if a.len() == 0 && b.len() == 0 {
        assert(a =~= b);
    }
}

/// The order is transitive.
pub proof fn lemma_lt_transitive(a: Seq<char>, b: Seq<char>, c: Seq<char>)
    requires
        seq_lt(a, b),
        seq_lt(b, c),
    ensures
        seq_lt(a, c),
    decreases a.len(),
{
    if a.len() > 0 && b.len() > 0 && c.len() > 0 && a[0] == b[0] && b[0] == c[0] {
        lemma_lt_transitive(a.drop_first(), b.drop_first(), c.drop_first());
    }
}

/// The order is asymmetric.
pub proof fn lemma_lt_asymmetric(a: Seq<char>, b: Seq<char>)
    requires
        seq_lt(a, b),
    ensures
        !seq_lt(b, a),
{
    if seq_lt(b, a) {
        lemma_lt_transitive(a, b, a);
        lemma_lt_irreflexive(a);
    }
}

/// Whether `a` comes strictly before `b`.
pub fn chars_less(a: &[char], b: &[char]) -> (r: bool)
    ensures
        r == seq_lt(a@, b@),
{
    let mut i: usize = 0;
    assert(a@.skip(0) =~= a@);
    assert(b@.skip(0) =~= b@);
    while i < a.len() && i < b.len() && a[i] == b[i]
        invariant
            i <= a@.len(),
            i <= b@.len(),
            seq_lt(a@, b@) == seq_lt(a@.skip(i as int), b@.skip(i as int)),
        decreases a@.len() - i,
    {
        assert(a@.skip(i as int).drop_first() =~= a@.skip(i + 1));
        assert(b@.skip(i as int).drop_first() =~= b@.skip(i + 1));
        i = i + 1;
    }
    if i == a.len() {
        i < b.len()
    } else if i == b.len() {
        false
    } else {
        a[i] < b[i]
    }
}

/// Whether `a` comes strictly before `b`.
pub fn str_less(a: &str, b: &str) -> (r: bool)
    ensures
        r == seq_lt(a@, b@),
{
    let x = chars_of(a);
    let y = chars_of(b);
    chars_less(x.as_slice(), y.as_slice())
}

/// Whether `s` is in strictly increasing order.
pub open spec fn strictly_sorted(s: Seq<Seq<char>>) -> bool {
    forall|i: int, j: int| 0 <= i < j < s.len() ==> seq_lt(#[trigger] s[i], #[trigger] s[j])
}

/// Puts `x` into the strictly increasing `v`, unless it is there already.
pub fn insert_sorted_unique(v: &mut Vec<String>, x: &String)
    requires
        strictly_sorted(string_views(old(v)@)),
    ensures
        strictly_sorted(string_views(final(v)@)),
        forall|t: Seq<char>|
            string_views(final(v)@).contains(t) <==> (string_views(old(v)@).contains(t) || t == x@),
{
    let ghost sv = string_views(v@);
    let mut p: usize = 0;
    while p < v.len() && str_less(v[p].as_str(), x.as_str())
        invariant
            p <= v@.len(),
            sv == string_views(v@),
            strictly_sorted(sv),
            forall|i: int| 0 <= i < p ==> seq_lt(#[trigger] sv[i], x@),
        decreases v@.len() - p,
    {
        p = p + 1;
    }
    if p < v.len() && crate::text::str_eq(v[p].as_str(), x.as_str()) {
        assert(sv[p as int] == x@);
        assert(sv.contains(x@));
        return;
    }
    proof {
        if p < sv.len() {
            lemma_lt_total(sv[p as int], x@);
            assert(seq_lt(x@, sv[p as int]));
            assert forall|j: int| p <= j < sv.len() implies seq_lt(x@, #[trigger] sv[j]) by {
                if j > p {
                    lemma_lt_transitive(x@, sv[p as int], sv[j]);
                }
            }
        }
    }
    v.insert(p, x.clone());
    let ghost nv = string_views(v@);
    assert(nv =~= sv.insert(p as int, x@));
    assert forall|i: int, j: int| 0 <= i < j < nv.len() implies seq_lt(#[trigger] nv[i], #[trigger] nv[j]) by {
        if i < p && j == p {
        } else if i < p && j > p {
            assert(nv[j] == sv[j - 1]);
        } else if i == p {
            assert(nv[j] == sv[j - 1]);
        } else if i > p {
            assert(nv[i] == sv[i - 1]);
            assert(nv[j] == sv[j - 1]);
        }
    }
    assert forall|t: Seq<char>| nv.contains(t) <==> (sv.contains(t) || t == x@) by {
        if nv.contains(t) {
            let k = choose|k: int| 0 <= k < nv.len() && nv[k] == t;
            if k < p {
                assert(sv[k] == t);
            } else if k > p {
                assert(sv[k - 1] == t);
            }
        }
        if sv.contains(t) {
            let k = choose|k: int| 0 <= k < sv.len() && sv[k] == t;
            if k < p {
                assert(nv[k] == t);
            } else {
                assert(nv[k + 1] == t);
            }
        }
        if t == x@ {
            assert(nv[p as int] == t);
        }
    }
}

} // verus!
