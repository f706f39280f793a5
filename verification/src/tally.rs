//! Counting how often each text occurs in a list, and picking the most
//! frequent ones.

use vstd::prelude::*;
use crate::text::{str_eq, string_views};

verus! {

/// How many times `k` occurs in `keys`.
pub open spec fn count_of(keys: Seq<Seq<char>>, k: Seq<char>) -> nat {
    keys.filter(is_text(k)).len()
}

/// The test for being the text `k`.
pub open spec fn is_text(k: Seq<char>) -> spec_fn(Seq<char>) -> bool {
    |x: Seq<char>| x == k
}

/// The texts of a list of (text, number) pairs.
pub open spec fn pair_keys(v: Seq<(String, usize)>) -> Seq<Seq<char>> {
    v.map_values(|p: (String, usize)| p.0@)
}

/// No text occurs twice among the pairs.
pub open spec fn distinct_keys(v: Seq<(String, usize)>) -> bool {
    forall|i: int, j: int| 0 <= i < j < v.len() ==> (#[trigger] v[i]).0@ != (#[trigger] v[j]).0@
}

/// Each pair holds a text of `keys` with its number of occurrences, no text
/// twice, and every text of `keys` is among the pairs.
pub open spec fn is_tally(t: Seq<(String, usize)>, keys: Seq<Seq<char>>) -> bool {
    &&& distinct_keys(t)
    &&& forall|i: int| 0 <= i < t.len() ==> (#[trigger] t[i]).1 == count_of(keys, t[i].0@) && keys.contains(t[i].0@)
    &&& forall|k: Seq<char>| #[trigger] keys.contains(k) ==> pair_keys(t).contains(k)
}

pub(crate) proof fn lemma_count_push(keys: Seq<Seq<char>>, x: Seq<char>, k: Seq<char>)
    ensures
        count_of(keys.push(x), k) == count_of(keys, k) + if x == k {
            1int
        } else {
            0int
        },
{
    reveal(Seq::filter);
    assert(keys.push(x).drop_last() =~= keys);
}

/// Each distinct text of `keys` with the number of times it occurs, in the
/// order of first occurrence.
pub fn tally(keys: &Vec<String>) -> (t: Vec<(String, usize)>)
    ensures
        is_tally(t@, string_views(keys@)),
{
    let ghost kv = string_views(keys@);
    let mut t: Vec<(String, usize)> = Vec::new();
    let mut i: usize = 0;
    while i < keys.len()
        invariant
            i <= keys@.len(),
            kv == string_views(keys@),
            is_tally(t@, kv.take(i as int)),
            forall|j: int| 0 <= j < t@.len() ==> (#[trigger] t@[j]).1 <= i,
        decreases keys@.len() - i,
    {
        let ghost pre = kv.take(i as int);
        assert(kv.take(i + 1) =~= pre.push(keys@[i as int]@));
        let mut found: usize = t.len();
        let mut j: usize = 0;
        while j < t.len()
            invariant
                j <= t@.len(),
                i < keys@.len(),
                found <= t@.len(),
                found == t@.len() ==> forall|m: int| 0 <= m < j ==> (#[trigger] t@[m]).0@ != keys@[i as int]@,
                found < t@.len() ==> t@[found as int].0@ == keys@[i as int]@,
            decreases t@.len() - j,
        {
            if found == t.len() && str_eq(t[j].0.as_str(), keys[i].as_str()) {
                found = j;
            }
            j = j + 1;
        }
        let ghost before = t@;
        let ghost x = keys@[i as int]@;
        proof {
            assert forall|k: Seq<char>| true implies count_of(pre.push(x), k) == count_of(pre, k) + if x == k {
                1int
            } else {
                0int
            } by {
                lemma_count_push(pre, x, k);
            }
        }
        if found < t.len() {
            let c = t[found].1;
            let key = t[found].0.clone();
            t.set(found, (key, c + 1));
            proof {
                assert(before[found as int].0@ == x);
                assert forall|m: int| 0 <= m < t@.len() implies (#[trigger] t@[m]).1 == count_of(
                    pre.push(x),
                    t@[m].0@,
                ) && pre.push(x).contains(t@[m].0@) by {
                    assert(pre.contains(before[m].0@));
                    let w = choose|w: int| 0 <= w < pre.len() && pre[w] == before[m].0@;
                    assert(pre.push(x)[w] == pre[w]);
                }
                assert forall|k: Seq<char>| #[trigger] pre.push(x).contains(k) implies pair_keys(t@).contains(k) by {
                    let w = choose|w: int| 0 <= w < pre.push(x).len() && pre.push(x)[w] == k;
                    if w < pre.len() {
                        assert(pre.contains(k));
                        assert(pair_keys(before).contains(k));
                        let v = choose|v: int| 0 <= v < pair_keys(before).len() && pair_keys(before)[v] == k;
                        assert(pair_keys(t@)[v] == k);
                    } else {
                        assert(pair_keys(t@)[found as int] == k);
                    }
                }
            }
        } else {
            t.push((keys[i].clone(), 1));
            proof {
                assert(!pre.contains(x)) by {
                    if pre.contains(x) {
                        assert(pair_keys(before).contains(x));
                        let v = choose|v: int| 0 <= v < pair_keys(before).len() && pair_keys(before)[v] == x;
                        assert(before[v].0@ == x);
                    }
                }
                assert(count_of(pre, x) == 0) by {
                    if count_of(pre, x) > 0 {
                        let f = pre.filter(is_text(x));
                        assert(f[0] == f[0]);
                        assert(f.contains(f[0]));
                        pre.lemma_filter_contains_rev(is_text(x), f[0]);
                        pre.filter_lemma(is_text(x));
                    }
                }
                assert(pre.push(x)[i as int] == x);
                assert forall|m: int| 0 <= m < t@.len() implies (#[trigger] t@[m]).1 == count_of(
                    pre.push(x),
                    t@[m].0@,
                ) && pre.push(x).contains(t@[m].0@) by {
                    if m < before.len() {
                        assert(pre.contains(before[m].0@));
                        let w = choose|w: int| 0 <= w < pre.len() && pre[w] == before[m].0@;
                        assert(pre.push(x)[w] == pre[w]);
                    }
                }
                assert forall|k: Seq<char>| #[trigger] pre.push(x).contains(k) implies pair_keys(t@).contains(k) by {
                    let w = choose|w: int| 0 <= w < pre.push(x).len() && pre.push(x)[w] == k;
                    if w < pre.len() {
                        assert(pre.contains(k));
                        assert(pair_keys(before).contains(k));
                        let v = choose|v: int| 0 <= v < pair_keys(before).len() && pair_keys(before)[v] == k;
                        assert(pair_keys(t@)[v] == k);
                    } else {
                        assert(pair_keys(t@)[before.len() as int] == k);
                    }
                }
            }
        }
        i = i + 1;
    }
    assert(kv.take(keys@.len() as int) =~= kv);
    t
}

/// The pairs of `t` ordered by number, largest first.
pub open spec fn sorted_by_count(r: Seq<(String, usize)>) -> bool {
    forall|a: int, b: int| 0 <= a < b < r.len() ==> (#[trigger] r[a]).1 >= (#[trigger] r[b]).1
}

/// `r` is a choice of the `limit` pairs of `t` with the largest numbers
/// (all of them if there are fewer), largest first; which of several pairs
/// with equal numbers come first is left open.
pub open spec fn is_top(r: Seq<(String, usize)>, t: Seq<(String, usize)>, limit: nat) -> bool {
    &&& r.len() == vstd::math::min(limit as int, t.len() as int)
    &&& forall|i: int| 0 <= i < r.len() ==> t.contains(#[trigger] r[i])
    &&& distinct_keys(r)
    &&& sorted_by_count(r)
    &&& forall|j: int|
        0 <= j < t.len() && !pair_keys(r).contains((#[trigger] t[j]).0@) ==> r.len() == limit && (r.len() > 0
            ==> t[j].1 <= r.last().1)
}

/// The `limit` pairs of `t` with the largest numbers, largest first.
pub fn top_by_count(t: &Vec<(String, usize)>, limit: usize) -> (r: Vec<(String, usize)>)
    requires
        distinct_keys(t@),
    ensures
        is_top(r@, t@, limit as nat),
{
    let n = t.len();
    let mut remaining: Vec<usize> = Vec::new();
    let mut k: usize = 0;
    while k < n
        invariant
            k <= n == t@.len(),
            remaining@.len() == k,
            forall|p: int| 0 <= p < k ==> remaining@[p] == p,
        decreases n - k,
    {
        remaining.push(k);
        k = k + 1;
    }
    let mut r: Vec<(String, usize)> = Vec::new();
    let ghost mut picks: Seq<int> = Seq::empty();
    assert forall|j: int| 0 <= j < n implies remaining@.contains(j as usize) || picks.contains(j) by {
        assert(remaining@[j] == j);
    }
    while r.len() < limit && remaining.len() > 0
        invariant
            n == t@.len(),
            distinct_keys(t@),
            r@.len() == picks.len(),
            r@.len() + remaining@.len() == n,
            r@.len() <= limit,
            forall|i: int| 0 <= i < picks.len() ==> 0 <= #[trigger] picks[i] < n && r@[i] == t@[picks[i]],
            forall|p: int| 0 <= p < remaining@.len() ==> (#[trigger] remaining@[p]) < n,
            forall|p: int, q: int| 0 <= p < q < remaining@.len() ==> (#[trigger] remaining@[p]) != (
            #[trigger] remaining@[q]),
            forall|p: int, i: int|
                0 <= p < remaining@.len() && 0 <= i < picks.len() ==> (#[trigger] remaining@[p]) != (
                #[trigger] picks[i]),
            forall|a: int, b: int| 0 <= a < b < picks.len() ==> (#[trigger] picks[a]) != (#[trigger] picks[b]),
            forall|j: int| 0 <= j < n ==> remaining@.contains(j as usize) || picks.contains(j),
            forall|p: int, i: int|
                0 <= p < remaining@.len() && 0 <= i < r@.len() ==> t@[#[trigger] remaining@[p] as int].1
                    <= (#[trigger] r@[i]).1,
            sorted_by_count(r@),
        decreases remaining@.len(),
    {
        let mut best: usize = 0;
        let mut p: usize = 1;
        while p < remaining.len()
            invariant
                1 <= p <= remaining@.len(),
                best < p,
                forall|q: int| 0 <= q < remaining@.len() ==> (#[trigger] remaining@[q]) < n,
                n == t@.len(),
                forall|q: int| 0 <= q < p ==> t@[#[trigger] remaining@[q] as int].1 <= t@[remaining@[best as int] as int].1,
            decreases remaining@.len() - p,
        {
            if t[remaining[p]].1 > t[remaining[best]].1 {
                best = p;
            }
            p = p + 1;
        }
        let c = remaining[best];
        let ghost old_rem = remaining@;
        let ghost old_r = r@;
        let ghost old_picks = picks;
        remaining.remove(best);
        r.push((t[c].0.clone(), t[c].1));
        proof {
            picks = picks.push(c as int);
            assert(r@[r@.len() - 1] == t@[c as int]);
            assert forall|q: int| 0 <= q < remaining@.len() implies remaining@[q] == (if q < best {
                old_rem[q]
            } else {
                old_rem[q + 1]
            }) by {}
            assert forall|j: int| 0 <= j < n implies remaining@.contains(j as usize) || picks.contains(j) by {
                if old_picks.contains(j) {
                    let i = choose|i: int| 0 <= i < old_picks.len() && old_picks[i] == j;
                    assert(picks[i] == j);
                } else {
                    assert(old_rem.contains(j as usize));
                    let q = choose|q: int| 0 <= q < old_rem.len() && old_rem[q] == j;
                    if j == c {
                        assert(picks[old_picks.len() as int] == j);
                    } else if q < best {
                        assert(remaining@[q] == j);
                    } else {
                        assert(q != best);
                        assert(remaining@[q - 1] == j);
                    }
                }
            }
            assert forall|p2: int, i: int|
                0 <= p2 < remaining@.len() && 0 <= i < r@.len() implies t@[#[trigger] remaining@[p2] as int].1
                <= (#[trigger] r@[i]).1 by {
                let q = if p2 < best {
                    p2
                } else {
                    p2 + 1
                };
                assert(remaining@[p2] == old_rem[q]);
                if i < old_r.len() {
                    assert(r@[i] == old_r[i]);
                }
            }
            assert forall|a: int, b: int| 0 <= a < b < r@.len() implies (#[trigger] r@[a]).1 >= (
            #[trigger] r@[b]).1 by {
                if b == old_r.len() {
                    assert(old_rem[best as int] == c);
                    assert(r@[a] == old_r[a]);
                } else {
                    assert(r@[a] == old_r[a] && r@[b] == old_r[b]);
                }
            }
            assert forall|a: int, b: int| 0 <= a < b < picks.len() implies (#[trigger] picks[a]) != (
            #[trigger] picks[b]) by {
                if b == old_picks.len() {
                    assert(old_rem[best as int] == c);
                }
            }
            assert forall|p2: int, i: int|
                0 <= p2 < remaining@.len() && 0 <= i < picks.len() implies (#[trigger] remaining@[p2]) != (
                #[trigger] picks[i]) by {
                let q = if p2 < best {
                    p2
                } else {
                    p2 + 1
                };
                assert(remaining@[p2] == old_rem[q]);
                if i == old_picks.len() {
                    assert(q != best);
                }
            }
        }
    }
    proof {
        assert forall|i: int| 0 <= i < r@.len() implies t@.contains(#[trigger] r@[i]) by {
            assert(t@[picks[i]] == r@[i]);
        }
        assert forall|a: int, b: int| 0 <= a < b < r@.len() implies (#[trigger] r@[a]).0@ != (
        #[trigger] r@[b]).0@ by {
            assert(picks[a] != picks[b]);
            if picks[a] < picks[b] {
                assert(t@[picks[a]].0@ != t@[picks[b]].0@);
            } else {
                assert(t@[picks[b]].0@ != t@[picks[a]].0@);
            }
        }
        assert forall|j: int|
            0 <= j < t@.len() && !pair_keys(r@).contains((#[trigger] t@[j]).0@) implies r@.len() == limit && (
            r@.len() > 0 ==> t@[j].1 <= r@.last().1) by {
            if picks.contains(j) {
                let i = choose|i: int| 0 <= i < picks.len() && picks[i] == j;
                assert(pair_keys(r@)[i] == t@[j].0@);
            } else {
                assert(remaining@.contains(j as usize));
                let q = choose|q: int| 0 <= q < remaining@.len() && remaining@[q] == j;
                assert(r@.len() == limit);
            }
        }
    }
    r
}

/// `r` holds the `limit` most frequent texts of `keys` (all of them if
/// there are fewer), each with its number of occurrences, most frequent
/// first; the order of texts that occur equally often is left open.
pub open spec fn top_counts(r: Seq<(String, usize)>, keys: Seq<Seq<char>>, limit: nat) -> bool {
    &&& r.len() <= limit
    &&& forall|i: int| 0 <= i < r.len() ==> (#[trigger] r[i]).1 == count_of(keys, r[i].0@) && keys.contains(r[i].0@)
    &&& distinct_keys(r)
    &&& sorted_by_count(r)
    &&& forall|k: Seq<char>|
        #[trigger] keys.contains(k) && !pair_keys(r).contains(k) ==> r.len() == limit && (r.len() > 0
            ==> count_of(keys, k) <= r.last().1)
}

/// The `limit` most frequent texts of `keys` with their numbers of
/// occurrences, most frequent first.
pub fn most_frequent(keys: &Vec<String>, limit: usize) -> (r: Vec<(String, usize)>)
    ensures
        top_counts(r@, string_views(keys@), limit as nat),
{
    let t = tally(keys);
    let r = top_by_count(&t, limit);
    proof {
        let kv = string_views(keys@);
        assert forall|i: int| 0 <= i < r@.len() implies (#[trigger] r@[i]).1 == count_of(kv, r@[i].0@)
            && kv.contains(r@[i].0@) by {
            assert(t@.contains(r@[i]));
            let j = choose|j: int| 0 <= j < t@.len() && t@[j] == r@[i];
            assert(t@[j].1 == count_of(kv, t@[j].0@));
        }
        assert forall|k: Seq<char>| #[trigger] kv.contains(k) && !pair_keys(r@).contains(k) implies r@.len()
            == limit && (r@.len() > 0 ==> count_of(kv, k) <= r@.last().1) by {
            assert(pair_keys(t@).contains(k));
            let j = choose|j: int| 0 <= j < pair_keys(t@).len() && pair_keys(t@)[j] == k;
            assert(t@[j].0@ == k);
        }
    }
    r
}

/// The number of distinct texts of `keys`.
pub fn count_distinct(keys: &Vec<String>) -> (n: usize)
    ensures
        n == string_views(keys@).to_set().len(),
{
    let t = tally(keys);
    proof {
        let kv = string_views(keys@);
        let pk = pair_keys(t@);
        assert(pk.no_duplicates()) by {
            assert forall|i: int, j: int| 0 <= i < pk.len() && 0 <= j < pk.len() && i != j implies pk[i]
                != pk[j] by {
                if i < j {
                    assert(t@[i].0@ != t@[j].0@);
                } else {
                    assert(t@[j].0@ != t@[i].0@);
                }
            }
        }
        pk.unique_seq_to_set();
        assert forall|k: Seq<char>| pk.to_set().contains(k) <==> kv.to_set().contains(k) by {
            if pk.contains(k) {
                let i = choose|i: int| 0 <= i < pk.len() && pk[i] == k;
                assert(kv.contains(t@[i].0@));
            }
            if kv.contains(k) {
                assert(pk.contains(k));
            }
        }
        assert(pk.to_set() =~= kv.to_set());
    }
    t.len()
}


/// `top_counts` speaks only of the texts and numbers of the pairs.
pub proof fn lemma_top_counts_same_views(a: Seq<(String, usize)>, b: Seq<(String, usize)>, keys: Seq<Seq<char>>, limit: nat)
    requires
        top_counts(a, keys, limit),
        a.len() == b.len(),
        forall|q: int| 0 <= q < a.len() ==> (#[trigger] b[q]).0@ == a[q].0@ && b[q].1 == a[q].1,
    ensures
        top_counts(b, keys, limit),
{
    assert(pair_keys(a) =~= pair_keys(b));
    assert forall|i: int, j: int| 0 <= i < j < b.len() implies (#[trigger] b[i]).0@ != (#[trigger] b[j]).0@ by {
        assert(a[i].0@ != a[j].0@);
    }
    assert forall|i: int, j: int| 0 <= i < j < b.len() implies (#[trigger] b[i]).1 >= (#[trigger] b[j]).1 by {
        assert(a[i].1 >= a[j].1);
    }
    if b.len() > 0 {
        assert(b.last().1 == a.last().1);
    }
}

/// The texts of a choice of most frequent pairs are the most frequent
/// texts, in the same order.
pub proof fn lemma_top_counts_names(r: Seq<(String, usize)>, keys: Seq<Seq<char>>, limit: nat)
    requires
        top_counts(r, keys, limit),
    ensures
        crate::ai_history::top_names(pair_keys(r), keys, limit),
{
    let names = pair_keys(r);
    assert forall|i: int| 0 <= i < names.len() implies keys.contains(#[trigger] names[i]) by {
        assert(names[i] == r[i].0@);
    }
    assert forall|i: int, j: int| 0 <= i < j < names.len() implies #[trigger] names[i] != #[trigger] names[j] by {
        assert(r[i].0@ != r[j].0@);
    }
    assert forall|i: int, j: int| 0 <= i < j < names.len() implies count_of(keys, #[trigger] names[i]) >= count_of(
        keys,
        #[trigger] names[j],
    ) by {
        assert(r[i].1 >= r[j].1);
        assert(names[i] == r[i].0@ && names[j] == r[j].0@);
    }
    if names.len() > 0 {
        assert(names.last() == r.last().0@);
    }
}

} // verus!
