//! Sequence facts used throughout: the first element that satisfies a
//! predicate, incremental filtering, and a stable sort by an integer key.
use vstd::prelude::*;

verus! {

/// The index of the first element of `s` satisfying `p`, or -1 when none does.
pub open spec fn first_index<T>(s: Seq<T>, p: spec_fn(T) -> bool) -> int
    decreases s.len(),
{
    if s.len() == 0 {
        -1
    } else if p(s[0]) {
        0
    } else {
        let r = first_index(s.drop_first(), p);
        if r < 0 {
            -1
        } else {
            r + 1
        }
    }
}

/// The first element of `s` satisfying `p`, if any.
pub open spec fn first_match<T>(s: Seq<T>, p: spec_fn(T) -> bool) -> Option<T> {
    let i = first_index(s, p);
    if i < 0 {
        None
    } else {
        Some(s[i])
    }
}

/// Whether some element of `s` satisfies `p`.
pub open spec fn any_match<T>(s: Seq<T>, p: spec_fn(T) -> bool) -> bool {
    exists|i: int| 0 <= i < s.len() && p(#[trigger] s[i])
}

/// `first_index` is the least index satisfying `p`, and -1 exactly when none does.
pub proof fn lemma_first_index<T>(s: Seq<T>, p: spec_fn(T) -> bool)
    ensures
        -1 <= first_index(s, p) < s.len(),
        first_index(s, p) >= 0 ==> p(s[first_index(s, p)]),
        forall|j: int| 0 <= j < first_index(s, p) ==> !p(#[trigger] s[j]),
        first_index(s, p) < 0 ==> forall|j: int| 0 <= j < s.len() ==> !p(#[trigger] s[j]),
        first_index(s, p) < 0 <==> !any_match(s, p),
    decreases s.len(),
{
    if s.len() > 0 {
        lemma_first_index(s.drop_first(), p);
        assert forall|j: int| 0 < j < s.len() implies s[j] == s.drop_first()[j - 1] by {}
        if !p(s[0]) && first_index(s.drop_first(), p) < 0 {
            assert forall|j: int| 0 <= j < s.len() implies !p(#[trigger] s[j]) by {
                if j > 0 {
                    assert(s[j] == s.drop_first()[j - 1]);
                }
            }
        }
    }
    if first_index(s, p) < 0 {
        assert(!any_match(s, p));
    } else {
        assert(p(s[first_index(s, p)]));
    }
}

/// A scan that found its first hit at `i` agrees with `first_index`.
pub proof fn lemma_first_index_at<T>(s: Seq<T>, p: spec_fn(T) -> bool, i: int)
    requires
        0 <= i <= s.len(),
        forall|j: int| 0 <= j < i ==> !p(#[trigger] s[j]),
        i < s.len() ==> p(s[i]),
    ensures
        first_index(s, p) == (if i < s.len() {
            i
        } else {
            -1
        }),
{
    lemma_first_index(s, p);
    let f = first_index(s, p);
    if f >= 0 && f < i {
        assert(!p(s[f]));
    }
    if i < s.len() && (f < 0 || f > i) {
        assert(p(s[i]));
    }
}

/// Filtering one more element of a prefix.
pub proof fn lemma_filter_take_step<T>(s: Seq<T>, p: spec_fn(T) -> bool, i: int)
    requires
        0 <= i < s.len(),
    ensures
        s.take(i + 1).filter(p) == (if p(s[i]) {
            s.take(i).filter(p).push(s[i])
        } else {
            s.take(i).filter(p)
        }),
{
    reveal(Seq::filter);
    assert(s.take(i + 1).drop_last() =~= s.take(i));
}

/// Filtering by a predicate every element satisfies keeps the sequence.
pub proof fn lemma_filter_keeps_all<T>(s: Seq<T>, p: spec_fn(T) -> bool)
    requires
        forall|j: int| 0 <= j < s.len() ==> p(#[trigger] s[j]),
    ensures
        s.filter(p) == s,
    decreases s.len(),
{
    reveal(Seq::filter);
    if s.len() > 0 {
        assert forall|j: int| 0 <= j < s.drop_last().len() implies p(#[trigger] s.drop_last()[j]) by {
            assert(s.drop_last()[j] == s[j]);
        }
        lemma_filter_keeps_all(s.drop_last(), p);
        assert(s.drop_last().push(s.last()) =~= s);
    }
}

/// Filtering out an element that fails the predicate shortens the sequence.
pub proof fn lemma_filter_drops<T>(s: Seq<T>, p: spec_fn(T) -> bool, k: int)
    requires
        0 <= k < s.len(),
        !p(s[k]),
    ensures
        s.filter(p).len() < s.len(),
{
    lemma_filter_take_step(s, p, k);
    assert(s =~= s.take(k + 1) + s.skip(k + 1));
    Seq::filter_distributes_over_add(s.take(k + 1), s.skip(k + 1), p);
    broadcast use vstd::seq_lib::group_filter_ensures;
    assert(s.take(k).filter(p).len() <= s.take(k).len());
    assert(s.skip(k + 1).filter(p).len() <= s.skip(k + 1).len());
}

/// If the elements of `s` kept by `p` before position `i` all fail `q`, and
/// `s[i]` is kept and satisfies `q`, then `s[i]` is the first kept element satisfying `q`.
pub proof fn lemma_first_hit_in_filter<T>(s: Seq<T>, p: spec_fn(T) -> bool, q: spec_fn(T) -> bool, i: int)
    requires
        0 <= i < s.len(),
        p(s[i]),
        q(s[i]),
        forall|j: int| 0 <= j < s.take(i).filter(p).len() ==> !q(#[trigger] s.take(i).filter(p)[j]),
    ensures
        first_match(s.filter(p), q) == Some(s[i]),
{
    let f = s.take(i).filter(p);
    lemma_filter_take_step(s, p, i);
    assert(s =~= s.take(i + 1) + s.skip(i + 1));
    Seq::filter_distributes_over_add(s.take(i + 1), s.skip(i + 1), p);
    let g = s.skip(i + 1).filter(p);
    let whole = f.push(s[i]) + g;
    assert(s.filter(p) == whole);
    assert forall|j: int| 0 <= j < f.len() implies !q(#[trigger] whole[j]) by {
        assert(whole[j] == f[j]);
    }
    assert(whole[f.len() as int] == s[i]);
    lemma_first_index_at(whole, q, f.len() as int);
}

/// When every kept element fails `q`, no kept element is found.
pub proof fn lemma_no_hit_in_filter<T>(s: Seq<T>, p: spec_fn(T) -> bool, q: spec_fn(T) -> bool)
    requires
        forall|j: int| 0 <= j < s.filter(p).len() ==> !q(#[trigger] s.filter(p)[j]),
    ensures
        first_match(s.filter(p), q) is None,
{
    lemma_first_index_at(s.filter(p), q, s.filter(p).len() as int);
}

/// The positions of `s`, as machine indices.
pub open spec fn positions<T>(s: Seq<T>) -> Seq<usize> {
    Seq::new(s.len(), |i: int| i as usize)
}

/// Filtering then mapping one more element of a prefix.
pub proof fn lemma_filter_map_step<T, U>(s: Seq<T>, p: spec_fn(T) -> bool, f: spec_fn(T) -> U, i: int)
    requires
        0 <= i < s.len(),
    ensures
        s.take(i + 1).filter(p).map_values(f) == (if p(s[i]) {
            s.take(i).filter(p).map_values(f).push(f(s[i]))
        } else {
            s.take(i).filter(p).map_values(f)
        }),
{
    lemma_filter_take_step(s, p, i);
    let g = s.take(i).filter(p);
    if p(s[i]) {
        assert(g.push(s[i]).map_values(f) =~= g.map_values(f).push(f(s[i])));
    }
}

/// A key in lexicographic order: first an instant, then a tie-breaking identifier.
pub open spec fn key_le(a: (i64, u128), b: (i64, u128)) -> bool {
    a.0 < b.0 || (a.0 == b.0 && a.1 <= b.1)
}

pub open spec fn key_exceeds<T>(k: (i64, u128)) -> spec_fn(((i64, u128), T)) -> bool {
    |e: ((i64, u128), T)| !key_le(e.0, k)
}

/// Inserts `x` after every element whose key does not exceed its key.
pub open spec fn sorted_insert<T>(s: Seq<((i64, u128), T)>, x: ((i64, u128), T)) -> Seq<
    ((i64, u128), T),
> {
    let i = first_index(s, key_exceeds::<T>(x.0));
    let pos = if i < 0 {
        s.len() as int
    } else {
        i
    };
    s.take(pos).push(x) + s.skip(pos)
}

/// The stable sort of `s` by key: equal keys keep their relative order.
pub open spec fn stable_sort<T>(s: Seq<((i64, u128), T)>) -> Seq<((i64, u128), T)>
    decreases s.len(),
{
    if s.len() == 0 {
        s
    } else {
        sorted_insert(stable_sort(s.drop_last()), s.last())
    }
}

/// The keys of `s` never decrease.
pub open spec fn keys_sorted<T>(s: Seq<((i64, u128), T)>) -> bool {
    forall|a: int, b: int| 0 <= a < b < s.len() ==> key_le(#[trigger] s[a].0, #[trigger] s[b].0)
}

/// Inserting into a sequence sorted by key keeps it sorted.
pub proof fn lemma_sorted_insert_sorted<T>(t: Seq<((i64, u128), T)>, x: ((i64, u128), T))
    requires
        keys_sorted(t),
    ensures
        keys_sorted(sorted_insert(t, x)),
{
    lemma_first_index(t, key_exceeds::<T>(x.0));
    let i = first_index(t, key_exceeds::<T>(x.0));
    let pos = if i < 0 {
        t.len() as int
    } else {
        i
    };
    let r = sorted_insert(t, x);
    assert(r.len() == t.len() + 1);
    assert forall|k: int| 0 <= k < r.len() implies #[trigger] r[k] == (if k < pos {
        t[k]
    } else if k == pos {
        x
    } else {
        t[k - 1]
    }) by {}
    assert forall|a: int, b: int| 0 <= a < b < r.len() implies key_le(#[trigger] r[a].0, #[trigger] r[b].0) by {
        if b < pos {
            assert(key_le(t[a].0, t[b].0));
        } else if b == pos {
            assert(!key_exceeds::<T>(x.0)(t[a]));
        } else if a < pos {
            assert(key_le(t[a].0, t[b - 1].0));
        } else if a == pos {
            assert(key_exceeds::<T>(x.0)(t[pos]));
            if b - 1 > pos {
                assert(key_le(t[pos].0, t[b - 1].0));
            }
        } else {
            assert(key_le(t[a - 1].0, t[b - 1].0));
        }
    }
}

/// The stable sort orders its elements by key.
pub proof fn lemma_stable_sort_sorted<T>(s: Seq<((i64, u128), T)>)
    ensures
        keys_sorted(stable_sort(s)),
    decreases s.len(),
{
    if s.len() > 0 {
        lemma_stable_sort_sorted(s.drop_last());
        lemma_sorted_insert_sorted(stable_sort(s.drop_last()), s.last());
    }
}

/// The payloads of keyed elements.
pub open spec fn payloads<T>(s: Seq<((i64, u128), T)>) -> Seq<T> {
    s.map_values(|e: ((i64, u128), T)| e.1)
}

/// Inserting keeps every element and adds exactly the new one.
pub proof fn lemma_sorted_insert_elems<T>(t: Seq<((i64, u128), T)>, x: ((i64, u128), T))
    ensures
        sorted_insert(t, x).len() == t.len() + 1,
        forall|y: ((i64, u128), T)| #[trigger] sorted_insert(t, x).contains(y) <==> (y == x || t.contains(y)),
{
    lemma_first_index(t, key_exceeds::<T>(x.0));
    let i = first_index(t, key_exceeds::<T>(x.0));
    let pos = if i < 0 {
        t.len() as int
    } else {
        i
    };
    let r = sorted_insert(t, x);
    assert(r == t.take(pos).push(x) + t.skip(pos));
    assert forall|y: ((i64, u128), T)| r.contains(y) implies (y == x || t.contains(y)) by {
        let j = choose|j: int| 0 <= j < r.len() && r[j] == y;
        if j < pos {
            assert(r[j] == t[j]);
        } else if j > pos {
            assert(r[j] == t[j - 1]);
        }
    }
    assert forall|y: ((i64, u128), T)| (y == x || t.contains(y)) implies r.contains(y) by {
        if y == x {
            assert(r[pos] == x);
        } else {
            let j = choose|j: int| 0 <= j < t.len() && t[j] == y;
            if j < pos {
                assert(r[j] == y);
            } else {
                assert(r[j + 1] == y);
            }
        }
    }
}

/// Sorting keeps exactly the elements it was given.
pub proof fn lemma_stable_sort_elems<T>(s: Seq<((i64, u128), T)>)
    ensures
        stable_sort(s).len() == s.len(),
        forall|y: ((i64, u128), T)| stable_sort(s).contains(y) <==> s.contains(y),
    decreases s.len(),
{
    if s.len() > 0 {
        lemma_stable_sort_elems(s.drop_last());
        lemma_sorted_insert_elems(stable_sort(s.drop_last()), s.last());
        assert forall|y: ((i64, u128), T)| s.contains(y) <==> (y == s.last() || s.drop_last().contains(y)) by {
            if s.contains(y) {
                let j = choose|j: int| 0 <= j < s.len() && s[j] == y;
                if j < s.len() - 1 {
                    assert(s.drop_last()[j] == y);
                }
            }
            if s.drop_last().contains(y) {
                let j = choose|j: int| 0 <= j < s.drop_last().len() && s.drop_last()[j] == y;
                assert(s[j] == y);
            }
        }
        assert(stable_sort(s) == sorted_insert(stable_sort(s.drop_last()), s.last()));
        assert forall|y: ((i64, u128), T)| stable_sort(s).contains(y) <==> s.contains(y) by {
            let t = stable_sort(s.drop_last());
            assert(sorted_insert(t, s.last()).contains(y) <==> (y == s.last() || t.contains(y)));
            assert(t.contains(y) <==> s.drop_last().contains(y));
        }
    }
}

/// Drops the keys of keyed elements, keeping their order.
pub fn strip_keys<T>(sorted: Vec<((i64, u128), T)>) -> (out: Vec<T>)
    ensures
        out@ == payloads(sorted@),
{
    let ghost orig = sorted@;
    let mut rest = sorted;
    let mut out: Vec<T> = Vec::new();
    let n = rest.len();
    let mut i: usize = 0;
    while i < n
        invariant
            n == orig.len(),
            i <= n,
            rest@ == orig.skip(i as int),
            out@ == payloads(orig.take(i as int)),
        decreases n - i,
    {
        assert(rest@.len() > 0);
        let x = rest.remove(0);
        assert(x == orig[i as int]);
        assert(rest@ =~= orig.skip(i + 1));
        out.push(x.1);
        assert(out@ =~= payloads(orig.take(i + 1)));
        i = i + 1;
    }
    assert(orig.take(n as int) =~= orig);
    out
}

/// Sorts keyed elements stably by key.
pub fn sort_by_key<T>(items: Vec<((i64, u128), T)>) -> (out: Vec<((i64, u128), T)>)
    ensures
        out@ == stable_sort(items@),
{
    let ghost orig = items@;
    let mut items = items;
    let mut out: Vec<((i64, u128), T)> = Vec::new();
    let n = items.len();
    let mut i: usize = 0;
    assert(orig.take(0) =~= Seq::<((i64, u128), T)>::empty());
    while i < n
        invariant
            n == orig.len(),
            i <= n,
            items@ == orig.skip(i as int),
            out@ == stable_sort(orig.take(i as int)),
        decreases n - i,
    {
        assert(items@.len() > 0);
        let x = items.remove(0);
        assert(x == orig[i as int]);
        assert(items@ =~= orig.skip(i + 1));
        let k = x.0;
        let mut pos: usize = 0;
        while pos < out.len() && (out[pos].0.0 < k.0 || (out[pos].0.0 == k.0 && out[pos].0.1 <= k.1))
            invariant
                pos <= out@.len(),
                forall|j: int| 0 <= j < pos ==> !key_exceeds::<T>(k)(#[trigger] out@[j]),
            decreases out@.len() - pos,
        {
            pos = pos + 1;
        }
        proof {
            lemma_first_index_at(out@, key_exceeds::<T>(k), pos as int);
            assert(orig.take(i + 1).drop_last() =~= orig.take(i as int));
            assert(orig.take(i + 1).last() == x);
        }
        let ghost before = out@;
        out.insert(pos, x);
        assert(out@ =~= before.take(pos as int).push(x) + before.skip(pos as int));
        i = i + 1;
    }
    assert(orig.take(n as int) =~= orig);
    out
}

} // verus!
