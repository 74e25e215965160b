//! Stable sorting of items by a text key.

use crate::text::{
    lex_le, lex_le_transitive, lex_less, lex_less_asymmetric, lex_less_irreflexive, lex_less_total,
    lex_less_transitive, str_eq, str_less,
};
use vstd::multiset::Multiset;
use vstd::prelude::*;

verus! {

/// An item that is ordered by a text key.
pub trait Keyed {
    /// The key the item is ordered by.
    spec fn key(&self) -> Seq<char>;
}

/// An item that can hand out its key at run time.
pub trait KeyText: Keyed {
    /// The key as text.
    fn key_str(&self) -> (k: &str)
        ensures
            k@ == self.key(),
    ;
}

impl Keyed for Seq<char> {
    open spec fn key(&self) -> Seq<char> {
        *self
    }
}

impl Keyed for String {
    open spec fn key(&self) -> Seq<char> {
        self@
    }
}

impl KeyText for String {
    fn key_str(&self) -> (k: &str) {
        self.as_str()
    }
}

/// The characters of each string of `v`.
pub open spec fn texts(v: Seq<String>) -> Seq<Seq<char>> {
    v.map_values(|s: String| s@)
}

/// The keys of `s` never decrease.
pub open spec fn sorted_by_key<T: Keyed>(s: Seq<T>) -> bool {
    forall|i: int, j: int|
        #![trigger s[i], s[j]]
        0 <= i < j < s.len() ==> lex_le(s[i].key(), s[j].key())
}

/// The number of leading items of `s` whose key comes before the key of `x`.
/// In a sorted `s` this is the position of the first item that does not come
/// before `x`.
pub open spec fn insert_point<T: Keyed>(s: Seq<T>, x: T) -> int
    decreases s.len(),
{
    if s.len() > 0 && lex_less(s[0].key(), x.key()) {
        1 + insert_point(s.drop_first(), x)
    } else {
        0
    }
}

/// `s` with `x` put in at its insert point: in front of the items with an
/// equal key.
pub open spec fn insert_by_key<T: Keyed>(s: Seq<T>, x: T) -> Seq<T> {
    s.insert(insert_point(s, x), x)
}

/// `s` sorted by key; items with equal keys keep their order.
pub open spec fn stable_sort<T: Keyed>(s: Seq<T>) -> Seq<T>
    decreases s.len(),
{
    if s.len() == 0 {
        s
    } else {
        insert_by_key(stable_sort(s.drop_first()), s[0])
    }
}

/// The insert point is the one position that has only smaller keys before it
/// and no smaller key at it.
pub proof fn insert_point_is_unique<T: Keyed>(s: Seq<T>, x: T, p: int)
    requires
        0 <= p <= s.len(),
        forall|k: int| 0 <= k < p ==> lex_less(#[trigger] s[k].key(), x.key()),
        p < s.len() ==> !lex_less(s[p].key(), x.key()),
    ensures
        insert_point(s, x) == p,
    decreases s.len(),
{
    if p > 0 {
        assert(lex_less(s[0].key(), x.key()));
        let t = s.drop_first();
        assert forall|k: int| 0 <= k < p - 1 implies lex_less(#[trigger] t[k].key(), x.key()) by {
            assert(t[k] == s[k + 1]);
        }
        insert_point_is_unique(t, x, p - 1);
    }
}

/// What holds at the insert point.
pub proof fn insert_point_bounds<T: Keyed>(s: Seq<T>, x: T)
    ensures
        0 <= insert_point(s, x) <= s.len(),
        forall|k: int| 0 <= k < insert_point(s, x) ==> lex_less(#[trigger] s[k].key(), x.key()),
        insert_point(s, x) < s.len() ==> !lex_less(s[insert_point(s, x)].key(), x.key()),
    decreases s.len(),
{
    if s.len() > 0 && lex_less(s[0].key(), x.key()) {
        let t = s.drop_first();
        insert_point_bounds(t, x);
        let p = insert_point(s, x);
        assert forall|k: int| 0 <= k < p implies lex_less(#[trigger] s[k].key(), x.key()) by {
            if k > 0 {
                assert(s[k] == t[k - 1]);
            }
        }
        if p < s.len() {
            assert(s[p] == t[p - 1]);
        }
    }
}

/// Inserting by key keeps a sorted sequence sorted and adds exactly `x`.
pub proof fn insert_by_key_keeps_sorted<T: Keyed>(s: Seq<T>, x: T)
    requires
        sorted_by_key(s),
    ensures
        sorted_by_key(insert_by_key(s, x)),
        insert_by_key(s, x).to_multiset() == s.to_multiset().insert(x),
        insert_by_key(s, x).len() == s.len() + 1,
{
    insert_point_bounds(s, x);
    let p = insert_point(s, x);
    let r = insert_by_key(s, x);
    assert forall|i: int, j: int| 0 <= i < j < r.len() implies lex_le(
        #[trigger] r[i].key(),
        #[trigger] r[j].key(),
    ) by {
        if j < p {
            assert(r[i] == s[i] && r[j] == s[j]);
        } else if j == p {
            assert(r[i] == s[i]);
            lex_less_asymmetric(s[i].key(), x.key());
        } else if i < p {
            assert(r[i] == s[i] && r[j] == s[j - 1]);
        } else if i == p {
            assert(r[j] == s[j - 1]);
            if p < j - 1 {
                assert(lex_le(s[p].key(), s[j - 1].key()));
            } else {
                lex_less_irreflexive(s[p].key());
            }
            lex_le_transitive(x.key(), s[p].key(), s[j - 1].key());
        } else {
            assert(r[i] == s[i - 1] && r[j] == s[j - 1]);
        }
    }
    assert(r.to_multiset() =~= s.to_multiset().insert(x)) by {
        assert(r.remove(p) =~= s);
        assert(r[p] == x);
        assert(r.contains(x));
        r.to_multiset_ensures();
        vstd::seq_lib::to_multiset_remove(r, p);
    }
}

/// A stable sort yields a sorted permutation of its input.
pub proof fn stable_sort_sorts<T: Keyed>(s: Seq<T>)
    ensures
        sorted_by_key(stable_sort(s)),
        stable_sort(s).to_multiset() == s.to_multiset(),
        stable_sort(s).len() == s.len(),
    decreases s.len(),
{
    if s.len() > 0 {
        let t = s.drop_first();
        stable_sort_sorts(t);
        insert_by_key_keeps_sorted(stable_sort(t), s[0]);
        assert(s =~= seq![s[0]] + t);
        vstd::seq_lib::lemma_multiset_commutative(seq![s[0]], t);
        assert(seq![s[0]].to_multiset() =~= Multiset::empty().insert(s[0])) by {
            vstd::seq_lib::to_multiset_build(Seq::<T>::empty(), s[0]);
            assert(Seq::<T>::empty().push(s[0]) =~= seq![s[0]]);
            assert(Seq::<T>::empty().to_multiset() =~= Multiset::empty()) by {
                Seq::<T>::empty().to_multiset_ensures();
            }
        }
    }
}

/// A stable sort holds the items of its input and no others.
pub proof fn stable_sort_keeps_members<T: Keyed>(s: Seq<T>, x: T)
    ensures
        stable_sort(s).contains(x) <==> s.contains(x),
{
    stable_sort_sorts(s);
    stable_sort(s).to_multiset_ensures();
    s.to_multiset_ensures();
    assert(stable_sort(s).to_multiset().count(x) == s.to_multiset().count(x));
}

/// Puts `x` into the sorted vector `v`, in front of the items with an equal
/// key.
pub fn insert_sorted<T: KeyText>(v: &mut Vec<T>, x: T)
    ensures
        final(v)@ == insert_by_key(old(v)@, x),
{
    let mut p: usize = 0;
    while p < v.len() && str_less(v[p].key_str(), x.key_str())
        invariant
            p <= v.len(),
            forall|k: int| 0 <= k < p ==> lex_less(#[trigger] v@[k].key(), x.key()),
        decreases v.len() - p,
    {
        p = p + 1;
    }
    proof {
        insert_point_is_unique(v@, x, p as int);
    }
    v.insert(p, x);
}

/// Sorts `v` by key; items with equal keys keep their order.
pub fn sort_by_key<T: KeyText>(v: Vec<T>) -> (sorted: Vec<T>)
    ensures
        sorted@ == stable_sort(v@),
        sorted_by_key(sorted@),
        sorted@.to_multiset() == v@.to_multiset(),
{
    let mut rest: Vec<T> = v;
    let mut sorted: Vec<T> = Vec::new();
    while rest.len() > 0
        invariant
            rest.len() <= v.len(),
            rest@ == v@.take(rest.len() as int),
            sorted@ == stable_sort(v@.skip(rest.len() as int)),
        decreases rest.len(),
    {
        let ghost n = rest.len() as int;
        let x: T = rest.pop().unwrap();
        proof {
            assert(x == v@[n - 1]);
            assert(v@.skip(n - 1).drop_first() =~= v@.skip(n));
            assert(rest@ =~= v@.take(n - 1));
        }
        insert_sorted(&mut sorted, x);
    }
    proof {
        assert(v@.skip(0) =~= v@);
        stable_sort_sorts(v@);
    }
    sorted
}

/// Sorting and then mapping gives what mapping and then sorting gives, for a
/// mapping that keeps every key.
pub proof fn stable_sort_commutes<A: Keyed, B: Keyed>(s: Seq<A>, f: spec_fn(A) -> B)
    requires
        forall|a: A| (#[trigger] f(a)).key() == a.key(),
    ensures
        stable_sort(s).map_values(f) == stable_sort(s.map_values(f)),
    decreases s.len(),
{
    if s.len() == 0 {
        assert(stable_sort(s).map_values(f) =~= stable_sort(s.map_values(f)));
    } else {
        let t = s.drop_first();
        stable_sort_commutes(t, f);
        assert(s.map_values(f).drop_first() =~= t.map_values(f));
        let sorted = stable_sort(t);
        insert_point_commutes(sorted, s[0], f);
        let p = insert_point(sorted, s[0]);
        insert_point_bounds(sorted, s[0]);
        assert(sorted.insert(p, s[0]).map_values(f) =~= sorted.map_values(f).insert(p, f(s[0])));
    }
}

/// A mapping that keeps every key keeps every insert point.
pub proof fn insert_point_commutes<A: Keyed, B: Keyed>(s: Seq<A>, x: A, f: spec_fn(A) -> B)
    requires
        forall|a: A| (#[trigger] f(a)).key() == a.key(),
    ensures
        insert_point(s.map_values(f), f(x)) == insert_point(s, x),
    decreases s.len(),
{
    if s.len() > 0 {
        assert(s.map_values(f).drop_first() =~= s.drop_first().map_values(f));
        insert_point_commutes(s.drop_first(), x, f);
    }
}

/// The keys of `s` strictly decrease.
pub open spec fn strictly_descending<T: Keyed>(s: Seq<T>) -> bool {
    forall|i: int, j: int|
        #![trigger s[i], s[j]]
        0 <= i < j < s.len() ==> lex_less(s[j].key(), s[i].key())
}

/// The items of `s` from the last to the first, one item for each key: of
/// neighbours with equal keys the later one stays.
pub open spec fn newest_first<T: Keyed>(s: Seq<T>) -> Seq<T>
    decreases s.len(),
{
    if s.len() == 0 {
        s
    } else {
        let newer = newest_first(s.drop_first());
        if newer.len() > 0 && newer.last().key() == s[0].key() {
            newer
        } else {
            newer.push(s[0])
        }
    }
}

/// Read newest first, a sequence ends with the key it began with.
pub proof fn newest_first_ends_with_first<T: Keyed>(s: Seq<T>)
    requires
        s.len() > 0,
    ensures
        newest_first(s).len() > 0,
        newest_first(s).last().key() == s[0].key(),
{
}

/// Read newest first, a sequence holds only items of its own.
pub proof fn newest_first_holds_members<T: Keyed>(s: Seq<T>)
    ensures
        forall|i: int|
            0 <= i < newest_first(s).len() ==> s.contains(#[trigger] newest_first(s)[i]),
    decreases s.len(),
{
    if s.len() > 0 {
        let t = s.drop_first();
        let newer = newest_first(t);
        let r = newest_first(s);
        newest_first_holds_members(t);
        assert forall|i: int| 0 <= i < r.len() implies s.contains(#[trigger] r[i]) by {
            if i < newer.len() {
                assert(t.contains(newer[i]));
                let k = choose|k: int| 0 <= k < t.len() && t[k] == newer[i];
                assert(s[k + 1] == newer[i]);
            } else {
                assert(s[0] == r[i]);
            }
        }
    }
}

/// Read newest first, a sequence still holds each of its keys.
pub proof fn newest_first_holds_keys<T: Keyed>(s: Seq<T>, k: int)
    requires
        0 <= k < s.len(),
    ensures
        exists|i: int| 0 <= i < newest_first(s).len() && (#[trigger] newest_first(s)[i]).key() == s[k].key(),
    decreases s.len(),
{
    let r = newest_first(s);
    if k == 0 {
        newest_first_ends_with_first(s);
        assert(r[r.len() - 1].key() == s[0].key());
    } else {
        let t = s.drop_first();
        let newer = newest_first(t);
        newest_first_holds_keys(t, k - 1);
        let i = choose|i: int| 0 <= i < newer.len() && (#[trigger] newer[i]).key() == t[k - 1].key();
        assert(r[i] == newer[i]);
    }
}

/// Read newest first, a sorted sequence strictly descends.
pub proof fn newest_first_descends<T: Keyed>(s: Seq<T>)
    requires
        sorted_by_key(s),
    ensures
        strictly_descending(newest_first(s)),
    decreases s.len(),
{
    if s.len() > 0 {
        let t = s.drop_first();
        let newer = newest_first(t);
        let r = newest_first(s);
        assert(sorted_by_key(t)) by {
            assert forall|i: int, j: int| 0 <= i < j < t.len() implies lex_le(
                #[trigger] t[i].key(),
                #[trigger] t[j].key(),
            ) by {
                assert(t[i] == s[i + 1] && t[j] == s[j + 1]);
            }
        }
        newest_first_descends(t);
        if !(newer.len() > 0 && newer.last().key() == s[0].key()) {
            if newer.len() > 0 {
                let m = newer.last();
                assert(lex_less(s[0].key(), m.key())) by {
                    newest_first_holds_members(t);
                    assert(t.contains(newer[newer.len() - 1]));
                    let k = choose|k: int| 0 <= k < t.len() && t[k] == m;
                    assert(s[k + 1] == m);
                    assert(lex_le(s[0].key(), s[k + 1].key()));
                    lex_less_total(s[0].key(), m.key());
                }
                assert forall|i: int, j: int| 0 <= i < j < r.len() implies lex_less(
                    #[trigger] r[j].key(),
                    #[trigger] r[i].key(),
                ) by {
                    if j < newer.len() {
                        assert(r[i] == newer[i] && r[j] == newer[j]);
                    } else {
                        assert(r[j] == s[0] && r[i] == newer[i]);
                        if i < newer.len() - 1 {
                            assert(lex_less(newer[newer.len() - 1].key(), newer[i].key()));
                            lex_less_transitive(s[0].key(), m.key(), newer[i].key());
                        }
                    }
                }
            }
        }
    }
}

/// The items of the sorted vector `v`, newest first and one for each key.
pub fn into_newest_first<T: KeyText>(v: Vec<T>) -> (out: Vec<T>)
    ensures
        out@ == newest_first(v@),
{
    let mut rest: Vec<T> = v;
    let mut out: Vec<T> = Vec::new();
    while rest.len() > 0
        invariant
            rest.len() <= v.len(),
            rest@ == v@.take(rest.len() as int),
            out@ == newest_first(v@.skip(rest.len() as int)),
        decreases rest.len(),
    {
        let ghost n = rest.len() as int;
        let x: T = rest.pop().unwrap();
        proof {
            assert(x == v@[n - 1]);
            assert(v@.skip(n - 1).drop_first() =~= v@.skip(n));
            assert(rest@ =~= v@.take(n - 1));
        }
        let same: bool = out.len() > 0 && str_eq(out[out.len() - 1].key_str(), x.key_str());
        if !same {
            out.push(x);
        }
    }
    proof {
        assert(v@.skip(0) =~= v@);
    }
    out
}

/// Reading newest first and then mapping gives what mapping and then reading
/// newest first gives, for a mapping that keeps every key.
pub proof fn newest_first_commutes<A: Keyed, B: Keyed>(s: Seq<A>, f: spec_fn(A) -> B)
    requires
        forall|a: A| (#[trigger] f(a)).key() == a.key(),
    ensures
        newest_first(s).map_values(f) == newest_first(s.map_values(f)),
    decreases s.len(),
{
    if s.len() == 0 {
        assert(newest_first(s).map_values(f) =~= newest_first(s.map_values(f)));
    } else {
        let t = s.drop_first();
        newest_first_commutes(t, f);
        assert(s.map_values(f).drop_first() =~= t.map_values(f));
        let newer = newest_first(t);
        if newer.len() > 0 {
            assert(newer.map_values(f).last() == f(newer.last()));
        }
        assert(newer.push(s[0]).map_values(f) =~= newer.map_values(f).push(f(s[0])));
    }
}

/// A sequence whose keys strictly descend holds no key twice.
pub proof fn strictly_descending_keys_differ<T: Keyed>(s: Seq<T>, i: int, j: int)
    requires
        strictly_descending(s),
        0 <= i < s.len(),
        0 <= j < s.len(),
        i != j,
    ensures
        s[i].key() != s[j].key(),
{
    if i < j {
        assert(lex_less(s[j].key(), s[i].key()));
        lex_less_irreflexive(s[i].key());
    } else {
        assert(lex_less(s[i].key(), s[j].key()));
        lex_less_irreflexive(s[i].key());
    }
}

/// The keys of `s` strictly ascend.
pub open spec fn strictly_ascending<T: Keyed>(s: Seq<T>) -> bool {
    forall|i: int, j: int|
        #![trigger s[i], s[j]]
        0 <= i < j < s.len() ==> lex_less(s[i].key(), s[j].key())
}

/// `s` sorted by key, one item for each key.
pub open spec fn sorted_set<T: Keyed>(s: Seq<T>) -> Seq<T> {
    newest_first(stable_sort(s)).reverse()
}

/// Read backwards, a strictly descending sequence strictly ascends.
pub proof fn reverse_of_descending_ascends<T: Keyed>(s: Seq<T>)
    requires
        strictly_descending(s),
    ensures
        strictly_ascending(s.reverse()),
{
    let r = s.reverse();
    assert forall|i: int, j: int| 0 <= i < j < r.len() implies lex_less(
        #[trigger] r[i].key(),
        #[trigger] r[j].key(),
    ) by {
        assert(r[i] == s[s.len() - 1 - i] && r[j] == s[s.len() - 1 - j]);
    }
}

/// A sorted set strictly ascends, holds only items of its input, and is
/// empty only for an empty input.
pub proof fn sorted_set_ascends<T: Keyed>(s: Seq<T>)
    ensures
        strictly_ascending(sorted_set(s)),
        forall|i: int| 0 <= i < sorted_set(s).len() ==> s.contains(#[trigger] sorted_set(s)[i]),
        s.len() > 0 ==> sorted_set(s).len() > 0,
{
    let sorted = stable_sort(s);
    let newest = newest_first(sorted);
    let set = sorted_set(s);
    stable_sort_sorts(s);
    newest_first_descends(sorted);
    reverse_of_descending_ascends(newest);
    newest_first_holds_members(sorted);
    assert forall|i: int| 0 <= i < set.len() implies s.contains(#[trigger] set[i]) by {
        assert(set[i] == newest[newest.len() - 1 - i]);
        assert(sorted.contains(newest[newest.len() - 1 - i]));
        stable_sort_keeps_members(s, set[i]);
    }
    if s.len() > 0 {
        newest_first_ends_with_first(sorted);
    }
}

/// A sorted set holds every key of its input.
pub proof fn sorted_set_holds_keys<T: Keyed>(s: Seq<T>, k: int)
    requires
        0 <= k < s.len(),
    ensures
        exists|i: int|
            0 <= i < sorted_set(s).len() && (#[trigger] sorted_set(s)[i]).key() == s[k].key(),
{
    let sorted = stable_sort(s);
    let newest = newest_first(sorted);
    let set = sorted_set(s);
    assert(s.contains(s[k]));
    stable_sort_keeps_members(s, s[k]);
    let n = choose|n: int| 0 <= n < sorted.len() && sorted[n] == s[k];
    newest_first_holds_keys(sorted, n);
    let m = choose|m: int| 0 <= m < newest.len() && (#[trigger] newest[m]).key() == sorted[n].key();
    assert(set[newest.len() - 1 - m] == newest[m]);
}

/// Building a sorted set and then mapping gives what mapping and then
/// building a sorted set gives, for a mapping that keeps every key.
pub proof fn sorted_set_commutes<A: Keyed, B: Keyed>(s: Seq<A>, f: spec_fn(A) -> B)
    requires
        forall|a: A| (#[trigger] f(a)).key() == a.key(),
    ensures
        sorted_set(s).map_values(f) == sorted_set(s.map_values(f)),
{
    stable_sort_commutes(s, f);
    newest_first_commutes(stable_sort(s), f);
    let newest = newest_first(stable_sort(s));
    assert(newest.reverse().map_values(f) =~= newest.map_values(f).reverse());
}

/// The items of `v` from the last to the first.
pub fn reversed<T>(v: Vec<T>) -> (out: Vec<T>)
    ensures
        out@ == v@.reverse(),
{
    let mut rest: Vec<T> = v;
    let mut out: Vec<T> = Vec::new();
    while rest.len() > 0
        invariant
            rest.len() <= v.len(),
            rest@ == v@.take(rest.len() as int),
            out.len() + rest.len() == v.len(),
            forall|i: int| 0 <= i < out.len() ==> out@[i] == v@[v.len() - 1 - i],
        decreases rest.len(),
    {
        let x: T = rest.pop().unwrap();
        out.push(x);
    }
    assert(out@ =~= v@.reverse());
    out
}

/// Sorts `v` by key and keeps one item for each key.
pub fn into_sorted_set<T: KeyText>(v: Vec<T>) -> (out: Vec<T>)
    ensures
        out@ == sorted_set(v@),
        strictly_ascending(out@),
{
    let out: Vec<T> = reversed(into_newest_first(sort_by_key(v)));
    proof {
        sorted_set_ascends(v@);
    }
    out
}

} // verus!
