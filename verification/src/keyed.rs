//! Sequences of records that hold each key at most once, read as maps, and
//! what follows where such a sequence is kept in ascending key order.

use vstd::prelude::*;

verus! {

/// No key occurs twice in `s`.
pub open spec fn unique_keys<K, V>(s: Seq<V>, key: spec_fn(V) -> K) -> bool {
    forall|i: int, j: int| 0 <= i < j < s.len() ==> key(#[trigger] s[i]) != key(#[trigger] s[j])
}

/// The record at `i` has key `k`.
pub open spec fn key_at<K, V>(s: Seq<V>, key: spec_fn(V) -> K, k: K, i: int) -> bool {
    0 <= i < s.len() && key(s[i]) == k
}

/// Some record of `s` has key `k`.
pub open spec fn has_key<K, V>(s: Seq<V>, key: spec_fn(V) -> K, k: K) -> bool {
    exists|i: int| key_at(s, key, k, i)
}

/// A place at which `s` holds key `k`.
pub open spec fn index_of<K, V>(s: Seq<V>, key: spec_fn(V) -> K, k: K) -> int {
    choose|i: int| key_at(s, key, k, i)
}

/// The map from each key in `s` to its record.
pub open spec fn to_map<K, V>(s: Seq<V>, key: spec_fn(V) -> K) -> Map<K, V> {
    Map::new(|k: K| has_key(s, key, k), |k: K| s[index_of(s, key, k)])
}

/// In a sequence with unique keys, the map sends each record's key to it.
pub proof fn lemma_lookup<K, V>(s: Seq<V>, key: spec_fn(V) -> K, i: int)
    requires
        unique_keys(s, key),
        0 <= i < s.len(),
    ensures
        to_map(s, key).contains_key(key(s[i])),
        to_map(s, key)[key(s[i])] == s[i],
        index_of(s, key, key(s[i])) == i,
{
    let k = key(s[i]);
    assert(key_at(s, key, k, i));
    let j = index_of(s, key, k);
    assert(key_at(s, key, k, j));
    if i < j {
        assert(key(s[i]) != key(s[j]));
    } else if j < i {
        assert(key(s[j]) != key(s[i]));
    }
}

/// Putting a record with a new key anywhere adds it to the map.
pub proof fn lemma_insert_at<K, V>(s: Seq<V>, key: spec_fn(V) -> K, p: int, v: V)
    requires
        unique_keys(s, key),
        0 <= p <= s.len(),
        !has_key(s, key, key(v)),
    ensures
        unique_keys(s.insert(p, v), key),
        to_map(s.insert(p, v), key) == to_map(s, key).insert(key(v), v),
{
    let t = s.insert(p, v);
    assert forall|i: int, j: int| 0 <= i < j < t.len() implies key(#[trigger] t[i]) != key(
        #[trigger] t[j],
    ) by {
        let si = if i < p { i } else { i - 1 };
        let sj = if j < p { j } else { j - 1 };
        if i == p {
            assert(t[j] == s[sj]);
            if key(s[sj]) == key(v) {
                assert(key_at(s, key, key(v), sj));
            }
        } else if j == p {
            assert(t[i] == s[si]);
            if key(s[si]) == key(v) {
                assert(key_at(s, key, key(v), si));
            }
        } else {
            assert(t[i] == s[si]);
            assert(t[j] == s[sj]);
            assert(key(s[si]) != key(s[sj]));
        }
    }
    let m = to_map(s, key).insert(key(v), v);
    assert forall|k: K| #[trigger] to_map(t, key).contains_key(k) == m.contains_key(k) by {
        if has_key(t, key, k) {
            let i = index_of(t, key, k);
            assert(key_at(t, key, k, i));
            if i != p {
                let si = if i < p { i } else { i - 1 };
                assert(key_at(s, key, k, si));
            }
        }
        if k == key(v) {
            assert(key_at(t, key, k, p));
        } else if has_key(s, key, k) {
            let si = index_of(s, key, k);
            assert(key_at(s, key, k, si));
            let i = if si < p { si } else { si + 1 };
            assert(key_at(t, key, k, i));
        }
    }
    assert forall|k: K| #[trigger] to_map(t, key).contains_key(k) implies to_map(t, key)[k]
        == m[k] by {
        let i = index_of(t, key, k);
        assert(key_at(t, key, k, i));
        lemma_lookup(t, key, i);
        if i != p {
            let si = if i < p { i } else { i - 1 };
            assert(t[i] == s[si]);
            lemma_lookup(s, key, si);
        }
    }
    assert(to_map(t, key) =~= m);
}

/// Replacing a record by one of the same key replaces it in the map.
pub proof fn lemma_update_at<K, V>(s: Seq<V>, key: spec_fn(V) -> K, i: int, v: V)
    requires
        unique_keys(s, key),
        0 <= i < s.len(),
        key(s[i]) == key(v),
    ensures
        unique_keys(s.update(i, v), key),
        to_map(s.update(i, v), key) == to_map(s, key).insert(key(v), v),
{
    let t = s.update(i, v);
    assert forall|a: int, b: int| 0 <= a < b < t.len() implies key(#[trigger] t[a]) != key(
        #[trigger] t[b],
    ) by {
        assert(key(s[a]) != key(s[b]));
    }
    let m = to_map(s, key).insert(key(v), v);
    assert forall|k: K| #[trigger] to_map(t, key).contains_key(k) == m.contains_key(k) by {
        if has_key(t, key, k) {
            let j = index_of(t, key, k);
            assert(key_at(t, key, k, j));
            assert(key_at(s, key, k, j));
        }
        if k == key(v) {
            assert(key_at(t, key, k, i));
        } else if has_key(s, key, k) {
            let j = index_of(s, key, k);
            assert(key_at(s, key, k, j));
            assert(key_at(t, key, k, j));
        }
    }
    assert forall|k: K| #[trigger] to_map(t, key).contains_key(k) implies to_map(t, key)[k]
        == m[k] by {
        let j = index_of(t, key, k);
        assert(key_at(t, key, k, j));
        lemma_lookup(t, key, j);
        if j != i {
            lemma_lookup(s, key, j);
        }
    }
    assert(to_map(t, key) =~= m);
}

/// Taking a record out takes its key out of the map.
pub proof fn lemma_remove_at<K, V>(s: Seq<V>, key: spec_fn(V) -> K, i: int)
    requires
        unique_keys(s, key),
        0 <= i < s.len(),
    ensures
        unique_keys(s.remove(i), key),
        to_map(s.remove(i), key) == to_map(s, key).remove(key(s[i])),
{
    let t = s.remove(i);
    assert forall|a: int, b: int| 0 <= a < b < t.len() implies key(#[trigger] t[a]) != key(
        #[trigger] t[b],
    ) by {
        let sa = if a < i { a } else { a + 1 };
        let sb = if b < i { b } else { b + 1 };
        assert(t[a] == s[sa]);
        assert(t[b] == s[sb]);
        assert(key(s[sa]) != key(s[sb]));
    }
    let m = to_map(s, key).remove(key(s[i]));
    assert forall|k: K| #[trigger] to_map(t, key).contains_key(k) == m.contains_key(k) by {
        if has_key(t, key, k) {
            let j = index_of(t, key, k);
            assert(key_at(t, key, k, j));
            let sj = if j < i { j } else { j + 1 };
            assert(t[j] == s[sj]);
            assert(key_at(s, key, k, sj));
            if sj < i {
                assert(key(s[sj]) != key(s[i]));
            } else {
                assert(key(s[i]) != key(s[sj]));
            }
        }
        if k != key(s[i]) && has_key(s, key, k) {
            let sj = index_of(s, key, k);
            assert(key_at(s, key, k, sj));
            let j = if sj < i { sj } else { sj - 1 };
            assert(t[j] == s[sj]);
            assert(key_at(t, key, k, j));
        }
    }
    assert forall|k: K| #[trigger] to_map(t, key).contains_key(k) implies to_map(t, key)[k]
        == m[k] by {
        let j = index_of(t, key, k);
        assert(key_at(t, key, k, j));
        lemma_lookup(t, key, j);
        let sj = if j < i { j } else { j + 1 };
        assert(t[j] == s[sj]);
        lemma_lookup(s, key, sj);
    }
    assert(to_map(t, key) =~= m);
}

/// `lt` is a strict total order.
pub open spec fn strict_total<K>(lt: spec_fn(K, K) -> bool) -> bool {
    &&& forall|a: K| !#[trigger] lt(a, a)
    &&& forall|a: K, b: K, c: K| #[trigger] lt(a, b) && #[trigger] lt(b, c) ==> lt(a, c)
    &&& forall|a: K, b: K| a == b || #[trigger] lt(a, b) || lt(b, a)
}

/// The keys of `s` rise strictly from each record to the next.
pub open spec fn ascending<K, V>(s: Seq<V>, key: spec_fn(V) -> K, lt: spec_fn(K, K) -> bool)
    -> bool {
    forall|i: int, j: int| 0 <= i < j < s.len() ==> lt(key(#[trigger] s[i]), key(#[trigger] s[j]))
}

/// `p` is where key `k` stands in `s`, or where it would have to be put:
/// every key before `p` is smaller, and the key at `p`, if there is one, is
/// not.
pub open spec fn place_of<K, V>(
    s: Seq<V>,
    key: spec_fn(V) -> K,
    lt: spec_fn(K, K) -> bool,
    k: K,
    p: int,
) -> bool {
    &&& 0 <= p <= s.len()
    &&& forall|j: int| 0 <= j < p ==> lt(key(#[trigger] s[j]), k)
    &&& p < s.len() ==> !lt(key(s[p]), k)
}

/// In ascending order no key occurs twice.
pub proof fn lemma_ascending_unique<K, V>(
    s: Seq<V>,
    key: spec_fn(V) -> K,
    lt: spec_fn(K, K) -> bool,
)
    requires
        strict_total(lt),
        ascending(s, key, lt),
    ensures
        unique_keys(s, key),
{
    assert forall|i: int, j: int| 0 <= i < j < s.len() implies key(#[trigger] s[i]) != key(
        #[trigger] s[j],
    ) by {
        assert(lt(key(s[i]), key(s[j])));
    }
}

/// At the place of `k`, either the record has key `k`, or no record has and
/// every record from there on has a greater key.
pub proof fn lemma_place<K, V>(
    s: Seq<V>,
    key: spec_fn(V) -> K,
    lt: spec_fn(K, K) -> bool,
    k: K,
    p: int,
)
    requires
        strict_total(lt),
        ascending(s, key, lt),
        place_of(s, key, lt, k, p),
    ensures
        has_key(s, key, k) <==> p < s.len() && key(s[p]) == k,
        !has_key(s, key, k) ==> forall|j: int| p <= j < s.len() ==> lt(k, key(#[trigger] s[j])),
{
    if p < s.len() && key(s[p]) == k {
        assert(key_at(s, key, k, p));
    } else {
        assert forall|j: int| p <= j < s.len() implies lt(k, key(#[trigger] s[j])) by {
            assert(lt(key(s[p]), k) || key(s[p]) == k || lt(k, key(s[p])));
            if p < j {
                assert(lt(key(s[p]), key(s[j])));
            }
        }
        assert forall|j: int| !key_at(s, key, k, j) by {
            if 0 <= j < s.len() {
                if j < p {
                    assert(lt(key(s[j]), k));
                } else {
                    assert(lt(k, key(s[j])));
                }
            }
        }
    }
}

/// Putting a record with a new key at its place keeps the order and adds the
/// record to the map.
pub proof fn lemma_ascending_insert<K, V>(
    s: Seq<V>,
    key: spec_fn(V) -> K,
    lt: spec_fn(K, K) -> bool,
    p: int,
    v: V,
)
    requires
        strict_total(lt),
        ascending(s, key, lt),
        place_of(s, key, lt, key(v), p),
        !has_key(s, key, key(v)),
    ensures
        ascending(s.insert(p, v), key, lt),
        to_map(s.insert(p, v), key) == to_map(s, key).insert(key(v), v),
{
    lemma_ascending_unique(s, key, lt);
    lemma_place(s, key, lt, key(v), p);
    lemma_insert_at(s, key, p, v);
    let t = s.insert(p, v);
    assert forall|i: int, j: int| 0 <= i < j < t.len() implies lt(
        key(#[trigger] t[i]),
        key(#[trigger] t[j]),
    ) by {
        let si = if i < p { i } else { i - 1 };
        let sj = if j < p { j } else { j - 1 };
        if i == p {
            assert(t[j] == s[sj]);
            assert(lt(key(v), key(s[sj])));
        } else if j == p {
            assert(t[i] == s[si]);
            assert(lt(key(s[si]), key(v)));
        } else {
            assert(t[i] == s[si]);
            assert(t[j] == s[sj]);
            assert(lt(key(s[si]), key(s[sj])));
        }
    }
}

/// Replacing a record by one of the same key keeps the order and replaces
/// the record in the map.
pub proof fn lemma_ascending_update<K, V>(
    s: Seq<V>,
    key: spec_fn(V) -> K,
    lt: spec_fn(K, K) -> bool,
    i: int,
    v: V,
)
    requires
        strict_total(lt),
        ascending(s, key, lt),
        0 <= i < s.len(),
        key(s[i]) == key(v),
    ensures
        ascending(s.update(i, v), key, lt),
        to_map(s.update(i, v), key) == to_map(s, key).insert(key(v), v),
{
    lemma_ascending_unique(s, key, lt);
    lemma_update_at(s, key, i, v);
    let t = s.update(i, v);
    assert forall|a: int, b: int| 0 <= a < b < t.len() implies lt(
        key(#[trigger] t[a]),
        key(#[trigger] t[b]),
    ) by {
        assert(lt(key(s[a]), key(s[b])));
    }
}

/// Taking a record out keeps the order and takes its key out of the map.
pub proof fn lemma_ascending_remove<K, V>(
    s: Seq<V>,
    key: spec_fn(V) -> K,
    lt: spec_fn(K, K) -> bool,
    i: int,
)
    requires
        strict_total(lt),
        ascending(s, key, lt),
        0 <= i < s.len(),
    ensures
        ascending(s.remove(i), key, lt),
        to_map(s.remove(i), key) == to_map(s, key).remove(key(s[i])),
{
    lemma_ascending_unique(s, key, lt);
    lemma_remove_at(s, key, i);
    let t = s.remove(i);
    assert forall|a: int, b: int| 0 <= a < b < t.len() implies lt(
        key(#[trigger] t[a]),
        key(#[trigger] t[b]),
    ) by {
        let sa = if a < i { a } else { a + 1 };
        let sb = if b < i { b } else { b + 1 };
        assert(t[a] == s[sa]);
        assert(t[b] == s[sb]);
        assert(lt(key(s[sa]), key(s[sb])));
    }
}

/// Every key of the map of an ascending sequence is the key of its record.
pub proof fn lemma_filed_under_key<K, V>(s: Seq<V>, key: spec_fn(V) -> K)
    ensures
        forall|k: K| #[trigger] to_map(s, key).contains_key(k) ==> key(to_map(s, key)[k]) == k,
{
    assert forall|k: K| #[trigger] to_map(s, key).contains_key(k) implies key(to_map(s, key)[k])
        == k by {
        let i = index_of(s, key, k);
        assert(key_at(s, key, k, i));
    }
}

/// The first `limit` elements of `s`, or all of it where it has fewer.
pub open spec fn page<A>(s: Seq<A>, limit: nat) -> Seq<A> {
    if s.len() <= limit {
        s
    } else {
        s.take(limit as int)
    }
}

/// `chosen` holds records of `s` from before place `i`, in the order of `s`.
pub open spec fn chosen_before<K, V>(
    chosen: Seq<V>,
    s: Seq<V>,
    key: spec_fn(V) -> K,
    lt: spec_fn(K, K) -> bool,
    i: int,
) -> bool {
    &&& ascending(chosen, key, lt)
    &&& forall|x: int, j: int|
        0 <= x < chosen.len() && i <= j < s.len() ==> lt(
            key(#[trigger] chosen[x]),
            key(#[trigger] s[j]),
        )
}

/// Appending the next record of an ascending sequence to records chosen from
/// before it keeps the choice ascending, and below everything still to come.
pub proof fn lemma_choose_next<K, V>(
    chosen: Seq<V>,
    s: Seq<V>,
    key: spec_fn(V) -> K,
    lt: spec_fn(K, K) -> bool,
    i: int,
)
    requires
        ascending(s, key, lt),
        0 <= i < s.len(),
        chosen_before(chosen, s, key, lt, i),
    ensures
        chosen_before(chosen.push(s[i]), s, key, lt, i + 1),
        chosen_before(chosen, s, key, lt, i + 1),
{
    let t = chosen.push(s[i]);
    assert forall|a: int, b: int| 0 <= a < b < t.len() implies lt(
        key(#[trigger] t[a]),
        key(#[trigger] t[b]),
    ) by {
        if b == chosen.len() {
            assert(lt(key(chosen[a]), key(s[i])));
        } else {
            assert(lt(key(chosen[a]), key(chosen[b])));
        }
    }
    assert forall|x: int, j: int| 0 <= x < t.len() && i + 1 <= j < s.len() implies lt(
        key(#[trigger] t[x]),
        key(#[trigger] s[j]),
    ) by {
        if x == chosen.len() {
            assert(lt(key(s[i]), key(s[j])));
        } else {
            assert(lt(key(chosen[x]), key(s[j])));
        }
    }
}

/// What was chosen from the first `i` records is the page, once the list is
/// exhausted or the page is full.
pub proof fn lemma_page_of_prefix<A>(s: Seq<A>, pred: spec_fn(A) -> bool, i: int, cap: nat)
    requires
        0 <= i <= s.len(),
        s.take(i).filter(pred).len() <= cap,
        i == s.len() || s.take(i).filter(pred).len() == cap,
    ensures
        s.take(i).filter(pred) == page(s.filter(pred), cap),
{
    if i == s.len() {
        assert(s.take(i) =~= s);
    } else {
        s.take(i).lemma_filter_monotone(s, pred);
        let part = s.take(i).filter(pred);
        let all = s.filter(pred);
        assert(part.is_prefix_of(all));
        if all.len() <= cap {
            assert(part =~= all);
        } else {
            assert(part =~= all.take(cap as int));
        }
    }
}

/// Choosing from one more record: the choice grows by the record where the
/// record is wanted, and stays as it is where it is not.
pub proof fn lemma_filter_next<A>(s: Seq<A>, pred: spec_fn(A) -> bool, i: int)
    requires
        0 <= i < s.len(),
    ensures
        s.take(i + 1).filter(pred) == if pred(s[i]) {
            s.take(i).filter(pred).push(s[i])
        } else {
            s.take(i).filter(pred)
        },
{
    assert(s.take(i + 1) =~= s.take(i).push(s[i]));
    s.take(i).lemma_filter_push(s[i], pred);
}

/// What is chosen from `s` is what is in `s` and wanted.
pub proof fn lemma_filter_holds<A>(s: Seq<A>, pred: spec_fn(A) -> bool, a: A)
    ensures
        s.filter(pred).contains(a) <==> s.contains(a) && pred(a),
{
    if s.filter(pred).contains(a) {
        s.lemma_filter_contains_rev(pred, a);
        let i = choose|i: int| 0 <= i < s.filter(pred).len() && s.filter(pred)[i] == a;
        s.lemma_filter_pred(pred, i);
    }
    if s.contains(a) && pred(a) {
        let i = choose|i: int| 0 <= i < s.len() && s[i] == a;
        s.lemma_filter_contains(pred, i);
    }
}

/// Nothing is chosen from no records.
pub proof fn lemma_filter_none<A>(s: Seq<A>, pred: spec_fn(A) -> bool)
    ensures
        s.take(0).filter(pred) == Seq::<A>::empty(),
{
    reveal(Seq::filter);
    assert(s.take(0).filter(pred) =~= Seq::<A>::empty());
}

} // verus!
