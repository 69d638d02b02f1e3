//! Lists of pairs read as maps: the model behind the tables that are kept in a `Vec`.

use vstd::prelude::*;

verus! {

/// No key occurs twice in the list.
pub open spec fn distinct_keys<K, V>(s: Seq<(K, V)>) -> bool {
    forall|i: int, j: int| 0 <= i < j < s.len() ==> (#[trigger] s[i]).0 != (#[trigger] s[j]).0
}

/// Some pair of the list has this key.
pub open spec fn has_key<K, V>(s: Seq<(K, V)>, k: K) -> bool {
    exists|i: int| 0 <= i < s.len() && (#[trigger] s[i]).0 == k
}

/// A place at which the list has this key.
pub open spec fn place_of<K, V>(s: Seq<(K, V)>, k: K) -> int {
    choose|i: int| 0 <= i < s.len() && (#[trigger] s[i]).0 == k
}

/// The map that takes each key of the list to the value paired with it.
pub open spec fn as_map<K, V>(s: Seq<(K, V)>) -> Map<K, V> {
    Map::new(|k: K| has_key(s, k), |k: K| s[place_of(s, k)].1)
}

/// Where the keys are distinct, the pair at `i` is what the map holds under its key.
pub proof fn lemma_entry<K, V>(s: Seq<(K, V)>, i: int)
    requires
        distinct_keys(s),
        0 <= i < s.len(),
    ensures
        as_map(s).contains_key(s[i].0),
        as_map(s)[s[i].0] == s[i].1,
{
    // The place that is chosen for the key of `i` can only be `i` itself.
    let p = place_of(s, s[i].0);
    assert(p == i);
}

/// A pair with a new key, added at the end, is an insert into the map.
pub proof fn lemma_push<K, V>(s: Seq<(K, V)>, k: K, v: V)
    requires
        distinct_keys(s),
        !has_key(s, k),
    ensures
        distinct_keys(s.push((k, v))),
        as_map(s.push((k, v))) == as_map(s).insert(k, v),
{
    let t = s.push((k, v));
    let n = s.len() as int;
    assert(distinct_keys(t));
    assert forall|x: K| has_key(t, x) == (has_key(s, x) || x == k) by {
        if has_key(s, x) {
            assert(t[place_of(s, x)].0 == x);
        }
        if x == k {
            assert(t[n].0 == x);
        }
    }
    assert forall|x: K| has_key(t, x) implies #[trigger] as_map(t)[x] == as_map(s).insert(k, v)[x] by {
        let p = place_of(t, x);
        lemma_entry(t, p);
        if p < n {
            lemma_entry(s, p);
        }
    }
}

/// A new value for the pair at `i` is an insert into the map under the key that is there.
pub proof fn lemma_update<K, V>(s: Seq<(K, V)>, i: int, v: V)
    requires
        distinct_keys(s),
        0 <= i < s.len(),
    ensures
        distinct_keys(s.update(i, (s[i].0, v))),
        as_map(s.update(i, (s[i].0, v))) == as_map(s).insert(s[i].0, v),
{
    let k = s[i].0;
    let t = s.update(i, (k, v));
    assert(distinct_keys(t));
    assert forall|x: K| has_key(t, x) == has_key(s, x) by {
        if has_key(s, x) {
            assert(t[place_of(s, x)].0 == x);
        }
    }
    lemma_entry(s, i);
    assert forall|x: K| has_key(t, x) implies #[trigger] as_map(t)[x] == as_map(s).insert(k, v)[x] by {
        let p = place_of(t, x);
        lemma_entry(t, p);
        if p != i {
            lemma_entry(s, p);
        }
    }
}

/// Taking the pair at `i` out of the list removes its key from the map.
pub proof fn lemma_remove<K, V>(s: Seq<(K, V)>, i: int)
    requires
        distinct_keys(s),
        0 <= i < s.len(),
    ensures
        distinct_keys(s.remove(i)),
        as_map(s.remove(i)) == as_map(s).remove(s[i].0),
{
    let k = s[i].0;
    let t = s.remove(i);
    assert(distinct_keys(t));
    assert forall|x: K| has_key(t, x) == (has_key(s, x) && x != k) by {
        if has_key(s, x) && x != k {
            // The pair has moved down by one if it stood behind `i`.
            let p = place_of(s, x);
            let q = if p < i { p } else { p - 1 };
            assert(t[q] == s[p]);
        }
    }
    assert forall|x: K| has_key(t, x) implies #[trigger] as_map(t)[x] == as_map(s).remove(k)[x] by {
        let q = place_of(t, x);
        let p = if q < i { q } else { q + 1 };
        lemma_entry(t, q);
        lemma_entry(s, p);
    }
}

/// A list with distinct keys makes a finite map with as many keys as the list has pairs.
pub proof fn lemma_len<K, V>(s: Seq<(K, V)>)
    requires
        distinct_keys(s),
    ensures
        as_map(s).dom().finite(),
        as_map(s).len() == s.len(),
    decreases s.len(),
{
    if s.len() == 0 {
        assert(as_map(s) =~= Map::<K, V>::empty());
    } else {
        let rest = s.drop_last();
        let last = s.last();
        assert(distinct_keys(rest));
        lemma_len(rest);
        assert(!has_key(rest, last.0));
        assert(rest.push(last) =~= s);
        lemma_push(rest, last.0, last.1);
    }
}

} // verus!
