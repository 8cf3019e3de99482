use vstd::prelude::*;

verus! {

/// No two entries of `s` carry the same key.
pub open spec fn keys_distinct<V>(s: Seq<(Seq<char>, V)>) -> bool {
    forall|i: int, j: int| 0 <= i < s.len() && 0 <= j < s.len() && i != j ==> #[trigger] s[i].0 != #[trigger] s[j].0
}

/// Some entry of `s` carries the key `k`.
pub open spec fn has_key<V>(s: Seq<(Seq<char>, V)>, k: Seq<char>) -> bool {
    exists|i: int| 0 <= i < s.len() && #[trigger] s[i].0 == k
}

/// The map from each key of `s` to the value stored with it.
pub open spec fn keyed_map<V>(s: Seq<(Seq<char>, V)>) -> Map<Seq<char>, V> {
    Map::new(
        |k: Seq<char>| has_key(s, k),
        |k: Seq<char>| s[choose|i: int| 0 <= i < s.len() && #[trigger] s[i].0 == k].1,
    )
}

/// In a sequence with distinct keys, the entry at `i` is the one found under its key.
pub proof fn lemma_keyed_lookup<V>(s: Seq<(Seq<char>, V)>, i: int)
    requires
        keys_distinct(s),
        0 <= i < s.len(),
    ensures
        keyed_map(s).dom().contains(s[i].0),
        keyed_map(s)[s[i].0] == s[i].1,
{
    let k = s[i].0;
    assert(has_key(s, k));
    let c = choose|c: int| 0 <= c < s.len() && #[trigger] s[c].0 == k;
    assert(c == i);
}

/// Appending an entry under a new key inserts it into the map.
pub proof fn lemma_keyed_push<V>(s: Seq<(Seq<char>, V)>, k: Seq<char>, v: V)
    requires
        keys_distinct(s),
        !has_key(s, k),
    ensures
        keys_distinct(s.push((k, v))),
        keyed_map(s.push((k, v))) == keyed_map(s).insert(k, v),
{
    let t = s.push((k, v));
    assert(keys_distinct(t)) by {
        assert forall|i: int, j: int|
            0 <= i < t.len() && 0 <= j < t.len() && i != j implies #[trigger] t[i].0
            != #[trigger] t[j].0 by {
            if i < s.len() && j < s.len() {
                assert(t[i] == s[i] && t[j] == s[j]);
            } else if i < s.len() {
                assert(t[i] == s[i]);
            } else {
                assert(t[j] == s[j]);
            }
        }
    }
    assert forall|key: Seq<char>| #[trigger] has_key(t, key) == (has_key(s, key) || key == k) by {
        if has_key(s, key) {
            let w = choose|w: int| 0 <= w < s.len() && #[trigger] s[w].0 == key;
            assert(t[w] == s[w]);
        }
        if key == k {
            assert(t[s.len() as int].0 == k);
        }
        if has_key(t, key) && key != k {
            let w = choose|w: int| 0 <= w < t.len() && #[trigger] t[w].0 == key;
            assert(w < s.len());
            assert(t[w] == s[w]);
        }
    }
    assert forall|key: Seq<char>| #[trigger] keyed_map(t).dom().contains(key) implies keyed_map(
        t,
    )[key] == keyed_map(s).insert(k, v)[key] by {
        let c = choose|c: int| 0 <= c < t.len() && #[trigger] t[c].0 == key;
        if key == k {
            assert(t[s.len() as int].0 == k);
            assert(c == s.len());
        } else {
            assert(c < s.len());
            assert(t[c] == s[c]);
            lemma_keyed_lookup(s, c);
        }
    }
    assert(keyed_map(t) =~= keyed_map(s).insert(k, v));
}

/// Replacing the value of the entry at `i` updates the map under its key.
pub proof fn lemma_keyed_update<V>(s: Seq<(Seq<char>, V)>, i: int, v: V)
    requires
        keys_distinct(s),
        0 <= i < s.len(),
    ensures
        keys_distinct(s.update(i, (s[i].0, v))),
        keyed_map(s.update(i, (s[i].0, v))) == keyed_map(s).insert(s[i].0, v),
{
    let k = s[i].0;
    let t = s.update(i, (k, v));
    assert(keys_distinct(t)) by {
        assert forall|a: int, b: int|
            0 <= a < t.len() && 0 <= b < t.len() && a != b implies #[trigger] t[a].0
            != #[trigger] t[b].0 by {
            assert(t[a].0 == s[a].0);
            assert(t[b].0 == s[b].0);
        }
    }
    assert forall|key: Seq<char>| #[trigger] has_key(t, key) == has_key(s, key) by {
        if has_key(s, key) {
            let w = choose|w: int| 0 <= w < s.len() && #[trigger] s[w].0 == key;
            assert(t[w].0 == s[w].0);
        }
        if has_key(t, key) {
            let w = choose|w: int| 0 <= w < t.len() && #[trigger] t[w].0 == key;
            assert(t[w].0 == s[w].0);
        }
    }
    assert(has_key(s, k)) by {
        assert(s[i].0 == k);
    }
    assert forall|key: Seq<char>| #[trigger] keyed_map(t).dom().contains(key) implies keyed_map(
        t,
    )[key] == keyed_map(s).insert(k, v)[key] by {
        let c = choose|c: int| 0 <= c < t.len() && #[trigger] t[c].0 == key;
        assert(t[c].0 == s[c].0);
        if key == k {
            assert(c == i);
        } else {
            assert(t[c] == s[c]);
            lemma_keyed_lookup(s, c);
        }
    }
    assert(keyed_map(t) =~= keyed_map(s).insert(k, v));
}

} // verus!
