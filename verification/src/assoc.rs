//! Association lists: sequences of entries with distinct keys, read as maps.
use vstd::prelude::*;

verus! {

/// The map that a sequence of entries denotes, later entries overriding earlier ones.
pub open spec fn assoc_map<T, K, V>(s: Seq<T>, key: spec_fn(T) -> K, val: spec_fn(T) -> V) -> Map<K, V>
    decreases s.len(),
{
    if s.len() == 0 {
        Map::empty()
    } else {
        assoc_map(s.drop_last(), key, val).insert(key(s.last()), val(s.last()))
    }
}

/// Whether no two entries share a key.
pub open spec fn keys_unique<T, K>(s: Seq<T>, key: spec_fn(T) -> K) -> bool {
    forall|i: int, j: int| 0 <= i < j < s.len() ==> key(s[i]) != key(s[j])
}

pub proof fn lemma_assoc_dom<T, K, V>(s: Seq<T>, key: spec_fn(T) -> K, val: spec_fn(T) -> V)
    ensures
        forall|k: K| #[trigger] assoc_map(s, key, val).contains_key(k) <==> exists|i: int| 0 <= i < s.len() && key(s[i]) == k,
    decreases s.len(),
{
    if s.len() > 0 {
        let t = s.drop_last();
        lemma_assoc_dom(t, key, val);
        assert forall|k: K| #[trigger] assoc_map(s, key, val).contains_key(k) <==> exists|i: int| 0 <= i < s.len() && key(s[i]) == k by {
            if assoc_map(s, key, val).contains_key(k) {
                if k == key(s.last()) {
                    assert(key(s[s.len() - 1]) == k);
                } else {
                    assert(assoc_map(t, key, val).contains_key(k));
                    let i = choose|i: int| 0 <= i < t.len() && key(t[i]) == k;
                    assert(key(s[i]) == k);
                }
            }
            if exists|i: int| 0 <= i < s.len() && key(s[i]) == k {
                let i = choose|i: int| 0 <= i < s.len() && key(s[i]) == k;
                if i < s.len() - 1 {
                    assert(key(t[i]) == k);
                    assert(assoc_map(t, key, val).contains_key(k));
                }
            }
        }
    }
}

pub proof fn lemma_assoc_value<T, K, V>(s: Seq<T>, key: spec_fn(T) -> K, val: spec_fn(T) -> V, i: int)
    requires
        keys_unique(s, key),
        0 <= i < s.len(),
    ensures
        assoc_map(s, key, val).contains_key(key(s[i])),
        assoc_map(s, key, val)[key(s[i])] == val(s[i]),
    decreases s.len(),
{
    if i < s.len() - 1 {
        let t = s.drop_last();
        assert(keys_unique(t, key));
        lemma_assoc_value(t, key, val, i);
        assert(t[i] == s[i]);
        assert(key(s[i]) != key(s[s.len() - 1]));
    }
}

/// Replacing the entry at `i` by one with the same key updates the map at that key.
pub proof fn lemma_assoc_update<T, K, V>(s: Seq<T>, key: spec_fn(T) -> K, val: spec_fn(T) -> V, i: int, x: T)
    requires
        keys_unique(s, key),
        0 <= i < s.len(),
        key(x) == key(s[i]),
    ensures
        keys_unique(s.update(i, x), key),
        assoc_map(s.update(i, x), key, val) == assoc_map(s, key, val).insert(key(x), val(x)),
{
    let n = s.update(i, x);
    assert forall|a: int, b: int| 0 <= a < b < n.len() implies key(n[a]) != key(n[b]) by {
        if a == i {
            assert(key(s[i]) != key(s[b]));
        } else if b == i {
            assert(key(s[a]) != key(s[i]));
        } else {
            assert(key(s[a]) != key(s[b]));
        }
    }
    lemma_assoc_dom(s, key, val);
    lemma_assoc_dom(n, key, val);
    let m1 = assoc_map(n, key, val);
    let m2 = assoc_map(s, key, val).insert(key(x), val(x));
    assert forall|k: K| #[trigger] m1.contains_key(k) implies m2.contains_key(k) && m1[k] == m2[k] by {
        let j = choose|j: int| 0 <= j < n.len() && key(n[j]) == k;
        lemma_assoc_value(n, key, val, j);
        if j != i {
            lemma_assoc_value(s, key, val, j);
        }
    }
    assert forall|k: K| #[trigger] m2.contains_key(k) implies m1.contains_key(k) by {
        if k == key(x) {
            assert(key(n[i]) == k);
        } else {
            let j = choose|j: int| 0 <= j < s.len() && key(s[j]) == k;
            assert(key(n[j]) == k);
        }
    }
    assert(m1 =~= m2);
}

/// Appending an entry with a new key adds it to the map.
pub proof fn lemma_assoc_push<T, K, V>(s: Seq<T>, key: spec_fn(T) -> K, val: spec_fn(T) -> V, x: T)
    requires
        keys_unique(s, key),
        !assoc_map(s, key, val).contains_key(key(x)),
    ensures
        keys_unique(s.push(x), key),
        assoc_map(s.push(x), key, val) == assoc_map(s, key, val).insert(key(x), val(x)),
{
    lemma_assoc_dom(s, key, val);
    let n = s.push(x);
    assert(n.drop_last() =~= s);
    assert forall|a: int, b: int| 0 <= a < b < n.len() implies key(n[a]) != key(n[b]) by {
        if b == s.len() {
            assert(key(s[a]) == key(n[a]));
        } else {
            assert(key(s[a]) != key(s[b]));
        }
    }
}

/// Removing the entry at `i` removes its key from the map.
pub proof fn lemma_assoc_remove<T, K, V>(s: Seq<T>, key: spec_fn(T) -> K, val: spec_fn(T) -> V, i: int)
    requires
        keys_unique(s, key),
        0 <= i < s.len(),
    ensures
        keys_unique(s.remove(i), key),
        assoc_map(s.remove(i), key, val) == assoc_map(s, key, val).remove(key(s[i])),
{
    let n = s.remove(i);
    assert forall|a: int, b: int| 0 <= a < b < n.len() implies key(n[a]) != key(n[b]) by {
        let oa = if a < i { a } else { a + 1 };
        let ob = if b < i { b } else { b + 1 };
        assert(n[a] == s[oa]);
        assert(n[b] == s[ob]);
        assert(key(s[oa]) != key(s[ob]));
    }
    lemma_assoc_dom(s, key, val);
    lemma_assoc_dom(n, key, val);
    let m1 = assoc_map(n, key, val);
    let m2 = assoc_map(s, key, val).remove(key(s[i]));
    assert forall|k: K| #[trigger] m1.contains_key(k) implies m2.contains_key(k) && m1[k] == m2[k] by {
        let j = choose|j: int| 0 <= j < n.len() && key(n[j]) == k;
        let oj = if j < i { j } else { j + 1 };
        assert(n[j] == s[oj]);
        lemma_assoc_value(n, key, val, j);
        lemma_assoc_value(s, key, val, oj);
        assert(key(s[oj]) != key(s[i]));
    }
    assert forall|k: K| #[trigger] m2.contains_key(k) implies m1.contains_key(k) by {
        let j = choose|j: int| 0 <= j < s.len() && key(s[j]) == k;
        assert(j != i);
        let nj = if j < i { j } else { j - 1 };
        assert(n[nj] == s[j]);
    }
    assert(m1 =~= m2);
}

} // verus!
