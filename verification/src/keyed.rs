//! Lists used as maps: an entry is found by its key, and the first entry with
//! a key is the one that counts.  `as_map` is the map such a list stands for.
use vstd::prelude::*;

verus! {

/// `i` is the first index of `s` whose key is `k`.
pub open spec fn first_at<T, K>(s: Seq<T>, key: spec_fn(T) -> K, k: K, i: int) -> bool {
    &&& 0 <= i < s.len()
    &&& key(s[i]) == k
    &&& forall|j: int| 0 <= j < i ==> key(#[trigger] s[j]) != k
}

/// Some entry of `s` has key `k`.
pub open spec fn has_key<T, K>(s: Seq<T>, key: spec_fn(T) -> K, k: K) -> bool {
    exists|i: int| 0 <= i < s.len() && key(#[trigger] s[i]) == k
}

/// The first index of `s` whose key is `k` (meaningful when `has_key`).
pub open spec fn index_of<T, K>(s: Seq<T>, key: spec_fn(T) -> K, k: K) -> int {
    choose|i: int| first_at(s, key, k, i)
}

/// The map that the list `s` stands for: each key present maps to the first
/// entry with that key.
pub open spec fn as_map<T, K>(s: Seq<T>, key: spec_fn(T) -> K) -> Map<K, T> {
    Map::new(|k: K| has_key(s, key, k), |k: K| s[index_of(s, key, k)])
}

/// Where a key is present, its first index exists.
pub proof fn lemma_first_exists<T, K>(s: Seq<T>, key: spec_fn(T) -> K, k: K)
    requires
        has_key(s, key, k),
    ensures
        first_at(s, key, k, index_of(s, key, k)),
    decreases s.len(),
{
    let w = choose|i: int| 0 <= i < s.len() && key(#[trigger] s[i]) == k;
    if key(s[0]) == k {
        assert(first_at(s, key, k, 0));
    } else {
        let t = s.drop_first();
        assert(t[w - 1] == s[w]);
        assert(has_key(t, key, k));
        lemma_first_exists(t, key, k);
        let i = index_of(t, key, k);
        assert forall|j: int| 0 <= j < i + 1 implies key(#[trigger] s[j]) != k by {
            if j > 0 {
                assert(s[j] == t[j - 1]);
            }
        }
        assert(first_at(s, key, k, i + 1));
    }
}

/// The first index of a key is unique.
pub proof fn lemma_first_unique<T, K>(s: Seq<T>, key: spec_fn(T) -> K, k: K, i: int)
    requires
        first_at(s, key, k, i),
    ensures
        index_of(s, key, k) == i,
{
    let c = index_of(s, key, k);
    assert(first_at(s, key, k, c));
    if c < i {
        assert(key(s[c]) != k);
    }
    if i < c {
        assert(key(s[i]) != k);
    }
}

/// Overwriting the first entry of a key with an entry of the same key writes
/// that key in the map and leaves the others.
pub proof fn lemma_map_update<T, K>(s: Seq<T>, key: spec_fn(T) -> K, i: int, x: T)
    requires
        first_at(s, key, key(x), i),
    ensures
        as_map(s.update(i, x), key) == as_map(s, key).insert(key(x), x),
{
    let t = s.update(i, x);
    let m = as_map(t, key);
    let m0 = as_map(s, key).insert(key(x), x);
    assert forall|k: K| m.dom().contains(k) <==> m0.dom().contains(k) by {
        if has_key(t, key, k) {
            let w = choose|j: int| 0 <= j < t.len() && key(#[trigger] t[j]) == k;
            if w != i {
                assert(s[w] == t[w]);
            }
        }
        if has_key(s, key, k) && k != key(x) {
            let w = choose|j: int| 0 <= j < s.len() && key(#[trigger] s[j]) == k;
            assert(w != i);
            assert(s[w] == t[w]);
        }
        if k == key(x) {
            assert(t[i] == x);
        }
    }
    assert forall|k: K| m.dom().contains(k) implies m[k] == m0[k] by {
        if k == key(x) {
            assert forall|j: int| 0 <= j < i implies key(#[trigger] t[j]) != k by {
                assert(t[j] == s[j]);
            }
            assert(first_at(t, key, k, i));
            lemma_first_unique(t, key, k, i);
        } else {
            lemma_first_exists(t, key, k);
            let j = index_of(t, key, k);
            assert(j != i);
            assert forall|l: int| 0 <= l < j implies key(#[trigger] s[l]) != k by {
                if l == i {
                    assert(key(s[i]) == key(x));
                } else {
                    assert(s[l] == t[l]);
                }
            }
            assert(s[j] == t[j]);
            assert(first_at(s, key, k, j));
            lemma_first_unique(s, key, k, j);
        }
    }
    assert(m =~= m0);
}

/// Appending an entry whose key is new adds that key to the map.
pub proof fn lemma_map_push<T, K>(s: Seq<T>, key: spec_fn(T) -> K, x: T)
    requires
        !has_key(s, key, key(x)),
    ensures
        as_map(s.push(x), key) == as_map(s, key).insert(key(x), x),
{
    let t = s.push(x);
    let m = as_map(t, key);
    let m0 = as_map(s, key).insert(key(x), x);
    assert forall|k: K| m.dom().contains(k) <==> m0.dom().contains(k) by {
        if has_key(t, key, k) {
            let w = choose|j: int| 0 <= j < t.len() && key(#[trigger] t[j]) == k;
            if w < s.len() {
                assert(s[w] == t[w]);
            }
        }
        if has_key(s, key, k) {
            let w = choose|j: int| 0 <= j < s.len() && key(#[trigger] s[j]) == k;
            assert(s[w] == t[w]);
        }
        if k == key(x) {
            assert(t[s.len() as int] == x);
        }
    }
    assert forall|k: K| m.dom().contains(k) implies m[k] == m0[k] by {
        if k == key(x) {
            assert forall|j: int| 0 <= j < s.len() implies key(#[trigger] t[j]) != k by {
                assert(t[j] == s[j]);
            }
            assert(first_at(t, key, k, s.len() as int));
            lemma_first_unique(t, key, k, s.len() as int);
        } else {
            lemma_first_exists(t, key, k);
            let j = index_of(t, key, k);
            assert(j < s.len());
            assert forall|l: int| 0 <= l < j implies key(#[trigger] s[l]) != k by {
                assert(s[l] == t[l]);
            }
            assert(s[j] == t[j]);
            assert(first_at(s, key, k, j));
            lemma_first_unique(s, key, k, j);
        }
    }
    assert(m =~= m0);
}

} // verus!
