//! Sequences of records keyed by text, read as finite maps.
use vstd::prelude::*;

verus! {

/// The map from each record's key to its value, a later record replacing an earlier one with
/// the same key.
pub open spec fn keyed_map<T, V>(
    s: Seq<T>,
    key: spec_fn(T) -> Seq<char>,
    val: spec_fn(T) -> V,
) -> Map<Seq<char>, V>
    decreases s.len(),
{
    if s.len() == 0 {
        Map::empty()
    } else {
        keyed_map(s.drop_last(), key, val).insert(key(s.last()), val(s.last()))
    }
}

/// No key occurs twice.
pub open spec fn keys_unique<T>(s: Seq<T>, key: spec_fn(T) -> Seq<char>) -> bool {
    forall|i: int, j: int| 0 <= i < j < s.len() ==> key(s[i]) != key(s[j])
}

/// The keys of the map are the records' keys, and each record's value is stored under its key.
pub proof fn lemma_keyed_map_dom<T, V>(
    s: Seq<T>,
    key: spec_fn(T) -> Seq<char>,
    val: spec_fn(T) -> V,
)
    requires
        keys_unique(s, key),
    ensures
        forall|k: Seq<char>|
            keyed_map(s, key, val).dom().contains(k) <==> exists|i: int|
                0 <= i < s.len() && #[trigger] key(s[i]) == k,
        forall|i: int| 0 <= i < s.len() ==> #[trigger] keyed_map(s, key, val)[key(s[i])] == val(s[i]),
        keyed_map(s, key, val).dom().finite(),
        keyed_map(s, key, val).dom().len() == s.len(),
    decreases s.len(),
{
    if s.len() > 0 {
        let d = s.drop_last();
        let n = s.len() - 1;
        let l = s[n];
        let m = keyed_map(s, key, val);
        let md = keyed_map(d, key, val);
        lemma_keyed_map_dom(d, key, val);
        assert(m == md.insert(key(l), val(l)));
        assert forall|k: Seq<char>|
            m.dom().contains(k) <==> exists|i: int| 0 <= i < s.len() && #[trigger] key(s[i]) == k by {
            if m.dom().contains(k) {
                if k == key(l) {
                    assert(key(s[n]) == k);
                } else {
                    assert(md.dom().contains(k));
                    let i = choose|i: int| 0 <= i < d.len() && #[trigger] key(d[i]) == k;
                    assert(s[i] == d[i]);
                    assert(key(s[i]) == k);
                }
            }
            if exists|i: int| 0 <= i < s.len() && #[trigger] key(s[i]) == k {
                let i = choose|i: int| 0 <= i < s.len() && #[trigger] key(s[i]) == k;
                if i < n {
                    assert(d[i] == s[i]);
                    assert(key(d[i]) == k);
                    assert(md.dom().contains(k));
                }
            }
        }
        assert forall|i: int| 0 <= i < s.len() implies #[trigger] m[key(s[i])] == val(s[i]) by {
            if i < n {
                assert(d[i] == s[i]);
                assert(key(s[i]) != key(l));
                assert(md[key(d[i])] == val(d[i]));
            }
        }
        assert(!md.dom().contains(key(l))) by {
            if md.dom().contains(key(l)) {
                let i = choose|i: int| 0 <= i < d.len() && #[trigger] key(d[i]) == key(l);
                assert(key(s[i]) == key(s[n]));
            }
        }
    }
}

/// Replacing a record by one with the same key updates that key's value.
pub proof fn lemma_keyed_map_update<T, V>(
    s: Seq<T>,
    key: spec_fn(T) -> Seq<char>,
    val: spec_fn(T) -> V,
    i: int,
    x: T,
)
    requires
        keys_unique(s, key),
        0 <= i < s.len(),
        key(s[i]) == key(x),
    ensures
        keyed_map(s.update(i, x), key, val) == keyed_map(s, key, val).insert(key(x), val(x)),
        keys_unique(s.update(i, x), key),
    decreases s.len(),
{
    let u = s.update(i, x);
    if i == s.len() - 1 {
        assert(u.drop_last() =~= s.drop_last());
        assert(keyed_map(u, key, val) =~= keyed_map(s, key, val).insert(key(x), val(x)));
    } else {
        let d = s.drop_last();
        lemma_keyed_map_update(d, key, val, i, x);
        assert(u.drop_last() =~= d.update(i, x));
        assert(key(x) != key(s.last()));
        assert(keyed_map(u, key, val) =~= keyed_map(s, key, val).insert(key(x), val(x)));
    }
    assert forall|a: int, b: int| 0 <= a < b < u.len() implies key(u[a]) != key(u[b]) by {
        if a == i {
            assert(key(s[b]) != key(s[i]));
        } else if b == i {
            assert(key(s[a]) != key(s[i]));
        }
    }
}

/// Inserting a record with a new key anywhere adds that key.
pub proof fn lemma_keyed_map_insert<T, V>(
    s: Seq<T>,
    key: spec_fn(T) -> Seq<char>,
    val: spec_fn(T) -> V,
    j: int,
    x: T,
)
    requires
        keys_unique(s, key),
        0 <= j <= s.len(),
        forall|i: int| 0 <= i < s.len() ==> key(#[trigger] s[i]) != key(x),
    ensures
        keyed_map(s.insert(j, x), key, val) == keyed_map(s, key, val).insert(key(x), val(x)),
        keys_unique(s.insert(j, x), key),
    decreases s.len(),
{
    let u = s.insert(j, x);
    if j == s.len() {
        assert(u.drop_last() =~= s);
        assert(u.last() == x);
    } else {
        let d = s.drop_last();
        lemma_keyed_map_insert(d, key, val, j, x);
        assert(u.drop_last() =~= d.insert(j, x));
        assert(u.last() == s.last());
        assert(key(x) != key(s[s.len() - 1]));
        assert(keyed_map(u, key, val) =~= keyed_map(s, key, val).insert(key(x), val(x)));
    }
    assert forall|a: int, b: int| 0 <= a < b < u.len() implies key(u[a]) != key(u[b]) by {
        if a < j && b > j {
            assert(u[a] == s[a] && u[b] == s[b - 1]);
        } else if a > j {
            assert(u[a] == s[a - 1] && u[b] == s[b - 1]);
        } else if b < j {
            assert(u[a] == s[a] && u[b] == s[b]);
        } else if a == j {
            assert(u[b] == s[b - 1]);
        } else {
            assert(u[a] == s[a]);
        }
    }
}

} // verus!
