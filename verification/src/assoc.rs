//! Association lists: sequences of key-value pairs read as finite maps.

use vstd::prelude::*;

verus! {

/// No key occurs twice.
pub open spec fn unique_keys<K, V>(s: Seq<(K, V)>) -> bool {
    forall|i: int, j: int| 0 <= i < j < s.len() ==> #[trigger] s[i].0 != #[trigger] s[j].0
}

/// The map that the pairs describe; where a key occurred twice the later pair would win.
pub open spec fn assoc_map<K, V>(s: Seq<(K, V)>) -> Map<K, V>
    decreases s.len(),
{
    if s.len() == 0 {
        Map::empty()
    } else {
        assoc_map(s.drop_last()).insert(s.last().0, s.last().1)
    }
}

/// With unique keys, a key is in the map exactly when some pair holds it, and
/// each pair's value is what the map gives for its key.
pub proof fn lemma_assoc_map<K, V>(s: Seq<(K, V)>)
    requires
        unique_keys(s),
    ensures
        forall|k: K|
            #[trigger] assoc_map(s).contains_key(k) <==> exists|i: int|
                0 <= i < s.len() && #[trigger] s[i].0 == k,
        forall|i: int| 0 <= i < s.len() ==> #[trigger] assoc_map(s)[s[i].0] == s[i].1,
        assoc_map(s).dom().finite(),
    decreases s.len(),
{
    if s.len() > 0 {
        let t = s.drop_last();
        assert(unique_keys(t));
        lemma_assoc_map(t);
        assert forall|k: K| #[trigger] assoc_map(s).contains_key(k) <==> exists|i: int|
            0 <= i < s.len() && #[trigger] s[i].0 == k by {
            if assoc_map(s).contains_key(k) && k != s.last().0 {
                let i = choose|i: int| 0 <= i < t.len() && #[trigger] t[i].0 == k;
                assert(s[i].0 == k);
            }
            if exists|i: int| 0 <= i < s.len() && #[trigger] s[i].0 == k {
                let i = choose|i: int| 0 <= i < s.len() && #[trigger] s[i].0 == k;
                if i < s.len() - 1 {
                    assert(t[i].0 == k);
                }
            }
        }
        assert forall|i: int| 0 <= i < s.len() implies #[trigger] assoc_map(s)[s[i].0] == s[i].1 by {
            if i < s.len() - 1 {
                assert(t[i] == s[i]);
                assert(s[i].0 != s[s.len() - 1].0);
            }
        }
    }
}

/// Putting a pair with a new key anywhere in the list adds that key to the map.
pub proof fn lemma_assoc_insert<K, V>(s: Seq<(K, V)>, j: int, p: (K, V))
    requires
        unique_keys(s),
        0 <= j <= s.len(),
        forall|i: int| 0 <= i < s.len() ==> #[trigger] s[i].0 != p.0,
    ensures
        unique_keys(s.insert(j, p)),
        assoc_map(s.insert(j, p)) == assoc_map(s).insert(p.0, p.1),
{
    let t = s.insert(j, p);
    assert forall|a: int, b: int| 0 <= a < b < t.len() implies #[trigger] t[a].0 != #[trigger] t[b].0 by {
        if a < j && b > j {
            assert(t[b] == s[b - 1]);
        } else if a > j {
            assert(t[a] == s[a - 1]);
            assert(t[b] == s[b - 1]);
        }
    }
    lemma_assoc_map(s);
    lemma_assoc_map(t);
    assert forall|k: K| #[trigger] assoc_map(t).contains_key(k) <==> assoc_map(s).insert(p.0, p.1).contains_key(k) by {
        if assoc_map(t).contains_key(k) {
            let i = choose|i: int| 0 <= i < t.len() && #[trigger] t[i].0 == k;
            if i < j {
                assert(s[i].0 == k);
            } else if i > j {
                assert(s[i - 1].0 == k);
            }
        }
        if assoc_map(s).contains_key(k) {
            let i = choose|i: int| 0 <= i < s.len() && #[trigger] s[i].0 == k;
            if i < j {
                assert(t[i].0 == k);
            } else {
                assert(t[i + 1].0 == k);
            }
        }
        if k == p.0 {
            assert(t[j].0 == k);
        }
    }
    assert forall|k: K| #[trigger] assoc_map(t).contains_key(k) implies assoc_map(t)[k] == assoc_map(s).insert(p.0, p.1)[k] by {
        let i = choose|i: int| 0 <= i < t.len() && #[trigger] t[i].0 == k;
        if i < j {
            assert(t[i] == s[i]);
        } else if i > j {
            assert(t[i] == s[i - 1]);
        }
    }
    assert(assoc_map(t) =~= assoc_map(s).insert(p.0, p.1));
}

/// Replacing the pair of a key changes that key's value in the map.
pub proof fn lemma_assoc_update<K, V>(s: Seq<(K, V)>, j: int, p: (K, V))
    requires
        unique_keys(s),
        0 <= j < s.len(),
        s[j].0 == p.0,
    ensures
        unique_keys(s.update(j, p)),
        assoc_map(s.update(j, p)) == assoc_map(s).insert(p.0, p.1),
{
    let t = s.update(j, p);
    assert forall|a: int, b: int| 0 <= a < b < t.len() implies #[trigger] t[a].0 != #[trigger] t[b].0 by {
        assert(s[a].0 != s[b].0);
    }
    lemma_assoc_map(s);
    lemma_assoc_map(t);
    assert forall|k: K| #[trigger] assoc_map(t).contains_key(k) <==> assoc_map(s).insert(p.0, p.1).contains_key(k) by {
        if assoc_map(t).contains_key(k) {
            let i = choose|i: int| 0 <= i < t.len() && #[trigger] t[i].0 == k;
            if i != j {
                assert(s[i].0 == k);
            }
        }
        if assoc_map(s).contains_key(k) {
            let i = choose|i: int| 0 <= i < s.len() && #[trigger] s[i].0 == k;
            assert(t[i].0 == k);
        }
        if k == p.0 {
            assert(t[j].0 == k);
        }
    }
    assert forall|k: K| #[trigger] assoc_map(t).contains_key(k) implies assoc_map(t)[k] == assoc_map(s).insert(p.0, p.1)[k] by {
        let i = choose|i: int| 0 <= i < t.len() && #[trigger] t[i].0 == k;
        if i != j {
            assert(t[i] == s[i]);
        }
    }
    assert(assoc_map(t) =~= assoc_map(s).insert(p.0, p.1));
}

} // verus!
