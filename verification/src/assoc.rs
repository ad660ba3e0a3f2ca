//! Association lists: sequences of key-value pairs read as ordered maps.

use vstd::prelude::*;

verus! {

/// No key occurs twice.
pub open spec fn keys_distinct<K, V>(s: Seq<(K, V)>) -> bool {
    forall|i: int, j: int| 0 <= i < j < s.len() ==> (#[trigger] s[i]).0 != (#[trigger] s[j]).0
}

/// Whether some entry has the key.
pub open spec fn has_key<K, V>(s: Seq<(K, V)>, k: K) -> bool {
    exists|i: int| 0 <= i < s.len() && (#[trigger] s[i]).0 == k
}

/// The place of the entry with the key, meaningful where there is one.
pub open spec fn position<K, V>(s: Seq<(K, V)>, k: K) -> int {
    choose|i: int| 0 <= i < s.len() && (#[trigger] s[i]).0 == k
}

/// The value stored under the key, if any.
pub open spec fn lookup<K, V>(s: Seq<(K, V)>, k: K) -> Option<V> {
    if has_key(s, k) {
        Some(s[position(s, k)].1)
    } else {
        None
    }
}

/// The set after the key is given the value: an entry that is there keeps its
/// place and gets the new value, a new key is added at the end.
pub open spec fn upsert<K, V>(s: Seq<(K, V)>, k: K, v: V) -> Seq<(K, V)> {
    if has_key(s, k) {
        s.update(position(s, k), (k, v))
    } else {
        s.push((k, v))
    }
}

/// Giving a key a value keeps the keys distinct, stores the value under the
/// key and leaves every other key as it was.
pub proof fn lemma_upsert<K, V>(s: Seq<(K, V)>, k: K, v: V)
    requires
        keys_distinct(s),
    ensures
        keys_distinct(upsert(s, k, v)),
        lookup(upsert(s, k, v), k) == Some(v),
        forall|other: K| other != k ==> lookup(upsert(s, k, v), other) == lookup(s, other),
        upsert(s, k, v).len() == if has_key(s, k) { s.len() } else { s.len() + 1 },
{
    let t = upsert(s, k, v);
    if has_key(s, k) {
        let p = position(s, k);
        assert(t[p] == (k, v));
        assert forall|i: int, j: int| 0 <= i < j < t.len() implies (#[trigger] t[i]).0 != (
        #[trigger] t[j]).0 by {
            assert(t[i].0 == s[i].0);
            assert(t[j].0 == s[j].0);
        }
        assert forall|other: K| other != k implies lookup(t, other) == lookup(s, other) by {
            lemma_same_keys_lookup(s, t, other, p);
        }
        lemma_lookup_at(t, p);
    } else {
        let p = s.len() as int;
        assert(t[p] == (k, v));
        assert forall|i: int, j: int| 0 <= i < j < t.len() implies (#[trigger] t[i]).0 != (
        #[trigger] t[j]).0 by {
            if j < s.len() {
                assert(t[i] == s[i] && t[j] == s[j]);
            } else {
                assert(t[i] == s[i]);
            }
        }
        lemma_lookup_at(t, p);
        assert forall|other: K| other != k implies lookup(t, other) == lookup(s, other) by {
            if has_key(s, other) {
                let q = position(s, other);
                assert(t[q] == s[q]);
                lemma_lookup_at(t, q);
                lemma_lookup_at(s, q);
            } else {
                if has_key(t, other) {
                    let q = position(t, other);
                    assert(q < s.len());
                    assert(s[q] == t[q]);
                }
            }
        }
    }
}

/// In a set with distinct keys the entry at a place is what a lookup of its
/// key finds.
pub proof fn lemma_lookup_at<K, V>(s: Seq<(K, V)>, p: int)
    requires
        keys_distinct(s),
        0 <= p < s.len(),
    ensures
        has_key(s, s[p].0),
        position(s, s[p].0) == p,
        lookup(s, s[p].0) == Some(s[p].1),
{
    let k = s[p].0;
    assert(has_key(s, k));
    let q = position(s, k);
    if q != p {
        if q < p {
            assert(s[q].0 != s[p].0);
        } else {
            assert(s[p].0 != s[q].0);
        }
    }
}

/// Two sets that agree but at one place, whose key is not the one asked for,
/// answer a lookup alike.
proof fn lemma_same_keys_lookup<K, V>(s: Seq<(K, V)>, t: Seq<(K, V)>, other: K, p: int)
    requires
        keys_distinct(s),
        keys_distinct(t),
        s.len() == t.len(),
        0 <= p < s.len(),
        s[p].0 == t[p].0,
        s[p].0 != other,
        forall|i: int| 0 <= i < s.len() && i != p ==> s[i] == t[i],
    ensures
        lookup(t, other) == lookup(s, other),
{
    if has_key(s, other) {
        let q = position(s, other);
        assert(t[q] == s[q]);
        lemma_lookup_at(t, q);
        lemma_lookup_at(s, q);
    } else {
        if has_key(t, other) {
            let q = position(t, other);
            assert(s[q].0 == t[q].0);
        }
    }
}

/// The list after a pair is offered: a key that is already there keeps its
/// entry, a new key is added at the end.
pub open spec fn add_absent<K, V>(s: Seq<(K, V)>, k: K, v: V) -> Seq<(K, V)> {
    if has_key(s, k) {
        s
    } else {
        s.push((k, v))
    }
}

/// Offering a pair keeps the keys distinct, leaves every key that was there
/// with its value, and stores the value where the key is new.
pub proof fn lemma_add_absent<K, V>(s: Seq<(K, V)>, k: K, v: V)
    requires
        keys_distinct(s),
    ensures
        keys_distinct(add_absent(s, k, v)),
        has_key(s, k) ==> add_absent(s, k, v) == s,
        !has_key(s, k) ==> add_absent(s, k, v) == upsert(s, k, v),
        lookup(add_absent(s, k, v), k) == if has_key(s, k) {
            lookup(s, k)
        } else {
            Some(v)
        },
        forall|other: K| other != k ==> lookup(add_absent(s, k, v), other) == lookup(s, other),
{
    if !has_key(s, k) {
        lemma_upsert(s, k, v);
    }
}

} // verus!
