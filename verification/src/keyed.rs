//! Vectors of entries keyed by byte arrays, read as maps from the keys'
//! bytes to the values.
//!
//! The ledger state holds its deposits and pending operations this way
//! rather than in a `HashMap` keyed by `[u8; 16]` or `[u8; 32]`: vstd's
//! specification of `HashMap` speaks of its contents only for key types that
//! satisfy `vstd::std_specs::hash::obeys_key_model`, which vstd establishes
//! for integers, `bool` and boxes of them, not for arrays, and which could
//! only be assumed here. The vectors carry a unique-key invariant instead,
//! so that each key names at most one entry, as a map's key does.

use vstd::prelude::*;

use crate::bytes::bytes_eq;

verus! {

/// No two entries share a key.
pub open spec fn keys_unique<const N: usize, V>(s: Seq<([u8; N], V)>) -> bool {
    forall|i: int, j: int|
        0 <= i < s.len() && 0 <= j < s.len() && i != j ==> #[trigger] s[i].0@ != #[trigger] s[j].0@
}

/// Some entry has key `k`.
pub open spec fn has_key<const N: usize, V>(s: Seq<([u8; N], V)>, k: Seq<u8>) -> bool {
    exists|i: int| 0 <= i < s.len() && #[trigger] s[i].0@ == k
}

/// The entries as a map from their keys' bytes to their values.
pub open spec fn keyed<const N: usize, V>(s: Seq<([u8; N], V)>) -> Map<Seq<u8>, V> {
    Map::new(
        |k: Seq<u8>| has_key(s, k),
        |k: Seq<u8>| s[choose|i: int| 0 <= i < s.len() && #[trigger] s[i].0@ == k].1,
    )
}

/// With unique keys, the entry at `i` is what the map holds for its key.
pub proof fn lemma_keyed_at<const N: usize, V>(s: Seq<([u8; N], V)>, i: int)
    requires
        keys_unique(s),
        0 <= i < s.len(),
    ensures
        keyed(s).contains_key(s[i].0@),
        keyed(s)[s[i].0@] == s[i].1,
{
    let k = s[i].0@;
    assert(has_key(s, k));
    let j = choose|j: int| 0 <= j < s.len() && #[trigger] s[j].0@ == k;
    if j != i {
        assert(s[i].0@ != s[j].0@);
    }
}

/// Appending an entry under a new key inserts it into the map.
pub proof fn lemma_keyed_push<const N: usize, V>(s: Seq<([u8; N], V)>, e: ([u8; N], V))
    requires
        keys_unique(s),
        !has_key(s, e.0@),
    ensures
        keys_unique(s.push(e)),
        keyed(s.push(e)) == keyed(s).insert(e.0@, e.1),
{
    let t = s.push(e);
    assert forall|i: int, j: int|
        0 <= i < t.len() && 0 <= j < t.len() && i != j implies #[trigger] t[i].0@
        != #[trigger] t[j].0@ by {
        if i < s.len() && j < s.len() {
            assert(t[i] == s[i] && t[j] == s[j]);
        } else if i < s.len() {
            assert(t[i] == s[i]);
        } else {
            assert(t[j] == s[j]);
        }
    }
    assert forall|k: Seq<u8>| #[trigger] has_key(t, k) == (has_key(s, k) || k == e.0@) by {
        if has_key(s, k) {
            let i = choose|i: int| 0 <= i < s.len() && #[trigger] s[i].0@ == k;
            assert(t[i] == s[i]);
        }
        if k == e.0@ {
            assert(t[s.len() as int] == e);
        }
        if has_key(t, k) {
            let i = choose|i: int| 0 <= i < t.len() && #[trigger] t[i].0@ == k;
            if i < s.len() {
                assert(t[i] == s[i]);
            }
        }
    }
    assert forall|k: Seq<u8>| #[trigger] keyed(t).contains_key(k) implies keyed(t)[k] == keyed(
        s,
    ).insert(e.0@, e.1)[k] by {
        let i = choose|i: int| 0 <= i < t.len() && #[trigger] t[i].0@ == k;
        lemma_keyed_at(t, i);
        if i < s.len() {
            assert(t[i] == s[i]);
            lemma_keyed_at(s, i);
        }
    }
    assert(keyed(t) =~= keyed(s).insert(e.0@, e.1));
}

/// Replacing the value at `i` updates the map at its key.
pub proof fn lemma_keyed_update<const N: usize, V>(s: Seq<([u8; N], V)>, i: int, v: V)
    requires
        keys_unique(s),
        0 <= i < s.len(),
    ensures
        keys_unique(s.update(i, (s[i].0, v))),
        keyed(s.update(i, (s[i].0, v))) == keyed(s).insert(s[i].0@, v),
{
    let t = s.update(i, (s[i].0, v));
    assert forall|a: int, b: int|
        0 <= a < t.len() && 0 <= b < t.len() && a != b implies #[trigger] t[a].0@
        != #[trigger] t[b].0@ by {
        assert(t[a].0 == s[a].0 && t[b].0 == s[b].0);
    }
    assert forall|k: Seq<u8>| #[trigger] has_key(t, k) == has_key(s, k) by {
        if has_key(s, k) {
            let j = choose|j: int| 0 <= j < s.len() && #[trigger] s[j].0@ == k;
            assert(t[j].0 == s[j].0);
        }
        if has_key(t, k) {
            let j = choose|j: int| 0 <= j < t.len() && #[trigger] t[j].0@ == k;
            assert(t[j].0 == s[j].0);
        }
    }
    assert forall|k: Seq<u8>| #[trigger] keyed(t).contains_key(k) implies keyed(t)[k] == keyed(
        s,
    ).insert(s[i].0@, v)[k] by {
        let j = choose|j: int| 0 <= j < t.len() && #[trigger] t[j].0@ == k;
        lemma_keyed_at(t, j);
        if j != i {
            assert(t[j] == s[j]);
            lemma_keyed_at(s, j);
        }
    }
    assert(keyed(t) =~= keyed(s).insert(s[i].0@, v));
}

/// Removing the entry at `i` removes its key from the map.
pub proof fn lemma_keyed_remove<const N: usize, V>(s: Seq<([u8; N], V)>, i: int)
    requires
        keys_unique(s),
        0 <= i < s.len(),
    ensures
        keys_unique(s.remove(i)),
        keyed(s.remove(i)) == keyed(s).remove(s[i].0@),
{
    let t = s.remove(i);
    assert forall|a: int, b: int|
        0 <= a < t.len() && 0 <= b < t.len() && a != b implies #[trigger] t[a].0@
        != #[trigger] t[b].0@ by {
        let a2 = if a < i {
            a
        } else {
            a + 1
        };
        let b2 = if b < i {
            b
        } else {
            b + 1
        };
        assert(t[a] == s[a2] && t[b] == s[b2]);
    }
    assert forall|k: Seq<u8>| #[trigger] has_key(t, k) == (has_key(s, k) && k != s[i].0@) by {
        if has_key(s, k) && k != s[i].0@ {
            let j = choose|j: int| 0 <= j < s.len() && #[trigger] s[j].0@ == k;
            if j < i {
                assert(t[j] == s[j]);
            } else {
                assert(t[j - 1] == s[j]);
            }
        }
        if has_key(t, k) {
            let j = choose|j: int| 0 <= j < t.len() && #[trigger] t[j].0@ == k;
            let j2 = if j < i {
                j
            } else {
                j + 1
            };
            assert(t[j] == s[j2]);
        }
    }
    assert forall|k: Seq<u8>| #[trigger] keyed(t).contains_key(k) implies keyed(t)[k] == keyed(
        s,
    ).remove(s[i].0@)[k] by {
        let j = choose|j: int| 0 <= j < t.len() && #[trigger] t[j].0@ == k;
        lemma_keyed_at(t, j);
        let j2 = if j < i {
            j
        } else {
            j + 1
        };
        assert(t[j] == s[j2]);
        lemma_keyed_at(s, j2);
    }
    assert(keyed(t) =~= keyed(s).remove(s[i].0@));
}

/// The position of the entry with key `k`, if any.
pub fn find_key<const N: usize, V>(s: &Vec<([u8; N], V)>, k: &[u8; N]) -> (r: Option<usize>)
    ensures
        match r {
            Some(i) => i < s@.len() && s@[i as int].0@ == k@,
            None => !has_key(s@, k@),
        },
{
    let mut i: usize = 0;
    while i < s.len()
        invariant
            i <= s@.len(),
            forall|j: int| 0 <= j < i ==> #[trigger] s@[j].0@ != k@,
        decreases s@.len() - i,
    {
        if bytes_eq(s[i].0.as_slice(), k.as_slice()) {
            return Some(i);
        }
        i = i + 1;
    }
    None
}

} // verus!
