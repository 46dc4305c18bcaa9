use vstd::prelude::*;

use crate::event::{Key, MouseButton};

verus! {

/// A key of a [`PressedTable`]: a value whose equality can be tested.
pub trait TableKey: Sized {
    fn same(&self, other: &Self) -> (r: bool)
        ensures
            r == (*self == *other),
    ;
}

impl TableKey for Key {
    fn same(&self, other: &Self) -> (r: bool) {
        *self == *other
    }
}

impl TableKey for MouseButton {
    fn same(&self, other: &Self) -> (r: bool) {
        *self == *other
    }
}

/// No key occurs twice among the entries.
pub open spec fn unique_keys<K, V>(s: Seq<(K, V)>) -> bool {
    forall|i: int, j: int|
        0 <= i < s.len() && 0 <= j < s.len() && i != j ==> #[trigger] s[i].0 != #[trigger] s[j].0
}

/// Whether some entry has key `k`.
pub open spec fn has_key<K, V>(s: Seq<(K, V)>, k: K) -> bool {
    exists|i: int| 0 <= i < s.len() && #[trigger] s[i].0 == k
}

/// The index of the entry with key `k`, or -1 where there is none.
pub open spec fn index_of<K, V>(s: Seq<(K, V)>, k: K) -> int {
    if has_key(s, k) {
        choose|i: int| 0 <= i < s.len() && #[trigger] s[i].0 == k
    } else {
        -1
    }
}

/// The value stored under `k`.
pub open spec fn lookup<K, V>(s: Seq<(K, V)>, k: K) -> Option<V> {
    if has_key(s, k) {
        Some(s[index_of(s, k)].1)
    } else {
        None
    }
}

/// The entries after storing `v` under `k`: an entry with that key is
/// replaced in place, otherwise the pair is appended.
pub open spec fn stored<K, V>(s: Seq<(K, V)>, k: K, v: V) -> Seq<(K, V)> {
    if has_key(s, k) {
        s.update(index_of(s, k), (k, v))
    } else {
        s.push((k, v))
    }
}

/// The entries after taking out the one with key `k`, if any; the others keep
/// their order.
pub open spec fn taken<K, V>(s: Seq<(K, V)>, k: K) -> Seq<(K, V)> {
    if has_key(s, k) {
        s.remove(index_of(s, k))
    } else {
        s
    }
}

pub proof fn lemma_index_of<K, V>(s: Seq<(K, V)>, k: K)
    requires
        unique_keys(s),
    ensures
        has_key(s, k) ==> 0 <= index_of(s, k) < s.len() && s[index_of(s, k)].0 == k,
        has_key(s, k) ==> forall|i: int| 0 <= i < s.len() && s[i].0 == k ==> i == index_of(s, k),
        !has_key(s, k) ==> forall|i: int| 0 <= i < s.len() ==> s[i].0 != k,
{
}

/// Looking a key up after storing under it gives the stored value; other keys
/// are unaffected; keys stay unique.
pub proof fn lemma_stored<K, V>(s: Seq<(K, V)>, k: K, v: V)
    requires
        unique_keys(s),
    ensures
        unique_keys(stored(s, k, v)),
        lookup(stored(s, k, v), k) == Some(v),
        forall|k2: K| k2 != k ==> lookup(stored(s, k, v), k2) == lookup(s, k2),
{
    lemma_index_of(s, k);
    let t = stored(s, k, v);
    assert(t[index_of(t, k)].0 == k) by {
        assert(has_key(t, k)) by {
            if has_key(s, k) {
                assert(t[index_of(s, k)].0 == k);
            } else {
                assert(t[s.len() as int].0 == k);
            }
        }
    }
    assert(unique_keys(t));
    lemma_index_of(t, k);
    if has_key(s, k) {
        assert(t[index_of(s, k)].0 == k);
        assert(index_of(t, k) == index_of(s, k));
    } else {
        assert(t[s.len() as int].0 == k);
        assert(index_of(t, k) == s.len());
    }
    assert forall|k2: K| k2 != k implies lookup(t, k2) == lookup(s, k2) by {
        lemma_index_of(s, k2);
        lemma_index_of(t, k2);
        if has_key(s, k2) {
            assert(t[index_of(s, k2)].0 == k2);
            assert(has_key(t, k2));
        }
        if has_key(t, k2) {
            let i = index_of(t, k2);
            assert(s[i].0 == k2);
            assert(has_key(s, k2));
        }
    }
}

/// Taking a key out gives back what was stored under it; afterwards it has no
/// value, other keys are unaffected and keys stay unique.
pub proof fn lemma_taken<K, V>(s: Seq<(K, V)>, k: K)
    requires
        unique_keys(s),
    ensures
        unique_keys(taken(s, k)),
        lookup(taken(s, k), k) == None::<V>,
        forall|k2: K| k2 != k ==> lookup(taken(s, k), k2) == lookup(s, k2),
{
    lemma_index_of(s, k);
    let t = taken(s, k);
    if has_key(s, k) {
        let j = index_of(s, k);
        assert forall|i: int, l: int|
            0 <= i < t.len() && 0 <= l < t.len() && i != l implies #[trigger] t[i].0 != #[trigger] t[l].0 by {
            let si = if i < j { i } else { i + 1 };
            let sl = if l < j { l } else { l + 1 };
            assert(t[i] == s[si]);
            assert(t[l] == s[sl]);
        }
        assert forall|i: int| 0 <= i < t.len() implies t[i].0 != k by {
            let si = if i < j { i } else { i + 1 };
            assert(t[i] == s[si]);
        }
        assert(!has_key(t, k));
        assert forall|k2: K| k2 != k implies lookup(t, k2) == lookup(s, k2) by {
            lemma_index_of(s, k2);
            lemma_index_of(t, k2);
            if has_key(s, k2) {
                let i = index_of(s, k2);
                let ti = if i < j { i } else { i - 1 };
                assert(t[ti] == s[i]);
                assert(has_key(t, k2));
            }
            if has_key(t, k2) {
                let i = index_of(t, k2);
                let si = if i < j { i } else { i + 1 };
                assert(t[i] == s[si]);
                assert(has_key(s, k2));
            }
        }
    }
}

/// The position of the entry with key `k`.
pub fn find<K: TableKey, V>(entries: &Vec<(K, V)>, k: &K) -> (r: Option<usize>)
    requires
        unique_keys(entries@),
    ensures
        r is Some <==> has_key(entries@, *k),
        r matches Some(i) ==> i as int == index_of(entries@, *k),
{
    let mut i: usize = 0;
    while i < entries.len()
        invariant
            i <= entries.len(),
            unique_keys(entries@),
            forall|j: int| 0 <= j < i ==> entries@[j].0 != *k,
        decreases entries.len() - i,
    {
        if entries[i].0.same(k) {
            proof {
                lemma_index_of(entries@, *k);
            }
            return Some(i);
        }
        i = i + 1;
    }
    None
}

/// Stores `v` under `k`, replacing an entry with that key.
pub fn store<K: TableKey, V>(entries: &mut Vec<(K, V)>, k: K, v: V)
    requires
        unique_keys(old(entries)@),
    ensures
        final(entries)@ == stored(old(entries)@, k, v),
        unique_keys(final(entries)@),
{
    proof {
        lemma_stored(entries@, k, v);
    }
    match find(entries, &k) {
        Some(i) => {
            entries.set(i, (k, v));
        },
        None => {
            entries.push((k, v));
        },
    }
}

/// Takes out the entry with key `k` and gives back its value.
pub fn take<K: TableKey, V>(entries: &mut Vec<(K, V)>, k: &K) -> (r: Option<V>)
    requires
        unique_keys(old(entries)@),
    ensures
        r == lookup(old(entries)@, *k),
        final(entries)@ == taken(old(entries)@, *k),
        unique_keys(final(entries)@),
{
    proof {
        lemma_taken(entries@, *k);
        lemma_index_of(entries@, *k);
    }
    match find(entries, k) {
        Some(i) => {
            let (_, v) = entries.remove(i);
            Some(v)
        },
        None => None,
    }
}

} // verus!
