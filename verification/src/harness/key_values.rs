//! A string-keyed lookup table that behaves as a map filled in order: a
//! later value for a key replaces the earlier one. Used for the `KEY=VALUE`
//! text the VM harness reads.

use vstd::prelude::*;


verus! {

/// The keys of a list of pairs, in order.
pub open spec fn kv_keys(entries: Seq<(Seq<char>, Seq<char>)>) -> Seq<Seq<char>> {
    entries.map_values(|p: (Seq<char>, Seq<char>)| p.0)
}

/// The table after setting `key` to `value`: replaced in place when
/// present, appended otherwise.
pub open spec fn kv_insert(entries: Seq<(Seq<char>, Seq<char>)>, key: Seq<char>, value: Seq<char>) -> Seq<
    (Seq<char>, Seq<char>),
> {
    match kv_keys(entries).index_of_first(key) {
        Some(i) => entries.update(i, (key, value)),
        None => entries.push((key, value)),
    }
}

/// The value the table holds for `key`.
pub open spec fn kv_get(entries: Seq<(Seq<char>, Seq<char>)>, key: Seq<char>) -> Option<Seq<char>> {
    match kv_keys(entries).index_of_first(key) {
        Some(i) => Some(entries[i].1),
        None => None,
    }
}

/// The table filled, in order, from the pairs that `pair_of` finds in the
/// lines.
pub open spec fn collect_pairs(lines: Seq<Seq<char>>, pair_of: spec_fn(Seq<char>) -> Option<(Seq<char>, Seq<char>)>) -> Seq<
    (Seq<char>, Seq<char>),
>
    decreases lines.len(),
{
    if lines.len() == 0 {
        Seq::empty()
    } else {
        let before = collect_pairs(lines.drop_last(), pair_of);
        match pair_of(lines.last()) {
            Some((k, v)) => kv_insert(before, k, v),
            None => before,
        }
    }
}

/// A string-keyed table filled in order, later values replacing earlier
/// ones.
pub struct KeyValues {
    entries: Vec<(String, String)>,
}

impl View for KeyValues {
    type V = Seq<(Seq<char>, Seq<char>)>;

    closed spec fn view(&self) -> Seq<(Seq<char>, Seq<char>)> {
        self.entries@.map_values(|p: (String, String)| (p.0@, p.1@))
    }
}

impl KeyValues {
    /// An empty table.
    pub fn new() -> (r: Self)
        ensures
            r@ == Seq::<(Seq<char>, Seq<char>)>::empty(),
    {
        let r = KeyValues { entries: Vec::new() };
        assert(r@ =~= Seq::<(Seq<char>, Seq<char>)>::empty());
        r
    }

    /// The position of `key`.
    fn position(&self, key: &str) -> (r: Option<usize>)
        ensures
            kv_keys(self@).index_of_first(key@) == match r {
                Some(i) => Some(i as int),
                None => None::<int>,
            },
            r matches Some(i) ==> i < self@.len(),
    {
        let ghost keys = kv_keys(self@);
        let mut i: usize = 0;
        while i < self.entries.len()
            invariant
                keys == kv_keys(self@),
                keys.len() == self.entries@.len(),
                i <= self.entries@.len(),
                forall|j: int| 0 <= j < i ==> keys[j] != key@,
            decreases self.entries.len() - i,
        {
            if crate::text::str_equal(self.entries[i].0.as_str(), key) {
                proof {
                    assert(keys[i as int] == key@);
                    crate::speech::host::lemma_first_index_is(keys, key@, i as int);
                }
                return Some(i);
            }
            assert(keys[i as int] != key@);
            i = i + 1;
        }
        proof {
            crate::speech::host::lemma_first_index_none(keys, key@);
        }
        None
    }

    /// Sets `key` to `value`.
    pub fn insert(&mut self, key: String, value: String)
        ensures
            final(self)@ == kv_insert(old(self)@, key@, value@),
    {
        let ghost kv = key@;
        let ghost vv = value@;
        match self.position(key.as_str()) {
            Some(i) => {
                self.entries.set(i, (key, value));
                assert(self@ =~= old(self)@.update(i as int, (kv, vv)));
            },
            None => {
                self.entries.push((key, value));
                assert(self@ =~= old(self)@.push((kv, vv)));
            },
        }
    }

    /// The value held for `key`.
    pub fn get(&self, key: &str) -> (r: Option<&String>)
        ensures
            match kv_get(self@, key@) {
                Some(v) => r matches Some(x) && x@ == v,
                None => r is None,
            },
    {
        match self.position(key) {
            Some(i) => Some(&self.entries[i].1),
            None => None,
        }
    }

    /// The number of distinct keys.
    pub fn len(&self) -> (r: usize)
        ensures
            r == self@.len(),
    {
        self.entries.len()
    }
}

/// What a set writes is what a read gives back, and other keys keep their
/// values.
pub proof fn law_kv_read_after_write(entries: Seq<(Seq<char>, Seq<char>)>, key: Seq<char>, value: Seq<char>, other: Seq<char>)
    ensures
        kv_get(kv_insert(entries, key, value), key) == Some(value),
        other != key ==> kv_get(kv_insert(entries, key, value), other) == kv_get(entries, other),
{
    let keys = kv_keys(entries);
    let after = kv_insert(entries, key, value);
    let after_keys = kv_keys(after);
    keys.index_of_first_ensures(key);
    keys.index_of_first_ensures(other);
    match keys.index_of_first(key) {
        Some(i) => {
            assert forall|j: int| 0 <= j < i implies after_keys[j] != key by {
                assert(keys[j] != key);
            }
            crate::speech::host::lemma_first_index_is(after_keys, key, i);
            if other != key {
                match keys.index_of_first(other) {
                    Some(k) => {
                        assert(k != i);
                        assert forall|j: int| 0 <= j < k implies after_keys[j] != other by {
                            assert(keys[j] != other);
                        }
                        crate::speech::host::lemma_first_index_is(after_keys, other, k);
                    },
                    None => {
                        assert forall|j: int| 0 <= j < after_keys.len() implies after_keys[j] != other by {
                            if j != i {
                                assert(keys[j] != other);
                            }
                        }
                        crate::speech::host::lemma_first_index_none(after_keys, other);
                    },
                }
            }
        },
        None => {
            let n = entries.len() as int;
            assert forall|j: int| 0 <= j < n implies after_keys[j] != key by {
                assert(keys[j] != key);
            }
            crate::speech::host::lemma_first_index_is(after_keys, key, n);
            if other != key {
                match keys.index_of_first(other) {
                    Some(k) => {
                        assert forall|j: int| 0 <= j < k implies after_keys[j] != other by {
                            assert(keys[j] != other);
                        }
                        crate::speech::host::lemma_first_index_is(after_keys, other, k);
                    },
                    None => {
                        assert forall|j: int| 0 <= j < after_keys.len() implies after_keys[j] != other by {
                            if j < n {
                                assert(keys[j] != other);
                            }
                        }
                        crate::speech::host::lemma_first_index_none(after_keys, other);
                    },
                }
            }
        },
    }
}

} // verus!
