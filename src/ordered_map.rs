//! A map from string keys to values that keeps its entries in the order in
//! which their keys were first inserted.

use vstd::prelude::*;

verus! {

/// Index of the last entry whose key is `k`, or -1 when no entry has it.
pub open spec fn key_position<V>(entries: Seq<(Seq<char>, V)>, k: Seq<char>) -> int
    decreases entries.len(),
{
    if entries.len() == 0 {
        -1
    } else if entries.last().0 == k {
        entries.len() - 1
    } else {
        key_position(entries.drop_last(), k)
    }
}

/// The entries after associating `k` with `v`: an entry with key `k` keeps its
/// place and takes the new value; without one, the pair is added at the end.
pub open spec fn insert_entry<V>(entries: Seq<(Seq<char>, V)>, k: Seq<char>, v: V) -> Seq<(Seq<char>, V)> {
    let p = key_position(entries, k);
    if p >= 0 {
        entries.update(p, (k, v))
    } else {
        entries.push((k, v))
    }
}

/// The entries of an empty map into which each pair of `pairs` is inserted in
/// order (a later pair with an earlier key replaces its value).
pub open spec fn entries_from<V>(pairs: Seq<(Seq<char>, V)>) -> Seq<(Seq<char>, V)>
    decreases pairs.len(),
{
    if pairs.len() == 0 {
        Seq::empty()
    } else {
        insert_entry(entries_from(pairs.drop_last()), pairs.last().0, pairs.last().1)
    }
}

/// No two entries share a key.
pub open spec fn keys_unique<V>(entries: Seq<(Seq<char>, V)>) -> bool {
    forall|i: int, j: int|
        0 <= i < j < entries.len() ==> #[trigger] entries[i].0 != #[trigger] entries[j].0
}

/// `key_position` finds the last entry with key `k`, and nothing when there is none.
pub proof fn lemma_key_position<V>(entries: Seq<(Seq<char>, V)>, k: Seq<char>)
    ensures
        ({
            let p = key_position(entries, k);
            ||| p == -1 && forall|i: int| 0 <= i < entries.len() ==> #[trigger] entries[i].0 != k
            ||| 0 <= p < entries.len() && entries[p].0 == k
                && forall|i: int| p < i < entries.len() ==> #[trigger] entries[i].0 != k
        }),
    decreases entries.len(),
{
    if entries.len() > 0 && entries.last().0 != k {
        let rest = entries.drop_last();
        lemma_key_position(rest, k);
        assert forall|i: int| 0 <= i < entries.len() - 1 implies #[trigger] entries[i] == rest[i] by {}
        let p = key_position(rest, k);
        assert(key_position(entries, k) == p);
        if p == -1 {
            assert forall|i: int| 0 <= i < entries.len() implies #[trigger] entries[i].0 != k by {
                if i < entries.len() - 1 {
                    assert(rest[i].0 != k);
                }
            }
        } else {
            assert forall|i: int| p < i < entries.len() implies #[trigger] entries[i].0 != k by {
                if i < entries.len() - 1 {
                    assert(rest[i].0 != k);
                }
            }
        }
    }
}

/// With unique keys, the entry with key `k` is the one `key_position` finds.
pub proof fn lemma_key_position_unique<V>(entries: Seq<(Seq<char>, V)>, k: Seq<char>, j: int)
    requires
        keys_unique(entries),
        0 <= j < entries.len(),
        entries[j].0 == k,
    ensures
        key_position(entries, k) == j,
{
    lemma_key_position(entries, k);
    let p = key_position(entries, k);
    if p != j {
        if p < j {
            assert(entries[j].0 != k);
        } else {
            assert(entries[j].0 != entries[p].0);
        }
    }
}

/// Inserting keeps keys unique.
pub proof fn lemma_insert_entry_unique<V>(entries: Seq<(Seq<char>, V)>, k: Seq<char>, v: V)
    requires
        keys_unique(entries),
    ensures
        keys_unique(insert_entry(entries, k, v)),
{
    lemma_key_position(entries, k);
    let r = insert_entry(entries, k, v);
    let p = key_position(entries, k);
    assert forall|i: int, j: int| 0 <= i < j < r.len() implies #[trigger] r[i].0 != #[trigger] r[j].0 by {
        if p >= 0 {
            assert(r[i].0 == entries[i].0 && r[j].0 == entries[j].0);
        } else if j == entries.len() {
            assert(entries[i].0 != k);
        } else {
            assert(r[i].0 == entries[i].0 && r[j].0 == entries[j].0);
        }
    }
}

/// A map built by `entries_from` has unique keys.
pub proof fn lemma_entries_from_unique<V>(pairs: Seq<(Seq<char>, V)>)
    ensures
        keys_unique(entries_from(pairs)),
    decreases pairs.len(),
{
    if pairs.len() > 0 {
        lemma_entries_from_unique(pairs.drop_last());
        lemma_insert_entry_unique(entries_from(pairs.drop_last()), pairs.last().0, pairs.last().1);
    }
}

/// Map from string keys to values, in order of first insertion.
#[derive(Debug, Clone, PartialEq, Eq)]
pub struct OrderedMap<V> {
    pub entries: Vec<(String, V)>,
}

impl<V: View> View for OrderedMap<V> {
    type V = Seq<(Seq<char>, V::V)>;

    open spec fn view(&self) -> Seq<(Seq<char>, V::V)> {
        self.entries@.map_values(|e: (String, V)| (e.0@, e.1@))
    }
}

impl<V: View> OrderedMap<V> {
    /// Keys are unique.
    pub open spec fn wf(&self) -> bool {
        keys_unique(self@)
    }

    /// An empty map.
    pub fn new() -> (r: Self)
        ensures
            r@ == Seq::<(Seq<char>, V::V)>::empty(),
            r.wf(),
    {
        let r = OrderedMap { entries: Vec::new() };
        assert(r@ =~= Seq::<(Seq<char>, V::V)>::empty());
        r
    }

    /// Number of entries.
    pub fn len(&self) -> (r: usize)
        ensures
            r == self@.len(),
    {
        self.entries.len()
    }

    /// Whether the map has no entry.
    pub fn is_empty(&self) -> (r: bool)
        ensures
            r == (self@.len() == 0),
    {
        self.entries.len() == 0
    }

    /// Index of the entry whose key is `key`.
    fn find(&self, key: &String) -> (r: Option<usize>)
        requires
            self.wf(),
        ensures
            r is None ==> key_position(self@, key@) == -1,
            r matches Some(i) ==> i < self@.len() && key_position(self@, key@) == i,
    {
        let mut i: usize = 0;
        while i < self.entries.len()
            invariant
                i <= self.entries.len(),
                self.wf(),
                forall|j: int| 0 <= j < i ==> #[trigger] self@[j].0 != key@,
            decreases self.entries.len() - i,
        {
            if self.entries[i].0 == *key {
                proof {
                    lemma_key_position_unique(self@, key@, i as int);
                }
                return Some(i);
            }
            i = i + 1;
        }
        proof {
            lemma_key_position(self@, key@);
            let p = key_position(self@, key@);
            if p >= 0 {
                assert(self@[p].0 != key@);
            }
        }
        None
    }

    /// Associates `key` with `value`. An existing entry with that key keeps
    /// its place and takes the new value; otherwise the entry goes last.
    pub fn insert(&mut self, key: String, value: V)
        requires
            old(self).wf(),
        ensures
            final(self)@ == insert_entry(old(self)@, key@, value@),
            final(self).wf(),
    {
        proof {
            lemma_insert_entry_unique(self@, key@, value@);
        }
        let ghost old_view = self@;
        match self.find(&key) {
            Some(i) => {
                self.entries.set(i, (key, value));
                assert(self@ =~= insert_entry(old_view, key@, value@));
            },
            None => {
                self.entries.push((key, value));
                assert(self@ =~= insert_entry(old_view, key@, value@));
            },
        }
    }

    /// The value associated with `key`, if any.
    pub fn get(&self, key: &String) -> (r: Option<&V>)
        requires
            self.wf(),
        ensures
            r is Some <==> key_position(self@, key@) >= 0,
            r matches Some(v) ==> v@ == self@[key_position(self@, key@)].1,
    {
        match self.find(key) {
            Some(i) => Some(&self.entries[i].1),
            None => None,
        }
    }
}

} // verus!
