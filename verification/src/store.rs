//! An insertion-ordered mapping from identifiers to resolved objects.

use vstd::prelude::*;

verus! {

/// The mathematical content of an [`IdMap`]: later entries with the
/// same key override earlier ones.
pub open spec fn id_map_of<V: View>(s: Seq<(u64, V)>) -> Map<u64, V::V>
    decreases s.len(),
{
    if s.len() == 0 {
        Map::empty()
    } else {
        id_map_of(s.drop_last()).insert(s.last().0, s.last().1@)
    }
}

proof fn lemma_id_map_absent<V: View>(s: Seq<(u64, V)>, key: u64)
    requires
        forall|i: int| 0 <= i < s.len() ==> (#[trigger] s[i]).0 != key,
    ensures
        !id_map_of(s).contains_key(key),
    decreases s.len(),
{
    if s.len() > 0 {
        lemma_id_map_absent(s.drop_last(), key);
    }
}

proof fn lemma_id_map_get<V: View>(s: Seq<(u64, V)>, j: int, key: u64)
    requires
        0 <= j < s.len(),
        s[j].0 == key,
        forall|i: int| j < i < s.len() ==> (#[trigger] s[i]).0 != key,
    ensures
        id_map_of(s).contains_key(key),
        id_map_of(s)[key] == s[j].1@,
    decreases s.len(),
{
    if j < s.len() - 1 {
        lemma_id_map_get(s.drop_last(), j, key);
    }
}

/// A mapping from 64-bit identifiers to resolved objects, keeping the
/// entries in insertion order.
#[derive(Debug, PartialEq)]
pub struct IdMap<V> {
    entries: Vec<(u64, V)>,
}

impl<V: View> View for IdMap<V> {
    type V = Map<u64, V::V>;

    closed spec fn view(&self) -> Map<u64, V::V> {
        id_map_of(self.entries@)
    }
}

impl<V: View> IdMap<V> {
    /// An empty mapping.
    pub fn new() -> (r: Self)
        ensures
            r@ == Map::<u64, V::V>::empty(),
    {
        IdMap { entries: Vec::new() }
    }

    /// Bind `key` to `value`, overriding any earlier binding.
    pub fn insert(&mut self, key: u64, value: V)
        ensures
            final(self)@ == old(self)@.insert(key, value@),
    {
        self.entries.push((key, value));
        proof {
            assert(self.entries@.drop_last() =~= old(self).entries@);
        }
    }

    /// Look `key` up; the most recent binding wins.
    pub fn get(&self, key: u64) -> (r: Option<&V>)
        ensures
            match r {
                Some(v) => self@.contains_key(key) && v@ == self@[key],
                None => !self@.contains_key(key),
            },
    {
        let mut i: usize = self.entries.len();
        while i > 0
            invariant
                i <= self.entries.len(),
                forall|j: int|
                    i <= j < self.entries@.len() ==> (#[trigger] self.entries@[j]).0 != key,
            decreases i,
        {
            i = i - 1;
            if self.entries[i].0 == key {
                proof {
                    lemma_id_map_get(self.entries@, i as int, key);
                }
                return Some(&self.entries[i].1);
            }
        }
        proof {
            lemma_id_map_absent(self.entries@, key);
        }
        None
    }

    /// Whether the mapping holds no binding at all.
    pub fn is_empty(&self) -> (r: bool)
        ensures
            r == (self@ == Map::<u64, V::V>::empty()),
    {
        proof {
            if self.entries@.len() > 0 {
                let last = self.entries@.len() - 1;
                lemma_id_map_get(self.entries@, last, self.entries@[last].0);
            }
        }
        self.entries.len() == 0
    }
}

} // verus!
