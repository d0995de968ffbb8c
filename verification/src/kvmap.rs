use vstd::prelude::*;

verus! {

/// A string-keyed map kept as an association list.
///
/// New pairs are appended; a later pair for the same key shadows every
/// earlier one, so the abstract view is a `Map` in which the last write
/// wins. There is no delete operation and no capacity bound, matching
/// the stores built on top of it.
pub struct KvMap<V> {
    pairs: Vec<(String, V)>,
}

/// The map denoted by an association list: pairs are folded in order,
/// so the latest pair for a key supplies its value.
pub open spec fn map_of<V: View>(pairs: Seq<(String, V)>) -> Map<Seq<char>, V::V>
    decreases pairs.len(),
{
    if pairs.len() == 0 {
        Map::empty()
    } else {
        map_of(pairs.drop_last()).insert(pairs.last().0@, pairs.last().1@)
    }
}

impl<V: View> View for KvMap<V> {
    type V = Map<Seq<char>, V::V>;

    closed spec fn view(&self) -> Map<Seq<char>, V::V> {
        map_of(self.pairs@)
    }
}

proof fn lemma_map_of_absent<V: View>(pairs: Seq<(String, V)>, k: Seq<char>)
    requires
        forall|j: int| 0 <= j < pairs.len() ==> pairs[j].0@ != k,
    ensures
        !map_of(pairs).contains_key(k),
    decreases pairs.len(),
{
    if pairs.len() > 0 {
        lemma_map_of_absent(pairs.drop_last(), k);
    }
}

proof fn lemma_map_of_found<V: View>(pairs: Seq<(String, V)>, k: Seq<char>, i: int)
    requires
        0 <= i < pairs.len(),
        pairs[i].0@ == k,
        forall|j: int| i < j < pairs.len() ==> pairs[j].0@ != k,
    ensures
        map_of(pairs).contains_key(k),
        map_of(pairs)[k] == pairs[i].1@,
    decreases pairs.len(),
{
    if i < pairs.len() - 1 {
        lemma_map_of_found(pairs.drop_last(), k, i);
    }
}

proof fn lemma_map_of_finite<V: View>(pairs: Seq<(String, V)>)
    ensures
        map_of(pairs).dom().finite(),
    decreases pairs.len(),
{
    if pairs.len() > 0 {
        lemma_map_of_finite(pairs.drop_last());
    }
}

/// The mapping a `KvMap` denotes has finitely many keys, so inserting
/// under a fresh key grows its domain by exactly one.
pub proof fn lemma_kvmap_finite<V: View>(m: &KvMap<V>)
    ensures
        m@.dom().finite(),
{
    lemma_map_of_finite(m.pairs@);
}

impl<V: View> KvMap<V> {
    /// An empty map.
    pub fn new() -> (r: KvMap<V>)
        ensures
            r@ == Map::<Seq<char>, V::V>::empty(),
    {
        KvMap { pairs: Vec::new() }
    }

    /// Inserts `value` under `key`, overwriting any earlier value.
    pub fn insert(&mut self, key: String, value: V)
        ensures
            final(self)@ == old(self)@.insert(key@, value@),
    {
        let ghost old_pairs = self.pairs@;
        let ghost kv = (key, value);
        self.pairs.push((key, value));
        proof {
            assert(self.pairs@.drop_last() =~= old_pairs);
            assert(self.pairs@.last() == kv);
        }
    }

    /// Looks `key` up; `None` exactly when no value was ever inserted for it.
    pub fn get(&self, key: &str) -> (r: Option<&V>)
        ensures
            match r {
                Some(v) => self@.contains_key(key@) && v@ == self@[key@],
                None => !self@.contains_key(key@),
            },
    {
        let k = key.to_owned();
        let mut i: usize = self.pairs.len();
        while i > 0
            invariant
                i <= self.pairs.len(),
                k@ == key@,
                forall|j: int| i <= j < self.pairs@.len() ==> self.pairs@[j].0@ != key@,
            decreases i,
        {
            i = i - 1;
            if self.pairs[i].0 == k {
                proof {
                    lemma_map_of_found(self.pairs@, key@, i as int);
                }
                return Some(&self.pairs[i].1);
            }
        }
        proof {
            lemma_map_of_absent(self.pairs@, key@);
        }
        None
    }
}

} // verus!
