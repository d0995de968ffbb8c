use vstd::prelude::*;

use crate::blob_store::BlobStore;
use crate::blob_store::IBlobStore;
use crate::blob_store::opt_str_view;
use crate::file_ops::IFileOps;
use crate::kvmap::KvMap;
use crate::kvmap::lemma_kvmap_finite;

verus! {

/// What a tiered read answers: the cached value when the cache holds the
/// key, otherwise whatever the durable tier reports (including absence).
pub open spec fn tiered_lookup(
    cache: Map<Seq<char>, Seq<char>>,
    fallback: Option<Seq<char>>,
    key: Seq<char>,
) -> Option<Seq<char>> {
    if cache.contains_key(key) {
        Some(cache[key])
    } else {
        fallback
    }
}

/// The cache tier: an in-memory key-to-value map consulted first on
/// reads, with an optional durable tier answering on a miss.
///
/// Writes go to memory only (no propagation to the durable tier), and a
/// miss is not written back into memory: reads never mutate the store.
pub trait IHashStore: Sized {
    /// The in-memory mapping.
    spec fn cache(&self) -> Map<Seq<char>, Seq<char>>;

    /// What the durable tier behind this store would answer for `key`;
    /// `None` when there is no durable tier or it reports absence.
    spec fn fallback(&self, key: Seq<char>) -> Option<Seq<char>>;

    fn putString(&mut self, description: &str, content: &str)
        ensures
            final(self).cache() == old(self).cache().insert(description@, content@),
            forall|k: Seq<char>| #[trigger] final(self).fallback(k) == old(self).fallback(k),
    ;

    fn getString(&self, description: &str) -> (r: Option<String>)
        ensures
            opt_str_view(r) == tiered_lookup(
                self.cache(),
                self.fallback(description@),
                description@,
            ),
    ;
}

/// The cache tier over an optional durable backing store. With `None`
/// it is the stand-alone variant: a miss is answered with absence.
pub struct HashStore<F: IFileOps> {
    mBlobStore: Option<BlobStore<F>>,
    mCache: KvMap<String>,
}

impl<F: IFileOps> HashStore<F> {
    /// Builds the cache tier, empty, over an already-constructed durable
    /// tier, or over none for the stand-alone variant.
    pub fn new(mBlobStore: Option<BlobStore<F>>) -> (r: HashStore<F>)
        ensures
            r.cache() == Map::<Seq<char>, Seq<char>>::empty(),
            forall|k: Seq<char>| #[trigger] r.fallback(k) == (match mBlobStore {
                Some(b) => b.lookup(k),
                None => None::<Seq<char>>,
            }),
    {
        HashStore { mBlobStore, mCache: KvMap::new() }
    }
}

impl<F: IFileOps> IHashStore for HashStore<F> {
    closed spec fn cache(&self) -> Map<Seq<char>, Seq<char>> {
        self.mCache@
    }

    closed spec fn fallback(&self, key: Seq<char>) -> Option<Seq<char>> {
        match self.mBlobStore {
            Some(b) => b.lookup(key),
            None => None,
        }
    }

    fn putString(&mut self, description: &str, content: &str) {
        self.mCache.insert(description.to_owned(), content.to_owned());
    }

    fn getString(&self, description: &str) -> (r: Option<String>) {
        match self.mCache.get(description) {
            Some(v) => Some(v.clone()),
            None => match &self.mBlobStore {
                Some(b) => b.getString(description),
                None => None,
            },
        }
    }
}

/// The cache's mapping has finitely many keys, so a put under a fresh
/// key grows it by exactly one entry.
pub proof fn lemma_cache_finite<F: IFileOps>(s: &HashStore<F>)
    ensures
        s.cache().dom().finite(),
{
    lemma_kvmap_finite(&s.mCache);
}

/// For a key the cache does not hold, a tiered read answers exactly what
/// the durable tier reports; with no durable tier that is absence.
pub proof fn lemma_miss_is_absence(cache: Map<Seq<char>, Seq<char>>, k: Seq<char>)
    requires
        !cache.contains_key(k),
    ensures
        tiered_lookup(cache, None, k) is None,
{
}

/// Fallback: for a key the cache does not hold but the durable tier
/// answers with `d`, a tiered read answers `d`.
pub proof fn lemma_fallback(cache: Map<Seq<char>, Seq<char>>, k: Seq<char>, d: Seq<char>)
    requires
        !cache.contains_key(k),
    ensures
        tiered_lookup(cache, Some(d), k) == Some(d),
{
}

/// Read-your-write: writing `v` under `k` makes a tiered read of `k`
/// answer `v`, whatever the durable tier holds.
pub proof fn lemma_read_your_write(
    cache: Map<Seq<char>, Seq<char>>,
    fallback: Option<Seq<char>>,
    k: Seq<char>,
    v: Seq<char>,
)
    ensures
        tiered_lookup(cache.insert(k, v), fallback, k) == Some(v),
{
}

/// Last write wins: after writing `v1` and then `v2` under `k`, a tiered
/// read of `k` answers `v2`.
pub proof fn lemma_last_write_wins(
    cache: Map<Seq<char>, Seq<char>>,
    fallback: Option<Seq<char>>,
    k: Seq<char>,
    v1: Seq<char>,
    v2: Seq<char>,
)
    ensures
        tiered_lookup(cache.insert(k, v1).insert(k, v2), fallback, k) == Some(v2),
{
}

} // verus!
