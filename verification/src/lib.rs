#![allow(non_snake_case)]

use vstd::prelude::*;

pub mod blob_store;
pub mod file_ops;
pub mod flags;
pub mod hash_store;
pub mod kvmap;

use crate::blob_store::BlobStore;
use crate::file_ops::FakeFileOps;
use crate::flags::Flags;
use crate::hash_store::HashStore;
use crate::hash_store::IHashStore;

verus! {

/// Assembles the storage core, leaves first: the configuration (with an
/// empty root directory path, the default) and the in-memory
/// file-operations variant, then the durable tier over both, then the
/// cache tier over the durable tier. Each component takes its
/// already-constructed dependencies at its constructor; a caller
/// wanting another file-operations implementation assembles the same
/// way from the constructors.
pub fn setupModule() -> (r: HashStore<FakeFileOps>)
    ensures
        r.cache() == Map::<Seq<char>, Seq<char>>::empty(),
        forall|k: Seq<char>| #[trigger] r.fallback(k) is None,
{
    let flags = Flags::new(String::new());
    let fileOps = FakeFileOps::new();
    let blob = BlobStore::new(flags, fileOps);
    HashStore::new(Some(blob))
}

} // verus!
