use vstd::prelude::*;

use crate::file_ops::FileEntryView;
use crate::file_ops::IFileOps;
use crate::file_ops::read_of;
use crate::flags::Flags;
use crate::flags::IFlags;
use vstd::string::StringExecFns;
use vstd::string::StringSliceAdditionalSpecFns;
use vstd::utf8::decode_utf8;
use vstd::utf8::encode_utf8;
use vstd::utf8::encode_utf8_decode_utf8;
use vstd::utf8::encode_utf8_valid_utf8;
use vstd::utf8::valid_utf8;

verus! {

/// The value sequence a `get` answer denotes: `None` for absence,
/// otherwise the characters of the returned string.
pub open spec fn opt_str_view(r: Option<String>) -> Option<Seq<char>> {
    match r {
        Some(s) => Some(s@),
        None => None,
    }
}

/// The path a key's record is materialized at: the configured root
/// directory, a separator, and the key.
pub open spec fn path_of(root: Seq<char>, key: Seq<char>) -> Seq<char> {
    root + seq!['/'] + key
}

/// What the durable tier answers for `key` over a recorded file table:
/// the decoded text of the file at the key's derived path, or absence
/// when no file is recorded there or its bytes are not valid text.
pub open spec fn durable_lookup(
    root: Seq<char>,
    entries: Map<Seq<char>, FileEntryView>,
    key: Seq<char>,
) -> Option<Seq<char>> {
    let path = path_of(root, key);
    if entries.contains_key(path) && entries[path].mIsFile && valid_utf8(read_of(entries, path)) {
        Some(decode_utf8(read_of(entries, path)))
    } else {
        None
    }
}

/// The durable blob tier: a key-to-value store that persists each
/// record through the file-operations capability, at a path derived
/// from the configured root directory and the key.
pub trait IBlobStore: Sized {
    /// What `getString` answers for `key`: `None` for absence.
    spec fn lookup(&self, key: Seq<char>) -> Option<Seq<char>>;

    fn putString(&mut self, description: &str, content: &str)
        ensures
            final(self).lookup(description@) == Some(content@),
            forall|k: Seq<char>|
                k != description@ ==> #[trigger] final(self).lookup(k) == old(self).lookup(k),
    ;

    fn getString(&self, description: &str) -> (r: Option<String>)
        ensures
            opt_str_view(r) == self.lookup(description@),
    ;
}

/// Relies on String::from_utf8: decoding succeeds exactly on valid
/// UTF-8 bytes, and yields the characters those bytes encode.
#[verifier::external_body]
fn string_from_utf8(bytes: Vec<u8>) -> (r: Option<String>)
    ensures
        match r {
            Some(s) => valid_utf8(bytes@) && s@ == decode_utf8(bytes@),
            None => !valid_utf8(bytes@),
        },
{
    String::from_utf8(bytes).ok()
}

/// Distinct keys derive distinct paths under one root, so a write for
/// one key cannot disturb another key's record.
proof fn lemma_path_of_injective(root: Seq<char>, k1: Seq<char>, k2: Seq<char>)
    requires
        path_of(root, k1) == path_of(root, k2),
    ensures
        k1 == k2,
{
    let p1 = path_of(root, k1);
    let p2 = path_of(root, k2);
    assert(p1.len() == root.len() + 1 + k1.len());
    assert(p2.len() == root.len() + 1 + k2.len());
    assert forall|i: int| 0 <= i < k1.len() implies k1[i] == k2[i] by {
        assert(p1[root.len() + 1 + i] == k1[i]);
        assert(p2[root.len() + 1 + i] == k2[i]);
    }
    assert(k1 =~= k2);
}

/// The blob tier over its injected configuration and file-operations
/// capability; both are owned and chosen at construction.
pub struct BlobStore<F: IFileOps> {
    mFlags: Flags,
    mFileOps: F,
}

impl<F: IFileOps> BlobStore<F> {
    /// Builds the blob tier over already-constructed dependencies.
    pub fn new(mFlags: Flags, mFileOps: F) -> (r: BlobStore<F>)
        ensures
            forall|k: Seq<char>|
                #[trigger] r.lookup(k) == durable_lookup(
                    mFlags.blob_dir(),
                    mFileOps.entries(),
                    k,
                ),
    {
        BlobStore { mFlags, mFileOps }
    }

    /// Derives the path a key's record is kept at.
    fn blobPath(&self, description: &str) -> (r: String)
        ensures
            r@ == path_of(self.mFlags.blob_dir(), description@),
    {
        let mut p = self.mFlags.getBlobDir().clone();
        p.append("/");
        p.append(description);
        proof {
            reveal_strlit("/");
            assert(p@ =~= path_of(self.mFlags.blob_dir(), description@));
        }
        p
    }
}

impl<F: IFileOps> IBlobStore for BlobStore<F> {
    closed spec fn lookup(&self, key: Seq<char>) -> Option<Seq<char>> {
        durable_lookup(self.mFlags.blob_dir(), self.mFileOps.entries(), key)
    }

    fn putString(&mut self, description: &str, content: &str) {
        let path = self.blobPath(description);
        self.mFileOps.createParentDirs(path.as_str());
        self.mFileOps.writeBytes(content.as_bytes(), path.as_str());
        proof {
            let root = self.mFlags.blob_dir();
            let p = path_of(root, description@);
            encode_utf8_valid_utf8(content@);
            encode_utf8_decode_utf8(content@);
            assert(read_of(self.mFileOps.entries(), p) == encode_utf8(content@));
            assert forall|k: Seq<char>|
                k != description@ implies #[trigger] self.lookup(k) == old(self).lookup(k) by {
                if path_of(root, k) == p {
                    lemma_path_of_injective(root, k, description@);
                }
            }
        }
    }

    fn getString(&self, description: &str) -> (r: Option<String>) {
        let path = self.blobPath(description);
        if self.mFileOps.isFile(path.as_str()) {
            let bytes = self.mFileOps.readBytes(path.as_str());
            string_from_utf8(bytes)
        } else {
            None
        }
    }
}

} // verus!
