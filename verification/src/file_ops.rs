use vstd::prelude::*;

use crate::kvmap::KvMap;
use crate::kvmap::lemma_kvmap_finite;

verus! {

/// What is recorded for one path: whether the path denotes a present
/// file, and the bytes written there, if any. A directory-creation call
/// records an entry with no content and `mIsFile` false, so the path is
/// known without counting as a file.
pub struct FileEntryView {
    pub mIsFile: bool,
    pub mData: Option<Seq<u8>>,
}

/// What a read answers over a recorded file table: the bytes written at
/// `path`, or an empty result for a path with no recorded content.
pub open spec fn read_of(entries: Map<Seq<char>, FileEntryView>, path: Seq<char>) -> Seq<u8> {
    if entries.contains_key(path) && entries[path].mData is Some {
        entries[path].mData->Some_0
    } else {
        Seq::empty()
    }
}

/// The file-operations capability: existence check, parent-directory
/// creation, byte write and byte read, all keyed by a path string.
/// Its state is modelled as a table from paths to recorded entries;
/// absence is always answered as a boolean or an empty result, never as
/// a failure.
pub trait IFileOps: Sized {
    /// The recorded file table.
    spec fn entries(&self) -> Map<Seq<char>, FileEntryView>;

    fn isFile(&self, path: &str) -> (r: bool)
        ensures
            r == (self.entries().contains_key(path@) && self.entries()[path@].mIsFile),
    ;

    fn createParentDirs(&mut self, path: &str)
        ensures
            final(self).entries() == old(self).entries().insert(
                path@,
                (FileEntryView { mIsFile: false, mData: None }),
            ),
    ;

    fn writeBytes(&mut self, bytes: &[u8], path: &str)
        ensures
            final(self).entries() == old(self).entries().insert(
                path@,
                (FileEntryView { mIsFile: true, mData: Some(bytes@) }),
            ),
    ;

    fn readBytes(&self, path: &str) -> (r: Vec<u8>)
        ensures
            r@ == read_of(self.entries(), path@),
    ;
}

/// One recorded entry of the in-memory file table.
pub struct FakeData {
    mIsFile: bool,
    mData: Option<Vec<u8>>,
}

impl View for FakeData {
    type V = FileEntryView;

    closed spec fn view(&self) -> FileEntryView {
        FileEntryView {
            mIsFile: self.mIsFile,
            mData: match self.mData {
                Some(v) => Some(v@),
                None => None,
            },
        }
    }
}

/// The in-memory substitute for real file operations: it answers only
/// from previously recorded writes and directory-creation calls, so
/// storage logic can be exercised deterministically without a
/// filesystem.
pub struct FakeFileOps {
    mEntries: KvMap<FakeData>,
}

impl FakeFileOps {
    /// A fake with nothing recorded yet.
    pub fn new() -> (r: FakeFileOps)
        ensures
            r.entries() == Map::<Seq<char>, FileEntryView>::empty(),
    {
        FakeFileOps { mEntries: KvMap::new() }
    }
}

impl IFileOps for FakeFileOps {
    closed spec fn entries(&self) -> Map<Seq<char>, FileEntryView> {
        self.mEntries@
    }

    fn isFile(&self, path: &str) -> (r: bool) {
        match self.mEntries.get(path) {
            Some(fakeData) => fakeData.mIsFile,
            None => false,
        }
    }

    fn createParentDirs(&mut self, path: &str) {
        self.mEntries.insert(path.to_owned(), FakeData { mIsFile: false, mData: None });
    }

    fn writeBytes(&mut self, bytes: &[u8], path: &str) {
        let v = vstd::slice::slice_to_vec(bytes);
        self.mEntries.insert(path.to_owned(), FakeData { mIsFile: true, mData: Some(v) });
    }

    fn readBytes(&self, path: &str) -> (r: Vec<u8>) {
        match self.mEntries.get(path) {
            Some(fakeData) => match &fakeData.mData {
                Some(d) => vstd::slice::slice_to_vec(d.as_slice()),
                None => Vec::new(),
            },
            None => Vec::new(),
        }
    }
}

/// The fake's recorded file table has finitely many paths.
pub proof fn lemma_fake_entries_finite(f: &FakeFileOps)
    ensures
        f.entries().dom().finite(),
{
    lemma_kvmap_finite(&f.mEntries);
}

/// Round trip: after writing `b` at `p`, the recorded entry at `p` is a
/// file and a read of `p` answers exactly `b`.
pub proof fn lemma_write_read_round_trip(
    entries: Map<Seq<char>, FileEntryView>,
    p: Seq<char>,
    b: Seq<u8>,
)
    ensures
        read_of(entries.insert(p, (FileEntryView { mIsFile: true, mData: Some(b) })), p) == b,
        entries.insert(p, (FileEntryView { mIsFile: true, mData: Some(b) }))[p].mIsFile,
{
}

/// A path never written or directory-created has no recorded entry, so a
/// read of it answers the empty byte sequence.
pub proof fn lemma_untouched_path_reads_empty(
    entries: Map<Seq<char>, FileEntryView>,
    p: Seq<char>,
)
    requires
        !entries.contains_key(p),
    ensures
        read_of(entries, p) == Seq::<u8>::empty(),
{
}

/// Directory creation does not create a file: the entry it records at
/// `p` is not a file, so an existence check on `p` stays false.
pub proof fn lemma_dir_creation_makes_no_file(
    entries: Map<Seq<char>, FileEntryView>,
    p: Seq<char>,
)
    ensures
        !entries.insert(p, (FileEntryView { mIsFile: false, mData: None }))[p].mIsFile,
{
}

} // verus!
