use vstd::prelude::*;

verus! {

/// Read-only configuration: the one value the storage core consumes is
/// the durable tier's root directory path.
pub trait IFlags {
    /// The configured root directory, as a sequence of characters.
    spec fn blob_dir(&self) -> Seq<char>;

    fn getBlobDir(&self) -> (r: &String)
        ensures
            r@ == self.blob_dir(),
    ;
}

/// The concrete configuration record, fixed at construction.
pub struct Flags {
    mBlobDir: String,
}

impl Flags {
    /// Builds the configuration with the given root directory path.
    pub fn new(mBlobDir: String) -> (r: Flags)
        ensures
            r.blob_dir() == mBlobDir@,
    {
        Flags { mBlobDir }
    }
}

impl IFlags for Flags {
    closed spec fn blob_dir(&self) -> Seq<char> {
        self.mBlobDir@
    }

    fn getBlobDir(&self) -> (r: &String) {
        &self.mBlobDir
    }
}

} // verus!
