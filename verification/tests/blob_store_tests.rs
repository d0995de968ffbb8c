#![allow(non_snake_case)]

use rig4r_dl::blob_store::BlobStore;
use rig4r_dl::blob_store::IBlobStore;
use rig4r_dl::file_ops::FakeFileOps;
use rig4r_dl::flags::Flags;

#[test]
fn test_blob_store_module() {
    let mut hs = BlobStore::new(Flags::new("/tmp/test/blob".to_string()), FakeFileOps::new());
    // Nothing was ever written, so the unwritten key reads back as absence.
    assert!(hs.getString("key").is_none());

    hs.putString("key", "value");
    assert_eq!(hs.getString("key").unwrap(), "value");
    assert_eq!(hs.getString("key").unwrap(), "value");

    hs.putString("key", "value2");
    assert_eq!(hs.getString("key").unwrap(), "value2");
}

#[test]
fn test_blob_store_keys_are_isolated() {
    let mut hs = BlobStore::new(Flags::new("/root".to_string()), FakeFileOps::new());
    hs.putString("one", "first");
    hs.putString("two", "second");
    assert_eq!(hs.getString("one").unwrap(), "first");
    assert_eq!(hs.getString("two").unwrap(), "second");
    assert!(hs.getString("three").is_none());
}

#[test]
fn test_blob_store_empty_value_is_not_absence() {
    let mut hs = BlobStore::new(Flags::new("/root".to_string()), FakeFileOps::new());
    hs.putString("key", "");
    assert_eq!(hs.getString("key").unwrap(), "");
    assert!(hs.getString("unwritten").is_none());
}

#[test]
fn test_blob_store_non_ascii_value_round_trip() {
    let mut hs = BlobStore::new(Flags::new("/root".to_string()), FakeFileOps::new());
    hs.putString("key", "smörgåsbord ☃");
    assert_eq!(hs.getString("key").unwrap(), "smörgåsbord ☃");
}
