#![allow(non_snake_case)]

use rig4r_dl::hash_store::IHashStore;
use rig4r_dl::setupModule;

#[test]
fn test1() {
    assert_eq!(2 + 2, 4);
}

#[test]
fn test_setup_module_assembles_empty_store() {
    let mut hs = setupModule();
    // Both tiers start empty, so any key reads back as absence.
    assert!(hs.getString("anything").is_none());
    hs.putString("anything", "cached");
    assert_eq!(hs.getString("anything").unwrap(), "cached");
}
