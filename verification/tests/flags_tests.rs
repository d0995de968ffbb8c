#![allow(non_snake_case)]

use rig4r_dl::flags::Flags;
use rig4r_dl::flags::IFlags;

#[test]
fn test_getBlogDir() {
    let f = Flags::new("/tmp/test".to_string());
    assert_eq!(f.getBlobDir(), "/tmp/test");
}
