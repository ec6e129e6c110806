//! The version banner.

use rl_sys::version;

#[test]
fn version_test_version() {
    let test_ver: [u8; 13] = [27, 91, 51, 50, 59, 49, 109, 114, 108, 45, 115, 121, 115];
    let ver = version(false);
    let vb = ver.as_bytes();
    assert!(&vb[..13] == &test_ver);
    let verbose_ver = version(true);
    let verbose_vb = verbose_ver.as_bytes();
    assert!(&verbose_vb[..13] == &test_ver);
}

#[test]
fn test_verbose_version_sections() {
    let v = version(true);
    assert!(v.contains("commit-hash: "));
    assert!(v.contains("host: "));
    assert!(v.contains("release: "));
    let short = version(false);
    assert!(v.starts_with(short.as_str()));
}
