use pz_ime_guard::version::is_newer;

#[test]
fn version_compare_is_numeric_not_lexical() {
    assert!(is_newer("0.1.1", "0.1.0"));
    assert!(is_newer("0.10.0", "0.9.9"));
    assert!(!is_newer("0.1.0", "0.1.0"));
    assert!(!is_newer("0.0.9", "0.1.0"));
    assert!(is_newer("v42.20.4-0.2.0".rsplit('-').next().unwrap(), "0.1.1"));
}

#[test]
fn a_longer_version_with_the_same_prefix_is_newer() {
    assert!(is_newer("0.1.0.1", "0.1.0"));
    assert!(!is_newer("0.1.0", "0.1.0.1"));
    // "0.1.0.0" has one more piece, so it counts as newer than "0.1.0"
    assert!(is_newer("0.1.0.0", "0.1.0"));
}

#[test]
fn pieces_that_are_not_numbers_count_as_zero() {
    assert!(!is_newer("x.y.z", "0.0.0"));
    assert!(is_newer("0.0.0", "x.y"));
    assert!(!is_newer("1.abc", "1.0"));
    assert!(is_newer("1.+2", "1.1"));
    assert!(!is_newer("1.-2", "1.0"));
    assert!(!is_newer("", ""));
    // a piece too large for 32 bits is not a number either
    assert!(!is_newer("4294967296", "0"));
    assert!(is_newer("4294967295", "4294967294"));
}
