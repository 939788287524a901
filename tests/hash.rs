use lockc::{hash, HashError};

#[test]
fn hash_should_return_hash_when_correct() {
    let test_string = "Test string for hash function";
    assert!(hash(test_string).is_ok());
    let returned_hash = hash(test_string).unwrap();
    let correct_hash: u32 = 2824;
    assert_eq!(returned_hash, correct_hash);
}

#[test]
fn test_check_bpf_lsm_enabled() {}

#[test]
fn test_hash() {
    assert_eq!(lockc::hash("ayy").unwrap(), 339);
    assert_eq!(lockc::hash("lmao").unwrap(), 425);
}

#[test]
fn hash_of_empty_id_is_zero() {
    assert_eq!(hash("").unwrap(), 0);
}

#[test]
fn hash_is_additive_over_concatenation() {
    assert_eq!(hash("ayylmao").unwrap(), 339 + 425);
}

#[test]
fn hash_counts_code_points_not_bytes() {
    // U+00E9 is two bytes in UTF-8 but one code point of value 233.
    assert_eq!(hash("\u{e9}").unwrap(), 233);
}

#[test]
fn hash_overflow_is_an_error() {
    // 3856 characters of U+10FFFF sum to more than u32::MAX, 3855 do not.
    let s: String = std::iter::repeat('\u{10FFFF}').take(3856).collect();
    assert_eq!(hash(&s), Err(HashError::Overflow));
    let fits: String = std::iter::repeat('\u{10FFFF}').take(3855).collect();
    assert_eq!(hash(&fits).unwrap(), 3855 * 0x10FFFF);
}
