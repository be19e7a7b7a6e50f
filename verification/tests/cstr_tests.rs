use pmix::cstr::{check_c_string, check_c_strings, contains_nul, key_field_bytes, PMIX_MAX_KEYLEN};
use pmix::status::{check_nonempty, PmixError};
use pmix::PmixStatus;

#[test]
fn contains_nul_finds_interior_nul() {
    assert!(contains_nul("a\0b"));
    assert!(contains_nul("\0"));
    assert!(!contains_nul(""));
    assert!(!contains_nul("pmix.テスト"));
}

#[test]
fn pset_name_with_nul_is_refused() {
    assert_eq!(
        check_c_string("test\0set"),
        Err(PmixStatus::Known(PmixError::Error))
    );
    assert_eq!(check_c_string("workers"), Ok(()));
    assert_eq!(check_c_string(""), Ok(()));
}

#[test]
fn env_list_with_nul_is_refused() {
    assert_eq!(check_c_strings(&[]), Ok(()));
    assert_eq!(check_c_strings(&["A=1", "B=2"]), Ok(()));
    assert_eq!(
        check_c_strings(&["A=1", "B=\0"]),
        Err(PmixStatus::Known(PmixError::Error))
    );
}

#[test]
fn key_field_bytes_truncates_long_keys() {
    assert_eq!(PMIX_MAX_KEYLEN, 511);
    assert_eq!(key_field_bytes("pmix.key"), b"pmix.key".to_vec());
    assert_eq!(key_field_bytes(""), Vec::<u8>::new());
    let long = "k".repeat(600);
    let field = key_field_bytes(&long);
    assert_eq!(field.len(), 511);
    assert!(field.iter().all(|b| *b == b'k'));
    let exact = "x".repeat(511);
    assert_eq!(key_field_bytes(&exact).len(), 511);
}

#[test]
fn empty_requests_are_bad_params() {
    assert_eq!(check_nonempty(0), Err(PmixStatus::Known(PmixError::ErrBadParam)));
    assert_eq!(check_nonempty(1), Ok(()));
    assert_eq!(check_nonempty(usize::MAX), Ok(()));
}
