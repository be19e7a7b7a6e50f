use pmix::{PmixError, PmixStatus};

#[test]
fn test_pmix_status_err_init() {
    let status = PmixStatus::from_raw(-31); // PMIX_ERR_INIT
    assert_eq!(status, PmixStatus::Known(PmixError::ErrInit));
    assert!(status.is_error());
}

#[test]
fn test_pmix_status_err_bad_param() {
    let status = PmixStatus::from_raw(-27); // PMIX_ERR_BAD_PARAM
    assert_eq!(status, PmixStatus::Known(PmixError::ErrBadParam));
    assert!(status.is_error());
}

#[test]
fn test_pmix_status_err_not_found() {
    let status = PmixStatus::from_raw(-46); // PMIX_ERR_NOT_FOUND
    assert_eq!(status, PmixStatus::Known(PmixError::ErrNotFound));
    assert!(status.is_error());
}

#[test]
fn test_pmix_status_err_partial_success() {
    let status = PmixStatus::from_raw(-52); // PMIX_ERR_PARTIAL_SUCCESS
    assert_eq!(status, PmixStatus::Known(PmixError::ErrPartialSuccess));
    assert!(status.is_error());
}

#[test]
fn test_pmix_status_success() {
    let status = PmixStatus::from_raw(0); // PMIX_SUCCESS
    assert!(status.is_success());
    assert!(!status.is_error());
}

#[test]
fn test_pmixstatus_from_raw_zero() {
    let status = PmixStatus::from_raw(0);
    assert!(status.is_success());
}

#[test]
fn test_pmixstatus_from_raw_error_13() {
    let status = PmixStatus::from_raw(-13);
    assert!(!status.is_success());
}

#[test]
fn test_pmixstatus_from_raw_negative_one() {
    let status = PmixStatus::from_raw(-1);
    assert!(!status.is_success());
}

#[test]
fn test_pmixstatus_from_raw_positive_one() {
    let status = PmixStatus::from_raw(1);
    assert!(status.is_success());
}

#[test]
fn test_pmixstatus_error_not_found() {
    let status = PmixStatus::from_raw(-26);
    assert!(!status.is_success());
}

#[test]
fn test_pmixstatus_error_init() {
    let status = PmixStatus::from_raw(-37);
    assert!(!status.is_success());
}

#[test]
fn test_pmixstatus_from_raw_large_negative() {
    let status = PmixStatus::from_raw(-100);
    assert!(!status.is_success());
}

#[test]
fn test_pmixstatus_from_raw_large_positive() {
    let status = PmixStatus::from_raw(100);
    assert!(status.is_success());
}

#[test]
fn test_pmixstatus_success_debug() {
    let status = PmixStatus::from_raw(0);
    let debug_str = format!("{:?}", status);
    assert!(!debug_str.is_empty());
}

#[test]
fn test_pmixstatus_error_debug() {
    let status = PmixStatus::from_raw(-13);
    let debug_str = format!("{:?}", status);
    assert!(!debug_str.is_empty());
}

// ── Own tests ────────────────────────────────────────────────────────────

#[test]
fn status_named_codes_decode_to_their_names() {
    let table = [
        (0, PmixError::Success),
        (-1, PmixError::Error),
        (-11, PmixError::ErrExists),
        (-24, PmixError::ErrTimeout),
        (-27, PmixError::ErrBadParam),
        (-31, PmixError::ErrInit),
        (-32, PmixError::ErrNomem),
        (-46, PmixError::ErrNotFound),
        (-47, PmixError::ErrNotSupported),
        (-52, PmixError::ErrPartialSuccess),
        (-59, PmixError::ErrParamValueNotSupported),
        (-158, PmixError::ErrInvalidOperation),
    ];
    for (raw, e) in table {
        assert_eq!(PmixStatus::from_raw(raw), PmixStatus::Known(e));
        assert_eq!(e.code(), raw);
        assert_eq!(PmixStatus::Known(e).to_raw(), raw);
    }
}

#[test]
fn status_unnamed_code_is_kept_verbatim() {
    assert_eq!(PmixStatus::from_raw(-13), PmixStatus::Unknown(-13));
    assert_eq!(PmixStatus::from_raw(-13).to_raw(), -13);
    assert_eq!(PmixStatus::from_raw(i32::MIN).to_raw(), i32::MIN);
    assert_eq!(PmixStatus::from_raw(i32::MAX).to_raw(), i32::MAX);
}

#[test]
fn status_success_and_error_are_complementary() {
    for raw in [-1000, -158, -1, 0, 1, 7, 1000] {
        let s = PmixStatus::from_raw(raw);
        assert_ne!(s.is_success(), s.is_error());
    }
}
