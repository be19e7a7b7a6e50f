use pmix::security::{CredentialResults, PmixCredential, ValidationResults};

#[test]
fn test_credential_from_bytes() {
    let cred = PmixCredential::from_bytes(b"test credential data");
    assert_eq!(cred.as_bytes(), b"test credential data");
    assert_eq!(cred.len(), 20);
    assert!(!cred.is_empty());
}

#[test]
fn test_credential_from_vec() {
    let data = vec![1u8, 2, 3, 4, 5];
    let cred = PmixCredential::from_vec(data.clone());
    assert_eq!(cred.as_bytes(), &data);
    assert_eq!(cred.len(), 5);
}

#[test]
fn test_credential_empty() {
    let cred = PmixCredential::empty();
    assert!(cred.is_empty());
    assert_eq!(cred.len(), 0);
    assert!(cred.as_bytes().is_empty());
}

#[test]
fn test_validation_results_empty() {
    let results = ValidationResults::empty();
    assert!(results.is_empty());
    assert_eq!(results.len(), 0);
}

// ── Own tests ────────────────────────────────────────────────────────────

#[test]
fn credential_clone_keeps_bytes() {
    let cred = PmixCredential::from_bytes(&[0, 255, 7]);
    let copy = cred.clone();
    assert_eq!(copy.as_bytes(), &[0, 255, 7]);
}

#[test]
fn credential_results_count_entries() {
    let results = CredentialResults::from_entries(vec![
        ("pmix.cred.uid".to_string(), "1000".to_string()),
        ("pmix.cred.gid".to_string(), "100".to_string()),
    ]);
    assert_eq!(results.len(), 2);
    assert!(!results.is_empty());
    assert_eq!(results.info()[1].0, "pmix.cred.gid");
    let none = CredentialResults::empty();
    assert!(none.is_empty());
    assert_eq!(none.info().len(), 0);
}

#[test]
fn validation_results_with_len() {
    let results = ValidationResults::with_len(4);
    assert_eq!(results.len(), 4);
    assert!(!results.is_empty());
}

#[test]
fn credential_clone_is_independent_copy() {
    let bytes = [1u8, 2, 3];
    let c = pmix::security::PmixCredential::from_bytes(&bytes);
    let d = c.clone();
    drop(c);
    assert_eq!(d.as_bytes(), &bytes[..]);
    assert_eq!(d.len(), 3);
}
