use pmix::status::status_with_output;
use pmix::server::lookup_outcome;
use pmix::registry::{decode_req_id, encode_req_id, CallbackRegistry};
use pmix::status::{status_to_result, PmixError};
use pmix::PmixStatus;

#[test]
fn req_id_encoding_roundtrip() {
    for id in [1usize, 2, 3, 17, 1 << 20, usize::MAX / 4] {
        let cbdata = encode_req_id(id);
        assert_ne!(cbdata, 0);
        assert_eq!(cbdata, id << 2);
        assert_eq!(decode_req_id(cbdata), id);
    }
    assert_eq!(decode_req_id(7), 1);
}

#[test]
fn register_issues_increasing_ids() {
    let mut reg: CallbackRegistry<&'static str> = CallbackRegistry::new();
    assert_eq!(reg.seq(), 0);
    assert!(reg.is_empty());
    let a = reg.register("a");
    let b = reg.register("b");
    assert_eq!(a, 1);
    assert_eq!(b, 2);
    assert_eq!(reg.seq(), 2);
    assert_eq!(reg.len(), 2);
    assert!(reg.contains_key(a));
    assert_eq!(reg.get(b), Some(&"b"));
}

#[test]
fn completion_runs_callback_once() {
    let mut reg: CallbackRegistry<u32> = CallbackRegistry::new();
    let id = reg.register(99);
    let cbdata = encode_req_id(id);
    assert_eq!(reg.take_for_completion(cbdata), Some(99));
    assert_eq!(reg.take_for_completion(cbdata), None);
    assert!(reg.is_empty());
}

#[test]
fn completion_with_null_cbdata_changes_nothing() {
    let mut reg: CallbackRegistry<u32> = CallbackRegistry::new();
    let id = reg.register(5);
    assert_eq!(reg.take_for_completion(0), None);
    assert!(reg.contains_key(id));
    assert_eq!(reg.len(), 1);
}

#[test]
fn completion_leaves_other_callbacks() {
    let mut reg: CallbackRegistry<u32> = CallbackRegistry::new();
    let a = reg.register(10);
    let b = reg.register(20);
    assert_eq!(reg.take_for_completion(encode_req_id(b)), Some(20));
    assert!(reg.contains_key(a));
    assert!(!reg.contains_key(b));
}

#[test]
fn accepted_submission_keeps_callback() {
    let mut reg: CallbackRegistry<u32> = CallbackRegistry::new();
    let id = reg.register(1);
    let r = reg.settle_submission(id, PmixStatus::from_raw(0));
    assert_eq!(r, Ok(()));
    assert!(reg.contains_key(id));
}

#[test]
fn rejected_submission_withdraws_callback() {
    let mut reg: CallbackRegistry<u32> = CallbackRegistry::new();
    let id = reg.register(1);
    let status = PmixStatus::from_raw(-27);
    let r = reg.settle_submission(id, status);
    assert_eq!(r, Err(PmixStatus::Known(PmixError::ErrBadParam)));
    assert!(!reg.contains_key(id));
    assert_eq!(reg.take_for_completion(encode_req_id(id)), None);
}

#[test]
fn insert_and_remove() {
    let mut reg: CallbackRegistry<u32> = CallbackRegistry::new();
    assert_eq!(reg.insert(4, 40), None);
    assert_eq!(reg.insert(4, 41), Some(40));
    assert_eq!(reg.remove(4), Some(41));
    assert_eq!(reg.remove(4), None);
    assert_eq!(reg.seq(), 4);
}

#[test]
fn insert_above_counter_keeps_new_ids_fresh() {
    let mut reg: CallbackRegistry<u32> = CallbackRegistry::new();
    assert_eq!(reg.insert(99_999, 1), None);
    assert_eq!(reg.seq(), 99_999);
    let id = reg.register(2);
    assert_eq!(id, 100_000);
    assert_eq!(reg.get(99_999), Some(&1));
    assert_eq!(reg.insert(3, 3), None);
    assert_eq!(reg.seq(), 100_000);
}

#[test]
fn next_request_id_counts_up() {
    let mut reg: CallbackRegistry<()> = CallbackRegistry::new();
    assert_eq!(reg.next_request_id(), 1);
    assert_eq!(reg.next_request_id(), 2);
    assert!(reg.is_empty());
}

#[test]
fn status_to_result_outcomes() {
    assert_eq!(status_to_result(0), Ok(()));
    assert_eq!(status_to_result(3), Ok(()));
    assert_eq!(
        status_to_result(-46),
        Err(PmixStatus::Known(PmixError::ErrNotFound))
    );
    assert_eq!(status_to_result(-9999), Err(PmixStatus::Unknown(-9999)));
}

#[test]
fn status_with_output_outcomes() {
    assert_eq!(
        status_with_output(0, Some("n1,n2".to_string()), PmixError::ErrNotFound),
        Ok("n1,n2".to_string())
    );
    assert_eq!(
        status_with_output::<String>(0, None, PmixError::ErrNotFound),
        Err(PmixStatus::Known(PmixError::ErrNotFound))
    );
    assert_eq!(
        status_with_output::<String>(0, None, PmixError::Error),
        Err(PmixStatus::Known(PmixError::Error))
    );
    assert_eq!(
        status_with_output(-31, Some(7u32), PmixError::Error),
        Err(PmixStatus::Known(PmixError::ErrInit))
    );
}

#[test]
fn lookup_outcome_cases() {
    assert_eq!(lookup_outcome(0, Some(5u8)), Ok(5u8));
    assert_eq!(
        lookup_outcome::<u8>(0, None),
        Err(PmixStatus::Known(PmixError::ErrNotFound))
    );
    assert_eq!(lookup_outcome(1, Some(5u8)), Err(PmixStatus::Unknown(1)));
    assert_eq!(
        lookup_outcome(-46, Some(5u8)),
        Err(PmixStatus::Known(PmixError::ErrNotFound))
    );
}
