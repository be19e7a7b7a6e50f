use pmix::status::status_to_result;
use pmix::query_log::{LogCallback, PmixQuery, QueryCallback, QueryResults};
use pmix::registry::CallbackRegistry;
use pmix::{PmixError, PmixStatus};
use std::sync::atomic::{AtomicI32, AtomicU32, Ordering};
use std::sync::Arc;

#[test]
fn test_query_results_empty() {
    let results = QueryResults::with_len(0);
    assert!(results.is_empty());
    assert_eq!(results.len(), 0);
}

#[test]
fn test_query_results_nonempty() {
    let results = QueryResults::with_len(3);
    assert!(!results.is_empty());
    assert_eq!(results.len(), 3);
}

#[test]
fn test_query_results_debug() {
    let results = QueryResults::with_len(5);
    let debug_str = format!("{:?}", results);
    assert!(debug_str.contains("QueryResults"));
    assert!(debug_str.contains("5"));
}

#[test]
fn test_query_results_len_large() {
    let results = QueryResults::with_len(usize::MAX);
    assert!(!results.is_empty());
    assert_eq!(results.len(), usize::MAX);
    drop(results);
}

#[test]
fn test_query_callback_trait_object() {
    struct DummyQuery;
    impl QueryCallback for DummyQuery {
        fn on_complete(self: Box<Self>, _status: PmixStatus, _results: QueryResults) {}
    }
    let callback: Box<dyn QueryCallback> = Box::new(DummyQuery);
    let _ = callback;
}

#[test]
fn test_log_callback_trait_object() {
    struct DummyLog;
    impl LogCallback for DummyLog {
        fn on_complete(self: Box<Self>, _status: PmixStatus) {}
    }
    let callback: Box<dyn LogCallback> = Box::new(DummyLog);
    let _ = callback;
}

#[test]
fn test_query_callback_with_state() {
    struct StatefulQuery {
        count: Arc<AtomicU32>,
    }
    impl QueryCallback for StatefulQuery {
        fn on_complete(self: Box<Self>, _status: PmixStatus, _results: QueryResults) {
            self.count.fetch_add(1, Ordering::SeqCst);
        }
    }
    let count = Arc::new(AtomicU32::new(0));
    let cb: Box<dyn QueryCallback> = Box::new(StatefulQuery { count: count.clone() });
    let results = QueryResults::with_len(0);
    cb.on_complete(PmixStatus::Known(PmixError::Success), results);
    assert_eq!(count.load(Ordering::SeqCst), 1);
}

#[test]
fn test_log_callback_with_state() {
    struct StatefulLog {
        count: Arc<AtomicU32>,
    }
    impl LogCallback for StatefulLog {
        fn on_complete(self: Box<Self>, _status: PmixStatus) {
            self.count.fetch_add(1, Ordering::SeqCst);
        }
    }
    let count = Arc::new(AtomicU32::new(0));
    let cb: Box<dyn LogCallback> = Box::new(StatefulLog { count: count.clone() });
    cb.on_complete(PmixStatus::Known(PmixError::Success));
    assert_eq!(count.load(Ordering::SeqCst), 1);
}

#[test]
fn test_log_callback_receives_error_status() {
    struct StatusCapture {
        status_code: Arc<AtomicI32>,
    }
    impl LogCallback for StatusCapture {
        fn on_complete(self: Box<Self>, status: PmixStatus) {
            if let PmixStatus::Known(e) = status {
                self.status_code.store(e as i32, Ordering::SeqCst);
            }
        }
    }
    let code = Arc::new(AtomicI32::new(0));
    let cb: Box<dyn LogCallback> = Box::new(StatusCapture { status_code: code.clone() });
    cb.on_complete(PmixStatus::Known(PmixError::ErrNotFound));
    assert_eq!(code.load(Ordering::SeqCst), PmixError::ErrNotFound as i32);
}

#[test]
fn test_query_registry_concurrent_insert_remove() {
    struct DummyQCb;
    impl QueryCallback for DummyQCb {
        fn on_complete(self: Box<Self>, _status: PmixStatus, _results: QueryResults) {}
    }
    let mut registry: CallbackRegistry<Box<dyn QueryCallback>> = CallbackRegistry::new();
    let base = 100_000;
    for i in 0..20 {
        let key = base + i;
        registry.insert(key, Box::new(DummyQCb));
        registry.remove(key);
    }
    for i in 0..20 {
        assert!(
            registry.get(base + i).is_none(),
            "Key {} should have been removed",
            base + i
        );
    }
}

#[test]
fn test_log_registry_concurrent_insert_remove() {
    struct DummyLCb;
    impl LogCallback for DummyLCb {
        fn on_complete(self: Box<Self>, _status: PmixStatus) {}
    }
    let mut registry: CallbackRegistry<Box<dyn LogCallback>> = CallbackRegistry::new();
    let base = 200_000;
    for i in 0..20 {
        let key = base + i;
        registry.insert(key, Box::new(DummyLCb));
        registry.remove(key);
    }
    for i in 0..20 {
        assert!(
            registry.get(base + i).is_none(),
            "Key {} should have been removed",
            base + i
        );
    }
}

#[test]
fn test_pmix_query_new() {
    let query = PmixQuery::new(&["PMIX_QUERY_JOB_SIZE"]).unwrap();
    assert!(!query.keys().is_empty());
}

#[test]
fn test_pmix_query_empty_keys() {
    let result = PmixQuery::new(&[]);
    assert!(result.is_err());
}

#[test]
fn test_pmix_query_multiple_keys() {
    let query = PmixQuery::new(&["PMIX_QUERY_JOB_SIZE", "PMIX_QUERY_NODE_SIZE"]).unwrap();
    assert_eq!(query.keys().len(), 2);
}

#[test]
fn test_pmix_query_single_key() {
    let query = PmixQuery::new(&["pmix.version"]).unwrap();
    assert_eq!(query.keys().len(), 1);
}

#[test]
fn test_pmix_query_nul_byte_in_key() {
    let result = PmixQuery::new(&["pmix.ver\0sion"]);
    assert!(result.is_err());
}

#[test]
fn test_pmix_query_long_key() {
    let long_key = "pmix.".to_string() + &"a".repeat(200);
    let query = PmixQuery::new(&[&long_key]).unwrap();
    assert_eq!(query.keys().len(), 1);
}

#[test]
fn test_pmix_query_unicode_key() {
    let query = PmixQuery::new(&["pmix.テスト"]).unwrap();
    assert_eq!(query.keys().len(), 1);
}

#[test]
fn test_pmix_query_debug_output() {
    let query = PmixQuery::new(&["PMIX_QUERY_JOB_SIZE"]).unwrap();
    let debug_str = format!("{:?}", query);
    assert!(debug_str.contains("PmixQuery"));
}

#[test]
fn test_pmix_query_drop_safety() {
    for _ in 0..10 {
        let _query = PmixQuery::new(&["PMIX_QUERY_JOB_SIZE"]).unwrap();
    }
}

#[test]
fn test_query_info_nb_request_id_encoding() {
    let req_id: usize = 42;
    let cbdata = pmix::registry::encode_req_id(req_id);
    let decoded = pmix::registry::decode_req_id(cbdata);
    assert_eq!(decoded, req_id);
    assert!(cbdata != 0);
}

#[test]
fn test_query_info_nb_request_id_zero_not_null() {
    let req_id: usize = 1;
    let cbdata = pmix::registry::encode_req_id(req_id);
    assert!(cbdata != 0);
}

#[test]
fn test_log_data_nb_request_id_encoding() {
    let req_id: usize = 99;
    let cbdata = pmix::registry::encode_req_id(req_id);
    let decoded = pmix::registry::decode_req_id(cbdata);
    assert_eq!(decoded, req_id);
    assert!(cbdata != 0);
}

#[test]
fn test_query_seq_monotonic() {
    let mut registry: CallbackRegistry<Box<dyn QueryCallback>> = CallbackRegistry::new();
    let val1 = registry.seq();
    registry.next_request_id();
    let val2 = registry.seq();
    assert!(val2 > val1);
}

#[test]
fn test_log_seq_monotonic() {
    let mut registry: CallbackRegistry<Box<dyn LogCallback>> = CallbackRegistry::new();
    let val1 = registry.seq();
    registry.next_request_id();
    let val2 = registry.seq();
    assert!(val2 > val1);
}

// ── Own tests ────────────────────────────────────────────────────────────

#[test]
fn query_keys_keep_their_order_and_text() {
    let query = PmixQuery::new(&["a.b", "c", "d.e.f"]).unwrap();
    let keys: Vec<&str> = query.keys().iter().map(|k| k.as_str()).collect();
    assert_eq!(keys, vec!["a.b", "c", "d.e.f"]);
}

#[test]
fn query_errors_are_bad_param() {
    assert_eq!(
        PmixQuery::new(&[]).unwrap_err(),
        PmixStatus::Known(PmixError::ErrBadParam)
    );
    assert_eq!(
        PmixQuery::new(&["ok", "bad\0key"]).unwrap_err(),
        PmixStatus::Known(PmixError::ErrBadParam)
    );
}

#[test]
fn query_partial_success_is_an_error() {
    assert_eq!(status_to_result(0), Ok(()));
    assert_eq!(
        status_to_result(-52),
        Err(PmixStatus::Known(PmixError::ErrPartialSuccess))
    );
    assert_eq!(status_to_result(-46), Err(PmixStatus::Known(PmixError::ErrNotFound)));
    assert_eq!(status_to_result(-1), Err(PmixStatus::Known(PmixError::Error)));
}
