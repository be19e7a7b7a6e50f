use pmix::registry::CallbackRegistry;
use pmix::server::{
    CollectInventoryCallback, CollectInventoryResults, DeliverInventoryCallback,
    DeregisterClientCallback, DeregisterNspaceCallback, DeregisterResourcesCallback,
    DmodexRequestCallback, FenceNbCallbackWrapper, IOFDeliverCallback, PmixServerHandle,
    RegisterClientCallback, RegisterNspaceCallback, RegisterResourcesCallback,
    SetupApplicationCallback, SetupLocalSupportCallback,
};
use pmix::PmixStatus;
use std::sync::atomic::{AtomicBool, Ordering};
use std::sync::{Arc, Mutex};

// ── PmixServerHandle ─────────────────────────────────────────────────────

#[test]
fn test_server_handle_debug_format() {
    let handle = PmixServerHandle { initialized: true };
    let debug_str = format!("{:?}", handle);
    assert!(!debug_str.is_empty(), "Debug output should not be empty");
    assert!(debug_str.starts_with("PmixServerHandle"));
}

#[test]
fn test_server_handle_construction() {
    let handle = PmixServerHandle { initialized: true };
    assert!(handle.initialized);
}

#[test]
fn test_server_handle_initialized_true() {
    let handle = PmixServerHandle { initialized: true };
    assert!(handle.initialized);
}

#[test]
fn test_server_handle_initialized_false() {
    let handle = PmixServerHandle { initialized: false };
    assert!(!handle.initialized);
}

#[test]
fn test_server_handle_debug_format_false() {
    let handle = PmixServerHandle { initialized: false };
    let debug_str = format!("{:?}", handle);
    assert!(debug_str.contains("PmixServerHandle"));
    assert!(debug_str.contains("false"));
}

#[test]
fn test_server_handle_multiple_constructions() {
    let h1 = PmixServerHandle { initialized: true };
    let h2 = PmixServerHandle { initialized: false };
    let d1 = format!("{:?}", h1);
    let d2 = format!("{:?}", h2);
    assert!(d1.contains("true"));
    assert!(d2.contains("false"));
}

// ── Callback traits ──────────────────────────────────────────────────────

struct TestNspaceCallback {
    called: Arc<AtomicBool>,
}

impl RegisterNspaceCallback for TestNspaceCallback {
    fn on_complete(self: Box<Self>, _status: PmixStatus) {
        self.called.store(true, Ordering::SeqCst);
    }
}

#[test]
fn test_register_nspace_callback_trait_compiles() {
    let _callback: Box<dyn RegisterNspaceCallback> = Box::new(TestNspaceCallback {
        called: Arc::new(AtomicBool::new(false)),
    });
}

struct TestDeregisterNspaceCallback;

impl DeregisterNspaceCallback for TestDeregisterNspaceCallback {
    fn on_complete(self: Box<Self>, _status: PmixStatus) {}
}

#[test]
fn test_deregister_nspace_callback_trait_compiles() {
    let _callback: Box<dyn DeregisterNspaceCallback> = Box::new(TestDeregisterNspaceCallback);
}

struct TestRegisterClientCallback;

impl RegisterClientCallback for TestRegisterClientCallback {
    fn on_complete(self: Box<Self>, _status: PmixStatus) {}
}

#[test]
fn test_register_client_callback_trait_compiles() {
    let _callback: Box<dyn RegisterClientCallback> = Box::new(TestRegisterClientCallback);
}

struct TestDeregisterClientCallback;

impl DeregisterClientCallback for TestDeregisterClientCallback {
    fn on_complete(self: Box<Self>, _status: PmixStatus) {}
}

#[test]
fn test_deregister_client_callback_trait_compiles() {
    let _callback: Box<dyn DeregisterClientCallback> = Box::new(TestDeregisterClientCallback);
}

struct TestDmodexRequestCallback;

impl DmodexRequestCallback for TestDmodexRequestCallback {
    fn on_complete(self: Box<Self>, _status: PmixStatus, _blob: Vec<u8>) {}
}

#[test]
fn test_dmodex_request_callback_trait_compiles() {
    let _callback: Box<dyn DmodexRequestCallback> = Box::new(TestDmodexRequestCallback);
}

struct TestSetupApplicationCallback;

impl SetupApplicationCallback for TestSetupApplicationCallback {
    fn on_complete(self: Box<Self>, _status: PmixStatus, _info: Vec<(String, String)>) {}
}

#[test]
fn test_setup_application_callback_trait_compiles() {
    let _callback: Box<dyn SetupApplicationCallback> = Box::new(TestSetupApplicationCallback);
}

struct TestSetupLocalSupportCallback;

impl SetupLocalSupportCallback for TestSetupLocalSupportCallback {
    fn on_complete(self: Box<Self>, _status: PmixStatus) {}
}

#[test]
fn test_setup_local_support_callback_trait_compiles() {
    let _callback: Box<dyn SetupLocalSupportCallback> = Box::new(TestSetupLocalSupportCallback);
}

struct TestIOFDeliverCallback;

impl IOFDeliverCallback for TestIOFDeliverCallback {
    fn on_complete(self: Box<Self>, _status: PmixStatus) {}
}

#[test]
fn test_iof_deliver_callback_trait_compiles() {
    let _callback: Box<dyn IOFDeliverCallback> = Box::new(TestIOFDeliverCallback);
}

struct TestCollectInventoryCallback;

impl CollectInventoryCallback for TestCollectInventoryCallback {
    fn on_complete(&self, _status: PmixStatus, _inventory: CollectInventoryResults) {}
}

#[test]
fn test_collect_inventory_callback_trait_compiles() {
    let _callback: Box<dyn CollectInventoryCallback> = Box::new(TestCollectInventoryCallback);
}

struct TestDeliverInventoryCallback;

impl DeliverInventoryCallback for TestDeliverInventoryCallback {
    fn on_complete(self: Box<Self>, _status: PmixStatus) {}
}

#[test]
fn test_deliver_inventory_callback_trait_compiles() {
    let _callback: Box<dyn DeliverInventoryCallback> = Box::new(TestDeliverInventoryCallback);
}

struct TestRegisterResourcesCallback;

impl RegisterResourcesCallback for TestRegisterResourcesCallback {
    fn on_complete(self: Box<Self>, _status: PmixStatus) {}
}

#[test]
fn test_register_resources_callback_trait_compiles() {
    let _callback: Box<dyn RegisterResourcesCallback> = Box::new(TestRegisterResourcesCallback);
}

struct TestDeregisterResourcesCallback;

impl DeregisterResourcesCallback for TestDeregisterResourcesCallback {
    fn on_complete(self: Box<Self>, _status: PmixStatus) {}
}

#[test]
fn test_deregister_resources_callback_trait_compiles() {
    let _callback: Box<dyn DeregisterResourcesCallback> =
        Box::new(TestDeregisterResourcesCallback);
}

#[test]
fn test_dmodex_request_callback_trait_object() {
    struct TestDmodexCallback;
    impl DmodexRequestCallback for TestDmodexCallback {
        fn on_complete(self: Box<Self>, _status: PmixStatus, _blob: Vec<u8>) {}
    }
    let _cb: Box<dyn DmodexRequestCallback> = Box::new(TestDmodexCallback);
}

#[test]
fn test_dmodex_request_callback_captures_status() {
    struct CapturingDmodexCallback {
        status: Arc<Mutex<Option<PmixStatus>>>,
    }
    impl DmodexRequestCallback for CapturingDmodexCallback {
        fn on_complete(self: Box<Self>, status: PmixStatus, _blob: Vec<u8>) {
            *(self.status.lock().unwrap()) = Some(status);
        }
    }
    let captured = Arc::new(Mutex::new(None));
    let cb = CapturingDmodexCallback { status: captured.clone() };
    let boxed: Box<dyn DmodexRequestCallback> = Box::new(cb);
    let test_status = PmixStatus::from_raw(0);
    boxed.on_complete(test_status, Vec::new());
    assert!(captured.lock().unwrap().as_ref().unwrap().is_success());
}

#[test]
fn test_setup_application_callback_trait_object() {
    struct TestSetupAppCallback;
    impl SetupApplicationCallback for TestSetupAppCallback {
        fn on_complete(self: Box<Self>, _status: PmixStatus, _info: Vec<(String, String)>) {}
    }
    let _cb: Box<dyn SetupApplicationCallback> = Box::new(TestSetupAppCallback);
}

#[test]
fn test_setup_application_callback_captures_status() {
    struct CapturingSetupAppCallback {
        status: Arc<Mutex<Option<PmixStatus>>>,
    }
    impl SetupApplicationCallback for CapturingSetupAppCallback {
        fn on_complete(self: Box<Self>, status: PmixStatus, _info: Vec<(String, String)>) {
            *(self.status.lock().unwrap()) = Some(status);
        }
    }
    let captured = Arc::new(Mutex::new(None));
    let cb = CapturingSetupAppCallback { status: captured.clone() };
    let boxed: Box<dyn SetupApplicationCallback> = Box::new(cb);
    let test_status = PmixStatus::from_raw(0);
    boxed.on_complete(test_status, Vec::new());
    assert!(captured.lock().unwrap().as_ref().unwrap().is_success());
}

#[test]
fn test_setup_local_support_callback_trait_object() {
    struct TestSetupLocalCallback;
    impl SetupLocalSupportCallback for TestSetupLocalCallback {
        fn on_complete(self: Box<Self>, _status: PmixStatus) {}
    }
    let _cb: Box<dyn SetupLocalSupportCallback> = Box::new(TestSetupLocalCallback);
}

#[test]
fn test_iof_deliver_callback_trait_object() {
    struct TestIOFDeliverCallback2;
    impl IOFDeliverCallback for TestIOFDeliverCallback2 {
        fn on_complete(self: Box<Self>, _status: PmixStatus) {}
    }
    let _cb: Box<dyn IOFDeliverCallback> = Box::new(TestIOFDeliverCallback2);
}

#[test]
fn test_register_resources_callback_trait_object() {
    struct TestRegResourcesCallback;
    impl RegisterResourcesCallback for TestRegResourcesCallback {
        fn on_complete(self: Box<Self>, _status: PmixStatus) {}
    }
    let _cb: Box<dyn RegisterResourcesCallback> = Box::new(TestRegResourcesCallback);
}

#[test]
fn test_deregister_resources_callback_trait_object() {
    struct TestDeregResourcesCallback;
    impl DeregisterResourcesCallback for TestDeregResourcesCallback {
        fn on_complete(self: Box<Self>, _status: PmixStatus) {}
    }
    let _cb: Box<dyn DeregisterResourcesCallback> = Box::new(TestDeregResourcesCallback);
}

#[test]
fn test_collect_inventory_callback_trait_object() {
    struct TestCollectInventoryCallback2;
    impl CollectInventoryCallback for TestCollectInventoryCallback2 {
        fn on_complete(&self, _status: PmixStatus, _inventory: CollectInventoryResults) {}
    }
    let _cb: Box<dyn CollectInventoryCallback> = Box::new(TestCollectInventoryCallback2);
}

#[test]
fn test_deliver_inventory_callback_trait_object() {
    struct TestDeliverInventoryCallback2;
    impl DeliverInventoryCallback for TestDeliverInventoryCallback2 {
        fn on_complete(self: Box<Self>, _status: PmixStatus) {}
    }
    let _cb: Box<dyn DeliverInventoryCallback> = Box::new(TestDeliverInventoryCallback2);
}

#[test]
fn test_register_nspace_callback_invoked_with_status() {
    struct CapturingRegCb {
        status: Arc<Mutex<Option<PmixStatus>>>,
    }
    impl RegisterNspaceCallback for CapturingRegCb {
        fn on_complete(self: Box<Self>, status: PmixStatus) {
            *(self.status.lock().unwrap()) = Some(status);
        }
    }
    let captured = Arc::new(Mutex::new(None));
    let cb = CapturingRegCb { status: captured.clone() };
    let boxed: Box<dyn RegisterNspaceCallback> = Box::new(cb);
    let test_status = PmixStatus::from_raw(0);
    boxed.on_complete(test_status);
    assert!(captured.lock().unwrap().as_ref().unwrap().is_success());
}

#[test]
fn test_deregister_nspace_callback_invoked_with_status() {
    struct CapturingDeregCb {
        status: Arc<Mutex<Option<PmixStatus>>>,
    }
    impl DeregisterNspaceCallback for CapturingDeregCb {
        fn on_complete(self: Box<Self>, status: PmixStatus) {
            *(self.status.lock().unwrap()) = Some(status);
        }
    }
    let captured = Arc::new(Mutex::new(None));
    let cb = CapturingDeregCb { status: captured.clone() };
    let boxed: Box<dyn DeregisterNspaceCallback> = Box::new(cb);
    let test_status = PmixStatus::from_raw(-26); // PMIX_ERR_NOT_FOUND
    boxed.on_complete(test_status);
    assert!(!captured.lock().unwrap().as_ref().unwrap().is_success());
}

#[test]
fn test_collect_inventory_callback_captures_status_and_inventory() {
    struct CapturingInvCb {
        called: Arc<AtomicBool>,
    }
    impl CollectInventoryCallback for CapturingInvCb {
        fn on_complete(&self, _status: PmixStatus, _inventory: CollectInventoryResults) {
            self.called.store(true, Ordering::SeqCst);
        }
    }
    let called = Arc::new(AtomicBool::new(false));
    let cb = CapturingInvCb { called: called.clone() };
    let boxed: Box<dyn CollectInventoryCallback> = Box::new(cb);
    let results = CollectInventoryResults::with_len(0);
    boxed.on_complete(PmixStatus::from_raw(0), results);
    assert!(called.load(Ordering::SeqCst));
}

#[test]
fn test_deliver_inventory_callback_captures_status() {
    struct CapturingDeliverInvCb {
        called: Arc<AtomicBool>,
    }
    impl DeliverInventoryCallback for CapturingDeliverInvCb {
        fn on_complete(self: Box<Self>, _status: PmixStatus) {
            self.called.store(true, Ordering::SeqCst);
        }
    }
    let called = Arc::new(AtomicBool::new(false));
    let cb = CapturingDeliverInvCb { called: called.clone() };
    let boxed: Box<dyn DeliverInventoryCallback> = Box::new(cb);
    boxed.on_complete(PmixStatus::from_raw(0));
    assert!(called.load(Ordering::SeqCst));
}

#[test]
fn test_iof_deliver_callback_captures_status() {
    struct CapturingIOFCb {
        called: Arc<AtomicBool>,
    }
    impl IOFDeliverCallback for CapturingIOFCb {
        fn on_complete(self: Box<Self>, _status: PmixStatus) {
            self.called.store(true, Ordering::SeqCst);
        }
    }
    let called = Arc::new(AtomicBool::new(false));
    let cb = CapturingIOFCb { called: called.clone() };
    let boxed: Box<dyn IOFDeliverCallback> = Box::new(cb);
    boxed.on_complete(PmixStatus::from_raw(0));
    assert!(called.load(Ordering::SeqCst));
}

#[test]
fn test_setup_application_callback_captures_info() {
    struct CapturingSetupAppCb {
        called: Arc<AtomicBool>,
    }
    impl SetupApplicationCallback for CapturingSetupAppCb {
        fn on_complete(self: Box<Self>, _status: PmixStatus, _info: Vec<(String, String)>) {
            self.called.store(true, Ordering::SeqCst);
        }
    }
    let called = Arc::new(AtomicBool::new(false));
    let cb = CapturingSetupAppCb { called: called.clone() };
    let boxed: Box<dyn SetupApplicationCallback> = Box::new(cb);
    boxed.on_complete(
        PmixStatus::from_raw(0),
        vec![(("key".to_string()), ("val".to_string()))],
    );
    assert!(called.load(Ordering::SeqCst));
}

#[test]
fn test_setup_local_support_callback_captures_status() {
    struct CapturingSetupLocalCb {
        called: Arc<AtomicBool>,
    }
    impl SetupLocalSupportCallback for CapturingSetupLocalCb {
        fn on_complete(self: Box<Self>, _status: PmixStatus) {
            self.called.store(true, Ordering::SeqCst);
        }
    }
    let called = Arc::new(AtomicBool::new(false));
    let cb = CapturingSetupLocalCb { called: called.clone() };
    let boxed: Box<dyn SetupLocalSupportCallback> = Box::new(cb);
    boxed.on_complete(PmixStatus::from_raw(0));
    assert!(called.load(Ordering::SeqCst));
}

#[test]
fn test_dmodex_request_callback_captures_blob() {
    struct CapturingDmodexCb {
        called: Arc<AtomicBool>,
    }
    impl DmodexRequestCallback for CapturingDmodexCb {
        fn on_complete(self: Box<Self>, _status: PmixStatus, _blob: Vec<u8>) {
            self.called.store(true, Ordering::SeqCst);
        }
    }
    let called = Arc::new(AtomicBool::new(false));
    let cb = CapturingDmodexCb { called: called.clone() };
    let boxed: Box<dyn DmodexRequestCallback> = Box::new(cb);
    boxed.on_complete(PmixStatus::from_raw(0), vec![1, 2, 3]);
    assert!(called.load(Ordering::SeqCst));
}

#[test]
fn test_register_nspace_callback_error_status() {
    struct ErrRegCb {
        status: Arc<Mutex<Option<PmixStatus>>>,
    }
    impl RegisterNspaceCallback for ErrRegCb {
        fn on_complete(self: Box<Self>, status: PmixStatus) {
            *(self.status.lock().unwrap()) = Some(status);
        }
    }
    let captured = Arc::new(Mutex::new(None));
    let cb = ErrRegCb { status: captured.clone() };
    let boxed: Box<dyn RegisterNspaceCallback> = Box::new(cb);
    let err_status = PmixStatus::from_raw(-13);
    boxed.on_complete(err_status);
    assert!(!captured.lock().unwrap().as_ref().unwrap().is_success());
}

// ── FenceNbCallbackWrapper ───────────────────────────────────────────────

#[test]
fn test_fence_nb_callback_wrapper_construction() {
    let called = Arc::new(AtomicBool::new(false));
    let called_clone = called.clone();
    let _wrapper = FenceNbCallbackWrapper::new(move |_status: PmixStatus| {
        called_clone.store(true, Ordering::SeqCst);
    });
    assert!(!called.load(Ordering::SeqCst));
}

#[test]
fn test_fence_nb_callback_wrapper_new() {
    let wrapper = FenceNbCallbackWrapper::new(|_status: PmixStatus| {});
    let _ = wrapper;
}

#[test]
fn test_fence_nb_callback_wrapper_invokes_closure() {
    static INVOKED: AtomicBool = AtomicBool::new(false);
    INVOKED.store(false, Ordering::SeqCst);
    let wrapper = FenceNbCallbackWrapper::new(|_status: PmixStatus| {
        INVOKED.store(true, Ordering::SeqCst);
    });
    (wrapper.callback)(PmixStatus::from_raw(0));
    assert!(INVOKED.load(Ordering::SeqCst));
}

#[test]
fn test_fence_nb_callback_wrapper_multiple_closures() {
    let captured1 = Arc::new(Mutex::new(None));
    let captured2: Arc<Mutex<Option<PmixStatus>>> = Arc::new(Mutex::new(None));

    let w1 = FenceNbCallbackWrapper::new({
        let c = captured1.clone();
        move |s: PmixStatus| {
            *(c.lock().unwrap()) = Some(s);
        }
    });

    let _w2 = FenceNbCallbackWrapper::new({
        let c = captured2.clone();
        move |s: PmixStatus| {
            *(c.lock().unwrap()) = Some(s);
        }
    });

    let status_ok = PmixStatus::from_raw(0);
    (w1.callback)(status_ok);
    assert!(captured1.lock().unwrap().as_ref().unwrap().is_success());
    assert!(captured2.lock().unwrap().is_none());
}

#[test]
fn test_fence_nb_callback_wrapper_error_status() {
    let captured = Arc::new(Mutex::new(None));
    let wrapper = FenceNbCallbackWrapper::new({
        let c = captured.clone();
        move |s: PmixStatus| {
            *(c.lock().unwrap()) = Some(s);
        }
    });
    let status_err = PmixStatus::from_raw(-13);
    (wrapper.callback)(status_err);
    assert!(!captured.lock().unwrap().as_ref().unwrap().is_success());
}

#[test]
fn test_fence_nb_callback_wrapper_unit_closure() {
    let wrapper = FenceNbCallbackWrapper::new(|_s: PmixStatus| {});
    let _ = wrapper;
}

// ── CollectInventoryResults ──────────────────────────────────────────────

#[test]
fn test_collect_inventory_results_construction() {
    let results = CollectInventoryResults::with_len(0);
    assert!(results.is_empty());
    assert_eq!(results.len(), 0);
}

#[test]
fn test_collect_inventory_results_empty() {
    let results = CollectInventoryResults::with_len(0);
    assert!(results.is_empty());
    assert_eq!(results.len(), 0);
}

#[test]
fn test_collect_inventory_results_len_zero() {
    let results = CollectInventoryResults::with_len(0);
    assert_eq!(results.len(), 0);
    assert!(results.is_empty());
}

#[test]
fn test_collect_inventory_results_debug_format() {
    let results = CollectInventoryResults::with_len(0);
    let debug_str = format!("{:?}", results);
    assert!(debug_str.contains("CollectInventoryResults"));
}

// ── Registries and request-id counters ───────────────────────────────────

#[test]
fn test_register_nspace_seq_is_accessible() {
    let registry: CallbackRegistry<Box<dyn RegisterNspaceCallback>> = CallbackRegistry::new();
    let _seq = registry.seq();
}

#[test]
fn test_deregister_nspace_seq_is_accessible() {
    let registry: CallbackRegistry<Box<dyn DeregisterNspaceCallback>> = CallbackRegistry::new();
    let _seq = registry.seq();
}

#[test]
fn test_register_nspace_registry_is_empty() {
    let registry: CallbackRegistry<Box<dyn RegisterNspaceCallback>> = CallbackRegistry::new();
    assert!(
        registry.is_empty(),
        "Register nspace registry should be empty at test start"
    );
}

#[test]
fn test_deregister_nspace_registry_is_empty() {
    let registry: CallbackRegistry<Box<dyn DeregisterNspaceCallback>> = CallbackRegistry::new();
    assert!(
        registry.is_empty(),
        "Deregister nspace registry should be empty at test start"
    );
}

#[test]
fn test_register_nspace_seq_increments() {
    let mut registry: CallbackRegistry<Box<dyn RegisterNspaceCallback>> = CallbackRegistry::new();
    let before = registry.seq();
    registry.next_request_id();
    let after = registry.seq();
    assert_eq!(after, before + 1);
}

#[test]
fn test_deregister_nspace_seq_increments() {
    let mut registry: CallbackRegistry<Box<dyn DeregisterNspaceCallback>> =
        CallbackRegistry::new();
    let before = registry.seq();
    registry.next_request_id();
    let after = registry.seq();
    assert_eq!(after, before + 1);
}

#[test]
fn test_register_client_seq_increments() {
    let mut registry: CallbackRegistry<Box<dyn RegisterClientCallback>> = CallbackRegistry::new();
    let before = registry.seq();
    registry.next_request_id();
    let after = registry.seq();
    assert_eq!(after, before + 1);
}

#[test]
fn test_deregister_client_seq_increments() {
    let mut registry: CallbackRegistry<Box<dyn DeregisterClientCallback>> =
        CallbackRegistry::new();
    let before = registry.seq();
    registry.next_request_id();
    let after = registry.seq();
    assert_eq!(after, before + 1);
}

#[test]
fn test_register_nspace_registry_insert_and_remove() {
    struct TestRegCb;
    impl RegisterNspaceCallback for TestRegCb {
        fn on_complete(self: Box<Self>, _status: PmixStatus) {}
    }
    let mut registry: CallbackRegistry<Box<dyn RegisterNspaceCallback>> = CallbackRegistry::new();
    let req_id = 99999;
    registry.insert(req_id, Box::new(TestRegCb));
    assert!(registry.contains_key(req_id));
    let removed = registry.remove(req_id);
    assert!(removed.is_some());
    assert!(!registry.contains_key(req_id));
}

#[test]
fn test_deregister_nspace_registry_insert_and_remove() {
    struct TestDeregCb;
    impl DeregisterNspaceCallback for TestDeregCb {
        fn on_complete(self: Box<Self>, _status: PmixStatus) {}
    }
    let mut registry: CallbackRegistry<Box<dyn DeregisterNspaceCallback>> =
        CallbackRegistry::new();
    let req_id = 99998;
    registry.insert(req_id, Box::new(TestDeregCb));
    assert!(registry.contains_key(req_id));
    let removed = registry.remove(req_id);
    assert!(removed.is_some());
    assert!(!registry.contains_key(req_id));
}

#[test]
fn test_register_client_registry_insert_and_remove() {
    struct TestRegClientCb;
    impl RegisterClientCallback for TestRegClientCb {
        fn on_complete(self: Box<Self>, _status: PmixStatus) {}
    }
    let mut registry: CallbackRegistry<Box<dyn RegisterClientCallback>> = CallbackRegistry::new();
    let req_id = 99997;
    registry.insert(req_id, Box::new(TestRegClientCb));
    assert!(registry.contains_key(req_id));
    let removed = registry.remove(req_id);
    assert!(removed.is_some());
    assert!(!registry.contains_key(req_id));
}

#[test]
fn test_deregister_client_registry_insert_and_remove() {
    struct TestDeregClientCb;
    impl DeregisterClientCallback for TestDeregClientCb {
        fn on_complete(self: Box<Self>, _status: PmixStatus) {}
    }
    let mut registry: CallbackRegistry<Box<dyn DeregisterClientCallback>> =
        CallbackRegistry::new();
    let req_id = 99996;
    registry.insert(req_id, Box::new(TestDeregClientCb));
    assert!(registry.contains_key(req_id));
    let removed = registry.remove(req_id);
    assert!(removed.is_some());
    assert!(!registry.contains_key(req_id));
}

#[test]
fn test_register_resources_callback_bridge_null() {
    let mut registry: CallbackRegistry<Box<dyn RegisterResourcesCallback>> =
        CallbackRegistry::new();
    assert!(registry.take_for_completion(0).is_none());
}

#[test]
fn test_deregister_resources_callback_bridge_null() {
    let mut registry: CallbackRegistry<Box<dyn DeregisterResourcesCallback>> =
        CallbackRegistry::new();
    assert!(registry.take_for_completion(0).is_none());
}

#[test]
fn test_collect_inventory_seq_is_accessible() {
    let registry: CallbackRegistry<Box<dyn CollectInventoryCallback>> = CallbackRegistry::new();
    let seq = registry.seq();
    assert!(seq == 0 || seq > 0);
}

#[test]
fn test_collect_inventory_seq_increments() {
    let mut registry: CallbackRegistry<Box<dyn CollectInventoryCallback>> =
        CallbackRegistry::new();
    let before = registry.seq();
    registry.next_request_id();
    let after = registry.seq();
    assert_eq!(after, before + 1);
}

#[test]
fn test_collect_inventory_registry_is_empty() {
    let registry: CallbackRegistry<Box<dyn CollectInventoryCallback>> = CallbackRegistry::new();
    let _len = registry.len();
}

#[test]
fn test_register_client_seq_is_accessible() {
    let registry: CallbackRegistry<Box<dyn RegisterClientCallback>> = CallbackRegistry::new();
    let seq = registry.seq();
    assert!(seq == 0 || seq > 0);
}

#[test]
fn test_register_client_registry_is_empty() {
    let registry: CallbackRegistry<Box<dyn RegisterClientCallback>> = CallbackRegistry::new();
    let _len = registry.len();
}

#[test]
fn test_deregister_client_seq_is_accessible() {
    let registry: CallbackRegistry<Box<dyn DeregisterClientCallback>> = CallbackRegistry::new();
    let seq = registry.seq();
    assert!(seq == 0 || seq > 0);
}

#[test]
fn test_deregister_client_registry_is_empty() {
    let registry: CallbackRegistry<Box<dyn DeregisterClientCallback>> = CallbackRegistry::new();
    let _len = registry.len();
}

#[test]
fn test_collect_inventory_results_non_null_handle() {
    // A result set of zero entries reports empty (len is the authoritative count).
    let results = CollectInventoryResults::with_len(0);
    assert!(results.is_empty());
    assert_eq!(results.len(), 0);
}
