use pmix::session::{PmixServerState, ServerLifecycle, ToolInitState};
use pmix::status::PmixError;
use pmix::PmixStatus;

#[test]
fn server_state_byte_roundtrip() {
    for s in [
        PmixServerState::Uninitialized,
        PmixServerState::Live,
        PmixServerState::Finalizing,
        PmixServerState::Dead,
    ] {
        assert_eq!(PmixServerState::from_raw(s.to_raw()), s);
    }
    assert_eq!(PmixServerState::Live.to_raw(), 1);
    assert_eq!(PmixServerState::from_raw(200), PmixServerState::Dead);
}

#[test]
fn lifecycle_connect_then_disconnect() {
    let mut lc = ServerLifecycle::new();
    assert_eq!(lc.state(), PmixServerState::Uninitialized);
    assert_eq!(lc.check_live(), Err(PmixStatus::Known(PmixError::ErrInit)));
    assert_eq!(lc.admit_connect(), Ok(()));
    assert_eq!(lc.finish_connect(PmixStatus::from_raw(0)), Ok(()));
    assert!(lc.is_live());
    assert_eq!(lc.check_live(), Ok(()));
    assert_eq!(lc.admit_connect(), Err(PmixStatus::Known(PmixError::ErrExists)));
    assert!(lc.begin_disconnect());
    assert_eq!(lc.state(), PmixServerState::Finalizing);
    assert_eq!(lc.finish_disconnect(PmixStatus::from_raw(0)), Ok(()));
    assert_eq!(lc.state(), PmixServerState::Dead);
    assert_eq!(lc.admit_connect(), Err(PmixStatus::Known(PmixError::ErrInit)));
}

#[test]
fn lifecycle_failed_init_stays_uninitialized() {
    let mut lc = ServerLifecycle::new();
    let status = PmixStatus::from_raw(-31);
    assert_eq!(lc.finish_connect(status), Err(status));
    assert_eq!(lc.state(), PmixServerState::Uninitialized);
    assert_eq!(lc.admit_connect(), Ok(()));
}

#[test]
fn lifecycle_disconnect_is_noop_when_not_live() {
    let mut lc = ServerLifecycle::new();
    assert!(!lc.begin_disconnect());
    assert_eq!(lc.state(), PmixServerState::Uninitialized);
}

#[test]
fn lifecycle_failed_finalize_still_dead() {
    let mut lc = ServerLifecycle::new();
    lc.finish_connect(PmixStatus::from_raw(0)).unwrap();
    assert!(lc.begin_disconnect());
    let status = PmixStatus::from_raw(-1);
    assert_eq!(lc.finish_disconnect(status), Err(status));
    assert_eq!(lc.state(), PmixServerState::Dead);
    assert!(!lc.begin_disconnect());
}

#[test]
fn tool_init_state_transitions() {
    let mut t = ToolInitState::new();
    assert!(!t.is_initialized());
    assert_eq!(t.record_init(PmixStatus::from_raw(-31)), Err(PmixStatus::from_raw(-31)));
    assert!(!t.is_initialized());
    assert_eq!(t.record_init(PmixStatus::from_raw(0)), Ok(()));
    assert!(t.is_initialized());
    assert_eq!(t.record_finalize(PmixStatus::from_raw(-1)), Err(PmixStatus::from_raw(-1)));
    assert!(t.is_initialized());
    assert_eq!(t.record_finalize(PmixStatus::from_raw(0)), Ok(()));
    assert!(!t.is_initialized());
    assert_eq!(t.record_finalize(PmixStatus::from_raw(0)), Ok(()));
    assert!(!t.is_initialized());
}

#[test]
fn tool_init_is_reference_counted() {
    let mut t = ToolInitState::new();
    assert_eq!(t.record_init(PmixStatus::from_raw(0)), Ok(()));
    assert_eq!(t.record_init(PmixStatus::from_raw(0)), Ok(()));
    assert_eq!(t.record_finalize(PmixStatus::from_raw(0)), Ok(()));
    assert!(t.is_initialized());
    assert_eq!(t.record_finalize(PmixStatus::from_raw(0)), Ok(()));
    assert!(!t.is_initialized());
}
