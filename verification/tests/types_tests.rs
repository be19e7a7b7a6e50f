use pmix::types::{
    IOFChannelFlags, PmixAllocDirective, PmixDataRange, PmixDataType, PmixDeviceType,
    PmixJobState, PmixLinkState, PmixPersistence, PmixProcState, PmixScope,
    PMIX_FWD_ALL_CHANNELS, PMIX_FWD_NO_CHANNELS, PMIX_FWD_STDDIAG_CHANNEL,
    PMIX_FWD_STDERR_CHANNEL, PMIX_FWD_STDIN_CHANNEL, PMIX_FWD_STDOUT_CHANNEL,
};

// ── PmixProcState ───────────────────────────────────────────────────────

#[test]
fn proc_state_named_codes_roundtrip() {
    for raw in [0u8, 1, 2, 3, 4, 5, 6, 15, 20, 50, 51, 52, 53, 54, 55, 56, 57, 58, 59, 60, 61, 62, 63] {
        let s = PmixProcState::from_raw(raw);
        assert!(!matches!(s, PmixProcState::Unknown(_)), "code {raw} has a name");
        assert_eq!(s.to_raw(), raw);
    }
}

#[test]
fn proc_state_unnamed_code_is_kept() {
    let s = PmixProcState::from_raw(7);
    assert_eq!(s, PmixProcState::Unknown(7));
    assert_eq!(s.to_raw(), 7);
    assert_eq!(s.to_string(), "UNKNOWN STATE (7)");
}

#[test]
fn proc_state_labels() {
    assert_eq!(PmixProcState::Running.to_string(), "PROC EXECUTING");
    assert_eq!(PmixProcState::from_raw(20).to_string(), "PROC HAS TERMINATED");
    assert_eq!(
        PmixProcState::TermWoSync.to_string(),
        "PROC TERMINATED WITHOUT CALLING PMIx_Finalize"
    );
    assert_eq!(PmixProcState::Unknown(255).to_string(), "UNKNOWN STATE (255)");
}

#[test]
fn proc_state_alive_and_terminated_never_both() {
    for raw in 0u8..=255 {
        let s = PmixProcState::from_raw(raw);
        assert!(!(s.is_alive() && s.is_terminated()), "code {raw}");
    }
    assert!(PmixProcState::Running.is_alive());
    assert!(!PmixProcState::Running.is_terminated());
    assert!(PmixProcState::Terminated.is_terminated());
    assert!(PmixProcState::Aborted.is_terminated());
}

// ── PmixScope / PmixJobState / PmixLinkState ────────────────────────────

#[test]
fn scope_roundtrip_and_labels() {
    for raw in 0u8..=255 {
        assert_eq!(PmixScope::from_raw(raw).to_raw(), raw);
    }
    assert_eq!(PmixScope::from_raw(1), PmixScope::Local);
    assert_eq!(PmixScope::Global.to_string(), "GLOBAL");
    assert_eq!(PmixScope::Unknown(9).to_string(), "UNKNOWN SCOPE (9)");
}

#[test]
fn job_state_roundtrip_and_labels() {
    for raw in 0u8..=255 {
        assert_eq!(PmixJobState::from_raw(raw).to_raw(), raw);
    }
    assert_eq!(PmixJobState::Running.to_string(), "RUNNING");
    assert_eq!(
        PmixJobState::TerminatedWithError.to_string(),
        "TERMINATED_WITH_ERROR"
    );
    assert_eq!(PmixJobState::Unknown(42).to_string(), "UNKNOWN JOB STATE (42)");
}

#[test]
fn link_state_roundtrip_and_labels() {
    for raw in 0u8..=255 {
        assert_eq!(PmixLinkState::from_raw(raw).to_raw(), raw);
    }
    assert_eq!(PmixLinkState::from_raw(0).to_string(), "UNKNOWN");
    assert_eq!(PmixLinkState::from_raw(1).to_string(), "INACTIVE");
    assert_eq!(PmixLinkState::from_raw(2).to_string(), "ACTIVE");
    assert_eq!(PmixLinkState::from_raw(3).to_string(), "UNKNOWN LINK STATE (3)");
}

// ── PmixDeviceType ──────────────────────────────────────────────────────

#[test]
fn device_type_roundtrip_and_labels() {
    for raw in [0u64, 1, 2, 4, 8, 16, 32, 3, 0x40, u64::MAX] {
        assert_eq!(PmixDeviceType::from_raw(raw).to_raw(), raw);
    }
    assert_eq!(PmixDeviceType::from_raw(0x20), PmixDeviceType::Coproc);
    assert_eq!(PmixDeviceType::Coproc.to_string(), "COPROCESSOR");
    assert_eq!(
        PmixDeviceType::Unknown(0xABC).to_string(),
        "UNKNOWN DEVICE TYPE (ABC)"
    );
    assert_eq!(
        PmixDeviceType::Unknown(u64::MAX).to_string(),
        "UNKNOWN DEVICE TYPE (FFFFFFFFFFFFFFFF)"
    );
}

// ── PmixPersistence / PmixAllocDirective ────────────────────────────────

#[test]
fn persistence_roundtrip_and_labels() {
    for raw in 0u8..=255 {
        assert_eq!(PmixPersistence::from_raw(raw).to_raw(), raw);
    }
    assert_eq!(
        PmixPersistence::Application.to_string(),
        "RETAIN UNTIL APPLICATION OF PUBLISHING PROCESS TERMINATES"
    );
    assert_eq!(PmixPersistence::Unknown(17).to_string(), "UNKNOWN PERSISTENCE (17)");
}

#[test]
fn alloc_directive_roundtrip_and_labels() {
    for raw in 0u8..=255 {
        assert_eq!(PmixAllocDirective::from_raw(raw).to_raw(), raw);
    }
    assert_eq!(PmixAllocDirective::from_raw(43), PmixAllocDirective::AllocDirective);
    assert_eq!(PmixAllocDirective::AllocDirective.to_string(), "ALLOC_DIRECTIVE");
    assert_eq!(PmixAllocDirective::Unknown(0).to_string(), "UNKNOWN DIRECTIVE (0)");
}

// ── PmixDataRange / PmixDataType: unnamed codes collapse ────────────────

#[test]
fn data_range_unnamed_codes_collapse_to_unknown() {
    for raw in [0u8, 1, 2, 3, 4, 5, 6, 7, 255] {
        assert_eq!(PmixDataRange::from_raw(raw).to_raw(), raw);
    }
    assert_eq!(PmixDataRange::from_raw(8), PmixDataRange::Unknown);
    assert_eq!(PmixDataRange::from_raw(200).to_raw(), 128);
    assert_eq!(PmixDataRange::Unknown.to_string(), "UNKNOWN RANGE (128)");
    assert_eq!(PmixDataRange::ProcLocal.to_string(), "PROC LOCAL");
}

#[test]
fn data_type_unnamed_codes_collapse_to_unknown() {
    for raw in 0u16..=69 {
        let t = PmixDataType::from_raw(raw);
        if t != PmixDataType::Unknown {
            assert_eq!(t.to_raw(), raw);
        }
    }
    assert_eq!(PmixDataType::from_raw(3), PmixDataType::String);
    assert_eq!(PmixDataType::from_raw(1000), PmixDataType::Unknown);
    assert_eq!(PmixDataType::Unknown.to_raw(), 70);
    assert_eq!(PmixDataType::String.to_string(), "STRING");
    assert_eq!(PmixDataType::Unknown.to_string(), "UNKNOWN");
}

// ── IOFChannelFlags ─────────────────────────────────────────────────────

#[test]
fn iof_flag_constants() {
    assert_eq!(PMIX_FWD_NO_CHANNELS, 0x0000);
    assert_eq!(PMIX_FWD_STDIN_CHANNEL, 0x0001);
    assert_eq!(PMIX_FWD_STDOUT_CHANNEL, 0x0002);
    assert_eq!(PMIX_FWD_STDERR_CHANNEL, 0x0004);
    assert_eq!(PMIX_FWD_STDDIAG_CHANNEL, 0x0008);
    assert_eq!(PMIX_FWD_ALL_CHANNELS, 0x00FF);
}

#[test]
fn iof_union_and_contains() {
    let stdin = IOFChannelFlags(PMIX_FWD_STDIN_CHANNEL);
    let stdout = IOFChannelFlags(PMIX_FWD_STDOUT_CHANNEL);
    let both = stdin.union(stdout);
    assert_eq!(both.raw(), 0x0003);
    assert!(both.contains(stdin));
    assert!(both.contains(stdout));
    assert!(!both.contains(IOFChannelFlags(PMIX_FWD_STDERR_CHANNEL)));
    assert!(IOFChannelFlags(PMIX_FWD_ALL_CHANNELS).contains(both));
    assert!(both.contains(IOFChannelFlags(PMIX_FWD_NO_CHANNELS)));
}

#[test]
fn iof_insert_accumulates() {
    let mut f = IOFChannelFlags(PMIX_FWD_NO_CHANNELS);
    assert!(f.is_empty());
    f.insert(IOFChannelFlags(PMIX_FWD_STDERR_CHANNEL));
    f.insert(IOFChannelFlags(PMIX_FWD_STDDIAG_CHANNEL));
    assert!(!f.is_empty());
    assert_eq!(f.raw(), 0x000C);
}

#[test]
fn iof_to_string() {
    assert_eq!(IOFChannelFlags(PMIX_FWD_NO_CHANNELS).to_string(), "NO_CHANNELS");
    assert_eq!(IOFChannelFlags(0x0003).to_string(), "STDIN|STDOUT");
    assert_eq!(
        IOFChannelFlags(PMIX_FWD_ALL_CHANNELS).to_string(),
        "STDIN|STDOUT|STDERR|STDDIAG"
    );
    assert_eq!(IOFChannelFlags(0x0010).to_string(), "0x0010");
    assert_eq!(IOFChannelFlags(0x0014).to_string(), "STDERR");
    assert_eq!(IOFChannelFlags(0xAB00).to_string(), "0xAB00");
}

#[test]
fn iof_bitor_operators() {
    let stdin = IOFChannelFlags(PMIX_FWD_STDIN_CHANNEL);
    let stderr = IOFChannelFlags(PMIX_FWD_STDERR_CHANNEL);
    let both = stdin | stderr;
    assert_eq!(both.raw(), 0x0005);
    let mut f = IOFChannelFlags(PMIX_FWD_NO_CHANNELS);
    f |= stdin;
    f |= stderr;
    assert_eq!(f.raw(), both.raw());
}
