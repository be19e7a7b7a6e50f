//! PMIx enumeration and flag types: safe representations of the raw
//! `uint8_t` / `uint16_t` / `uint64_t` codes of the C API, their decoding and
//! encoding, and their human-readable labels.

use vstd::prelude::*;
use crate::text::{decimal_digits, hex_digits, push_decimal, push_hex, push_hex_padded, zero_padded};

verus! {

/// Safe Rust representation of `pmix_proc_state_t` (PMIx v4.0+).
///
/// `pmix_proc_state_t` is a `uint8_t` that encodes the lifecycle state
/// of a process managed by the PMIx resource manager.  Values are grouped
/// into logical ranges:
///
/// * `0`        — undefined
/// * `1–6`      — pre-launch and active states
/// * `15`       — unterminated (still alive)
/// * `20`       — cleanly terminated
/// * `50+`      — error / abnormal termination states
///
/// All values defined in `pmix_common.h §Process State Definitions` are
/// represented.  Unknown raw values from future library versions are
/// captured in the [`Unknown`][PmixProcState::Unknown] variant.
///
/// # C API
/// `typedef uint8_t pmix_proc_state_t;`
#[derive(Debug, Clone, Copy, PartialEq, Eq, Hash, Structural)]
#[non_exhaustive]
pub enum PmixProcState {
    /// `PMIX_PROC_STATE_UNDEF` (0) — undefined process state.
    Undef,

    /// `PMIX_PROC_STATE_PREPPED` (1) — process is ready to be launched.
    Prepped,

    /// `PMIX_PROC_STATE_LAUNCH_UNDERWAY` (2) — launch process underway.
    LaunchUnderway,

    /// `PMIX_PROC_STATE_RESTART` (3) — the proc is ready for restart.
    Restart,

    /// `PMIX_PROC_STATE_TERMINATE` (4) — process is marked for termination.
    Terminate,

    /// `PMIX_PROC_STATE_RUNNING` (5) — daemon has locally forked process.
    Running,

    /// `PMIX_PROC_STATE_CONNECTED` (6) — proc connected to PMIx server.
    Connected,

    /// `PMIX_PROC_STATE_UNTERMINATED` (15) — process has not yet terminated.
    Unterminated,

    /// `PMIX_PROC_STATE_TERMINATED` (20) — process has terminated cleanly.
    Terminated,

    /// `PMIX_PROC_STATE_ERROR` (50) — generic process error.
    Error,

    /// `PMIX_PROC_STATE_KILLED_BY_CMD` (51) — process was killed by command.
    KilledByCmd,

    /// `PMIX_PROC_STATE_ABORTED` (52) — process aborted abnormally.
    Aborted,

    /// `PMIX_PROC_STATE_FAILED_TO_START` (53) — process failed to start.
    FailedToStart,

    /// `PMIX_PROC_STATE_ABORTED_BY_SIG` (54) — process aborted by signal.
    AbortedBySig,

    /// `PMIX_PROC_STATE_TERM_WO_SYNC` (55) — process exited without calling
    /// `PMIx_Finalize`.
    TermWoSync,

    /// `PMIX_PROC_STATE_COMM_FAILED` (56) — process communication has failed.
    CommFailed,

    /// `PMIX_PROC_STATE_SENSOR_BOUND_EXCEEDED` (57) — process exceeded a
    /// sensor limit.
    SensorBoundExceeded,

    /// `PMIX_PROC_STATE_CALLED_ABORT` (58) — process called `PMIx_Abort`.
    CalledAbort,

    /// `PMIX_PROC_STATE_HEARTBEAT_FAILED` (59) — process failed to send
    /// heartbeat within time limit.
    HeartbeatFailed,

    /// `PMIX_PROC_STATE_MIGRATING` (60) — process failed and is waiting for
    /// resources before restarting.
    Migrating,

    /// `PMIX_PROC_STATE_CANNOT_RESTART` (61) — process failed and cannot be
    /// restarted.
    CannotRestart,

    /// `PMIX_PROC_STATE_TERM_NON_ZERO` (62) — process exited with a
    /// non-zero status, indicating abnormal termination.
    TermNonZero,

    /// `PMIX_PROC_STATE_FAILED_TO_LAUNCH` (63) — unable to launch process.
    FailedToLaunch,

    /// An unrecognised or future process state value.
    Unknown(u8),
}

impl PmixProcState {
    /// `true` when `raw` is the code of a named variant.
    pub open spec fn is_named_code(raw: u8) -> bool {
        raw == 0
        || raw == 1
        || raw == 2
        || raw == 3
        || raw == 4
        || raw == 5
        || raw == 6
        || raw == 15
        || raw == 20
        || raw == 50
        || raw == 51
        || raw == 52
        || raw == 53
        || raw == 54
        || raw == 55
        || raw == 56
        || raw == 57
        || raw == 58
        || raw == 59
        || raw == 60
        || raw == 61
        || raw == 62
        || raw == 63
    }

    /// The value that a raw code stands for.
    pub open spec fn decoded(raw: u8) -> Self {
        if raw == 0 {
            PmixProcState::Undef
        } else if raw == 1 {
            PmixProcState::Prepped
        } else if raw == 2 {
            PmixProcState::LaunchUnderway
        } else if raw == 3 {
            PmixProcState::Restart
        } else if raw == 4 {
            PmixProcState::Terminate
        } else if raw == 5 {
            PmixProcState::Running
        } else if raw == 6 {
            PmixProcState::Connected
        } else if raw == 15 {
            PmixProcState::Unterminated
        } else if raw == 20 {
            PmixProcState::Terminated
        } else if raw == 50 {
            PmixProcState::Error
        } else if raw == 51 {
            PmixProcState::KilledByCmd
        } else if raw == 52 {
            PmixProcState::Aborted
        } else if raw == 53 {
            PmixProcState::FailedToStart
        } else if raw == 54 {
            PmixProcState::AbortedBySig
        } else if raw == 55 {
            PmixProcState::TermWoSync
        } else if raw == 56 {
            PmixProcState::CommFailed
        } else if raw == 57 {
            PmixProcState::SensorBoundExceeded
        } else if raw == 58 {
            PmixProcState::CalledAbort
        } else if raw == 59 {
            PmixProcState::HeartbeatFailed
        } else if raw == 60 {
            PmixProcState::Migrating
        } else if raw == 61 {
            PmixProcState::CannotRestart
        } else if raw == 62 {
            PmixProcState::TermNonZero
        } else if raw == 63 {
            PmixProcState::FailedToLaunch
        } else {
            PmixProcState::Unknown(raw)
        }
    }

    /// The raw code of this value.
    pub open spec fn code(self) -> u8 {
        match self {
            PmixProcState::Undef => 0,
            PmixProcState::Prepped => 1,
            PmixProcState::LaunchUnderway => 2,
            PmixProcState::Restart => 3,
            PmixProcState::Terminate => 4,
            PmixProcState::Running => 5,
            PmixProcState::Connected => 6,
            PmixProcState::Unterminated => 15,
            PmixProcState::Terminated => 20,
            PmixProcState::Error => 50,
            PmixProcState::KilledByCmd => 51,
            PmixProcState::Aborted => 52,
            PmixProcState::FailedToStart => 53,
            PmixProcState::AbortedBySig => 54,
            PmixProcState::TermWoSync => 55,
            PmixProcState::CommFailed => 56,
            PmixProcState::SensorBoundExceeded => 57,
            PmixProcState::CalledAbort => 58,
            PmixProcState::HeartbeatFailed => 59,
            PmixProcState::Migrating => 60,
            PmixProcState::CannotRestart => 61,
            PmixProcState::TermNonZero => 62,
            PmixProcState::FailedToLaunch => 63,
            PmixProcState::Unknown(v) => v,
        }
    }

    /// A value is canonical when `Unknown` does not carry a named code.
    pub open spec fn is_canonical(self) -> bool {
        match self {
            PmixProcState::Unknown(v) => !Self::is_named_code(v),
            _ => true,
        }
    }

    /// The human-readable label of this value.
    pub open spec fn label(self) -> Seq<char> {
        match self {
            PmixProcState::Undef => "UNDEFINED"@,
            PmixProcState::Prepped => "PREPPED FOR LAUNCH"@,
            PmixProcState::LaunchUnderway => "LAUNCH UNDERWAY"@,
            PmixProcState::Restart => "PROC READY FOR RESTART"@,
            PmixProcState::Terminate => "PROC MARKED FOR TERMINATION"@,
            PmixProcState::Running => "PROC EXECUTING"@,
            PmixProcState::Connected => "PROC HAS CONNECTED TO LOCAL PMIX SERVER"@,
            PmixProcState::Unterminated => "PROC HAS NOT TERMINATED"@,
            PmixProcState::Terminated => "PROC HAS TERMINATED"@,
            PmixProcState::Error => "PROC ERROR"@,
            PmixProcState::KilledByCmd => "PROC KILLED BY CMD"@,
            PmixProcState::Aborted => "PROC ABNORMALLY ABORTED"@,
            PmixProcState::FailedToStart => "PROC FAILED TO START"@,
            PmixProcState::AbortedBySig => "PROC ABORTED BY SIGNAL"@,
            PmixProcState::TermWoSync => "PROC TERMINATED WITHOUT CALLING PMIx_Finalize"@,
            PmixProcState::CommFailed => "PROC LOST COMMUNICATION"@,
            PmixProcState::SensorBoundExceeded => "PROC SENSOR BOUND EXCEEDED"@,
            PmixProcState::CalledAbort => "PROC CALLED PMIx_Abort"@,
            PmixProcState::HeartbeatFailed => "PROC FAILED TO REPORT HEARTBEAT"@,
            PmixProcState::Migrating => "PROC WAITING TO MIGRATE"@,
            PmixProcState::CannotRestart => "PROC CANNOT BE RESTARTED"@,
            PmixProcState::TermNonZero => "PROC TERMINATED WITH NON-ZERO STATUS"@,
            PmixProcState::FailedToLaunch => "PROC FAILED TO LAUNCH"@,
            PmixProcState::Unknown(v) => "UNKNOWN STATE ("@ + decimal_digits(v as nat) + ")"@,
        }
    }

    /// Convert a raw `pmix_proc_state_t` (`u8`) into a `PmixProcState`.
    pub fn from_raw(raw: u8) -> (r: Self)
        ensures
            r == Self::decoded(raw),
            r.is_canonical(),
    {
        match raw {
            0 => PmixProcState::Undef,
            1 => PmixProcState::Prepped,
            2 => PmixProcState::LaunchUnderway,
            3 => PmixProcState::Restart,
            4 => PmixProcState::Terminate,
            5 => PmixProcState::Running,
            6 => PmixProcState::Connected,
            15 => PmixProcState::Unterminated,
            20 => PmixProcState::Terminated,
            50 => PmixProcState::Error,
            51 => PmixProcState::KilledByCmd,
            52 => PmixProcState::Aborted,
            53 => PmixProcState::FailedToStart,
            54 => PmixProcState::AbortedBySig,
            55 => PmixProcState::TermWoSync,
            56 => PmixProcState::CommFailed,
            57 => PmixProcState::SensorBoundExceeded,
            58 => PmixProcState::CalledAbort,
            59 => PmixProcState::HeartbeatFailed,
            60 => PmixProcState::Migrating,
            61 => PmixProcState::CannotRestart,
            62 => PmixProcState::TermNonZero,
            63 => PmixProcState::FailedToLaunch,
            other => PmixProcState::Unknown(other),
        }
    }

    /// Return the raw `u8` value suitable for passing to the C API.
    pub fn to_raw(self) -> (r: u8)
        ensures
            r == self.code(),
    {
        match self {
            PmixProcState::Undef => 0,
            PmixProcState::Prepped => 1,
            PmixProcState::LaunchUnderway => 2,
            PmixProcState::Restart => 3,
            PmixProcState::Terminate => 4,
            PmixProcState::Running => 5,
            PmixProcState::Connected => 6,
            PmixProcState::Unterminated => 15,
            PmixProcState::Terminated => 20,
            PmixProcState::Error => 50,
            PmixProcState::KilledByCmd => 51,
            PmixProcState::Aborted => 52,
            PmixProcState::FailedToStart => 53,
            PmixProcState::AbortedBySig => 54,
            PmixProcState::TermWoSync => 55,
            PmixProcState::CommFailed => 56,
            PmixProcState::SensorBoundExceeded => 57,
            PmixProcState::CalledAbort => 58,
            PmixProcState::HeartbeatFailed => 59,
            PmixProcState::Migrating => 60,
            PmixProcState::CannotRestart => 61,
            PmixProcState::TermNonZero => 62,
            PmixProcState::FailedToLaunch => 63,
            PmixProcState::Unknown(v) => v,
        }
    }

    /// The human-readable label of this value (its display text).
    pub fn to_string(&self) -> (s: String)
        ensures
            s@ == self.label(),
    {
        let mut s = String::new();
        match self {
            PmixProcState::Undef => s.append("UNDEFINED"),
            PmixProcState::Prepped => s.append("PREPPED FOR LAUNCH"),
            PmixProcState::LaunchUnderway => s.append("LAUNCH UNDERWAY"),
            PmixProcState::Restart => s.append("PROC READY FOR RESTART"),
            PmixProcState::Terminate => s.append("PROC MARKED FOR TERMINATION"),
            PmixProcState::Running => s.append("PROC EXECUTING"),
            PmixProcState::Connected => s.append("PROC HAS CONNECTED TO LOCAL PMIX SERVER"),
            PmixProcState::Unterminated => s.append("PROC HAS NOT TERMINATED"),
            PmixProcState::Terminated => s.append("PROC HAS TERMINATED"),
            PmixProcState::Error => s.append("PROC ERROR"),
            PmixProcState::KilledByCmd => s.append("PROC KILLED BY CMD"),
            PmixProcState::Aborted => s.append("PROC ABNORMALLY ABORTED"),
            PmixProcState::FailedToStart => s.append("PROC FAILED TO START"),
            PmixProcState::AbortedBySig => s.append("PROC ABORTED BY SIGNAL"),
            PmixProcState::TermWoSync => s.append("PROC TERMINATED WITHOUT CALLING PMIx_Finalize"),
            PmixProcState::CommFailed => s.append("PROC LOST COMMUNICATION"),
            PmixProcState::SensorBoundExceeded => s.append("PROC SENSOR BOUND EXCEEDED"),
            PmixProcState::CalledAbort => s.append("PROC CALLED PMIx_Abort"),
            PmixProcState::HeartbeatFailed => s.append("PROC FAILED TO REPORT HEARTBEAT"),
            PmixProcState::Migrating => s.append("PROC WAITING TO MIGRATE"),
            PmixProcState::CannotRestart => s.append("PROC CANNOT BE RESTARTED"),
            PmixProcState::TermNonZero => s.append("PROC TERMINATED WITH NON-ZERO STATUS"),
            PmixProcState::FailedToLaunch => s.append("PROC FAILED TO LAUNCH"),
            PmixProcState::Unknown(v) => {
                s.append("UNKNOWN STATE (");
                push_decimal(&mut s, *v as u64);
                s.append(")");
            },
        }
        s
    }

    /// The states in which the process is still alive: running, connected,
    /// or in a transitional pre-launch state.
    pub open spec fn alive(self) -> bool {
        match self {
            PmixProcState::Prepped | PmixProcState::LaunchUnderway | PmixProcState::Restart
            | PmixProcState::Running | PmixProcState::Connected | PmixProcState::Unterminated
            | PmixProcState::Migrating => true,
            _ => false,
        }
    }

    /// The states in which the process has terminated, cleanly or not.
    pub open spec fn terminated(self) -> bool {
        match self {
            PmixProcState::Terminated | PmixProcState::KilledByCmd | PmixProcState::Aborted
            | PmixProcState::FailedToStart | PmixProcState::AbortedBySig
            | PmixProcState::TermWoSync | PmixProcState::CommFailed
            | PmixProcState::SensorBoundExceeded | PmixProcState::CalledAbort
            | PmixProcState::HeartbeatFailed | PmixProcState::CannotRestart
            | PmixProcState::TermNonZero | PmixProcState::FailedToLaunch => true,
            _ => false,
        }
    }

    /// `true` if the state indicates the process is still alive (running,
    /// connected, or in a transitional pre-launch state).
    pub fn is_alive(self) -> (b: bool)
        ensures
            b == self.alive(),
    {
        match self {
            PmixProcState::Prepped | PmixProcState::LaunchUnderway | PmixProcState::Restart
            | PmixProcState::Running | PmixProcState::Connected | PmixProcState::Unterminated
            | PmixProcState::Migrating => true,
            _ => false,
        }
    }

    /// `true` if the state indicates the process has terminated (cleanly or
    /// not).
    pub fn is_terminated(self) -> (b: bool)
        ensures
            b == self.terminated(),
    {
        match self {
            PmixProcState::Terminated | PmixProcState::KilledByCmd | PmixProcState::Aborted
            | PmixProcState::FailedToStart | PmixProcState::AbortedBySig
            | PmixProcState::TermWoSync | PmixProcState::CommFailed
            | PmixProcState::SensorBoundExceeded | PmixProcState::CalledAbort
            | PmixProcState::HeartbeatFailed | PmixProcState::CannotRestart
            | PmixProcState::TermNonZero | PmixProcState::FailedToLaunch => true,
            _ => false,
        }
    }

}

/// Decoding any raw `u8` and encoding the value gives the code back.
pub proof fn lemma_proc_state_raw_roundtrip(raw: u8)
    ensures
        PmixProcState::decoded(raw).code() == raw,
        PmixProcState::decoded(raw).is_canonical(),
{
}

/// Encoding a canonical value and decoding the code gives the value back.
pub proof fn lemma_proc_state_value_roundtrip(x: PmixProcState)
    requires
        x.is_canonical(),
    ensures
        PmixProcState::decoded(x.code()) == x,
{
}

/// No process state is both alive and terminated; the undefined, the
/// marked-for-termination, the generic-error and every unknown state are
/// neither.
pub proof fn lemma_proc_state_alive_excludes_terminated(s: PmixProcState)
    ensures
        !(s.alive() && s.terminated()),
        s == PmixProcState::Undef ==> !s.alive() && !s.terminated(),
        s == PmixProcState::Terminate ==> !s.alive() && !s.terminated(),
        s == PmixProcState::Error ==> !s.alive() && !s.terminated(),
        s is Unknown ==> !s.alive() && !s.terminated(),
{
}


/// By code: a process is alive in the pre-launch and active states
/// (`PREPPED`, `LAUNCH_UNDERWAY`, `RESTART`, `RUNNING`, `CONNECTED`), in
/// `UNTERMINATED` and in `MIGRATING`; it has terminated in `TERMINATED` and
/// in every error state from `KILLED_BY_CMD` (51) to `FAILED_TO_LAUNCH` (63)
/// other than `MIGRATING` (60). `UNDEF`, `TERMINATE`, `ERROR` and unnamed
/// codes are neither.
pub proof fn lemma_proc_state_alive_and_terminated_codes(raw: u8)
    ensures
        PmixProcState::decoded(raw).alive() <==> (raw == 1 || raw == 2 || raw == 3 || raw == 5
            || raw == 6 || raw == 15 || raw == 60),
        PmixProcState::decoded(raw).terminated() <==> (raw == 20 || (51 <= raw <= 63 && raw
            != 60)),
{
}

/// Safe Rust representation of `pmix_scope_t` (PMIx 5.0).
///
/// `pmix_scope_t` defines the visibility scope for data stored via `PMIx_Put`.
/// It is a `uint8_t` with the following values defined in `pmix_common.h`:
///
/// * `0` — Undefined scope
/// * `1` — Local (same node only)
/// * `2` — Remote (remote nodes only)
/// * `3` — Global (all nodes)
/// * `4` — Internal (library-internal storage)
///
/// Use [`PmixScope::from_raw`] to convert a `pmix_scope_t` received from C
/// and [`PmixScope::to_raw`] to convert back.
#[derive(Debug, Clone, Copy, PartialEq, Eq, Hash, Structural)]
#[non_exhaustive]
pub enum PmixScope {
    /// `PMIX_SCOPE_UNDEF` (0) — undefined scope.
    Undef,

    /// `PMIX_LOCAL` (1) — share with processes also on this node.
    Local,

    /// `PMIX_REMOTE` (2) — share with processes not on this node.
    Remote,

    /// `PMIX_GLOBAL` (3) — share with all processes (local + remote).
    Global,

    /// `PMIX_INTERNAL` (4) — store data in the internal tables only.
    Internal,

    /// An unrecognised or future scope value.
    Unknown(u8),
}

impl PmixScope {
    /// `true` when `raw` is the code of a named variant.
    pub open spec fn is_named_code(raw: u8) -> bool {
        raw == 0
        || raw == 1
        || raw == 2
        || raw == 3
        || raw == 4
    }

    /// The value that a raw code stands for.
    pub open spec fn decoded(raw: u8) -> Self {
        if raw == 0 {
            PmixScope::Undef
        } else if raw == 1 {
            PmixScope::Local
        } else if raw == 2 {
            PmixScope::Remote
        } else if raw == 3 {
            PmixScope::Global
        } else if raw == 4 {
            PmixScope::Internal
        } else {
            PmixScope::Unknown(raw)
        }
    }

    /// The raw code of this value.
    pub open spec fn code(self) -> u8 {
        match self {
            PmixScope::Undef => 0,
            PmixScope::Local => 1,
            PmixScope::Remote => 2,
            PmixScope::Global => 3,
            PmixScope::Internal => 4,
            PmixScope::Unknown(v) => v,
        }
    }

    /// A value is canonical when `Unknown` does not carry a named code.
    pub open spec fn is_canonical(self) -> bool {
        match self {
            PmixScope::Unknown(v) => !Self::is_named_code(v),
            _ => true,
        }
    }

    /// The human-readable label of this value.
    pub open spec fn label(self) -> Seq<char> {
        match self {
            PmixScope::Undef => "UNDEFINED"@,
            PmixScope::Local => "LOCAL"@,
            PmixScope::Remote => "REMOTE"@,
            PmixScope::Global => "GLOBAL"@,
            PmixScope::Internal => "INTERNAL"@,
            PmixScope::Unknown(v) => "UNKNOWN SCOPE ("@ + decimal_digits(v as nat) + ")"@,
        }
    }

    /// Convert a raw `pmix_scope_t` (`u8`) into a `PmixScope`.
    pub fn from_raw(raw: u8) -> (r: Self)
        ensures
            r == Self::decoded(raw),
            r.is_canonical(),
    {
        match raw {
            0 => PmixScope::Undef,
            1 => PmixScope::Local,
            2 => PmixScope::Remote,
            3 => PmixScope::Global,
            4 => PmixScope::Internal,
            other => PmixScope::Unknown(other),
        }
    }

    /// Return the raw `u8` value suitable for passing to the C API.
    pub fn to_raw(self) -> (r: u8)
        ensures
            r == self.code(),
    {
        match self {
            PmixScope::Undef => 0,
            PmixScope::Local => 1,
            PmixScope::Remote => 2,
            PmixScope::Global => 3,
            PmixScope::Internal => 4,
            PmixScope::Unknown(v) => v,
        }
    }

    /// The human-readable label of this value (its display text).
    pub fn to_string(&self) -> (s: String)
        ensures
            s@ == self.label(),
    {
        let mut s = String::new();
        match self {
            PmixScope::Undef => s.append("UNDEFINED"),
            PmixScope::Local => s.append("LOCAL"),
            PmixScope::Remote => s.append("REMOTE"),
            PmixScope::Global => s.append("GLOBAL"),
            PmixScope::Internal => s.append("INTERNAL"),
            PmixScope::Unknown(v) => {
                s.append("UNKNOWN SCOPE (");
                push_decimal(&mut s, *v as u64);
                s.append(")");
            },
        }
        s
    }
}

/// Decoding any raw `u8` and encoding the value gives the code back.
pub proof fn lemma_scope_raw_roundtrip(raw: u8)
    ensures
        PmixScope::decoded(raw).code() == raw,
        PmixScope::decoded(raw).is_canonical(),
{
}

/// Encoding a canonical value and decoding the code gives the value back.
pub proof fn lemma_scope_value_roundtrip(x: PmixScope)
    requires
        x.is_canonical(),
    ensures
        PmixScope::decoded(x.code()) == x,
{
}

/// Safe Rust representation of `pmix_job_state_t` (PMIx v4.0+).
///
/// `pmix_job_state_t` is a `uint8_t` that encodes the lifecycle state
/// of a job managed by the PMIx resource manager.  Values are grouped
/// into logical ranges:
///
/// * `0`        — undefined
/// * `1–5`      — pre-launch and active states
/// * `15`       — unterminated (still alive boundary)
/// * `20`       — cleanly terminated
/// * `50+`      — error / abnormal termination states
///
/// All values defined in `pmix_common.h §Job State Definitions` are
/// represented.  Unknown raw values from future library versions are
/// captured in the [`Unknown`][PmixJobState::Unknown] variant.
///
/// # C API
/// `typedef uint8_t pmix_job_state_t;`
#[derive(Debug, Clone, Copy, PartialEq, Eq, Hash, Structural)]
#[non_exhaustive]
pub enum PmixJobState {
    /// `PMIX_JOB_STATE_UNDEF` (0) — undefined job state.
    Undef,

    /// `PMIX_JOB_STATE_AWAITING_ALLOC` (1) — job is waiting for resources
    /// to be allocated to it.
    AwaitingAlloc,

    /// `PMIX_JOB_STATE_LAUNCH_UNDERWAY` (2) — job launch is underway.
    LaunchUnderway,

    /// `PMIX_JOB_STATE_RUNNING` (3) — all processes have been spawned.
    Running,

    /// `PMIX_JOB_STATE_SUSPENDED` (4) — job has been suspended.
    Suspended,

    /// `PMIX_JOB_STATE_CONNECTED` (5) — all processes have connected to
    /// their PMIx server.
    Connected,

    /// `PMIX_JOB_STATE_UNTERMINATED` (15) — boundary value; any state less
    /// than this means the job has not terminated.
    Unterminated,

    /// `PMIX_JOB_STATE_TERMINATED` (20) — job has terminated and is no
    /// longer running, typically accompanied by the job exit status.
    Terminated,

    /// `PMIX_JOB_STATE_TERMINATED_WITH_ERROR` (50) — job has terminated
    /// and is no longer running, typically accompanied by a job-related
    /// error code.
    TerminatedWithError,

    /// An unrecognised or future job state value.
    Unknown(u8),
}

impl PmixJobState {
    /// `true` when `raw` is the code of a named variant.
    pub open spec fn is_named_code(raw: u8) -> bool {
        raw == 0
        || raw == 1
        || raw == 2
        || raw == 3
        || raw == 4
        || raw == 5
        || raw == 15
        || raw == 20
        || raw == 50
    }

    /// The value that a raw code stands for.
    pub open spec fn decoded(raw: u8) -> Self {
        if raw == 0 {
            PmixJobState::Undef
        } else if raw == 1 {
            PmixJobState::AwaitingAlloc
        } else if raw == 2 {
            PmixJobState::LaunchUnderway
        } else if raw == 3 {
            PmixJobState::Running
        } else if raw == 4 {
            PmixJobState::Suspended
        } else if raw == 5 {
            PmixJobState::Connected
        } else if raw == 15 {
            PmixJobState::Unterminated
        } else if raw == 20 {
            PmixJobState::Terminated
        } else if raw == 50 {
            PmixJobState::TerminatedWithError
        } else {
            PmixJobState::Unknown(raw)
        }
    }

    /// The raw code of this value.
    pub open spec fn code(self) -> u8 {
        match self {
            PmixJobState::Undef => 0,
            PmixJobState::AwaitingAlloc => 1,
            PmixJobState::LaunchUnderway => 2,
            PmixJobState::Running => 3,
            PmixJobState::Suspended => 4,
            PmixJobState::Connected => 5,
            PmixJobState::Unterminated => 15,
            PmixJobState::Terminated => 20,
            PmixJobState::TerminatedWithError => 50,
            PmixJobState::Unknown(v) => v,
        }
    }

    /// A value is canonical when `Unknown` does not carry a named code.
    pub open spec fn is_canonical(self) -> bool {
        match self {
            PmixJobState::Unknown(v) => !Self::is_named_code(v),
            _ => true,
        }
    }

    /// The human-readable label of this value.
    pub open spec fn label(self) -> Seq<char> {
        match self {
            PmixJobState::Undef => "UNDEF"@,
            PmixJobState::AwaitingAlloc => "AWAITING_ALLOC"@,
            PmixJobState::LaunchUnderway => "LAUNCH_UNDERWAY"@,
            PmixJobState::Running => "RUNNING"@,
            PmixJobState::Suspended => "SUSPENDED"@,
            PmixJobState::Connected => "CONNECTED"@,
            PmixJobState::Unterminated => "UNTERMINATED"@,
            PmixJobState::Terminated => "TERMINATED"@,
            PmixJobState::TerminatedWithError => "TERMINATED_WITH_ERROR"@,
            PmixJobState::Unknown(v) => "UNKNOWN JOB STATE ("@ + decimal_digits(v as nat) + ")"@,
        }
    }

    /// Convert a raw `pmix_job_state_t` (`u8`) into a `PmixJobState`.
    pub fn from_raw(raw: u8) -> (r: Self)
        ensures
            r == Self::decoded(raw),
            r.is_canonical(),
    {
        match raw {
            0 => PmixJobState::Undef,
            1 => PmixJobState::AwaitingAlloc,
            2 => PmixJobState::LaunchUnderway,
            3 => PmixJobState::Running,
            4 => PmixJobState::Suspended,
            5 => PmixJobState::Connected,
            15 => PmixJobState::Unterminated,
            20 => PmixJobState::Terminated,
            50 => PmixJobState::TerminatedWithError,
            other => PmixJobState::Unknown(other),
        }
    }

    /// Return the raw `u8` value suitable for passing to the C API.
    pub fn to_raw(self) -> (r: u8)
        ensures
            r == self.code(),
    {
        match self {
            PmixJobState::Undef => 0,
            PmixJobState::AwaitingAlloc => 1,
            PmixJobState::LaunchUnderway => 2,
            PmixJobState::Running => 3,
            PmixJobState::Suspended => 4,
            PmixJobState::Connected => 5,
            PmixJobState::Unterminated => 15,
            PmixJobState::Terminated => 20,
            PmixJobState::TerminatedWithError => 50,
            PmixJobState::Unknown(v) => v,
        }
    }

    /// The human-readable label of this value (its display text).
    pub fn to_string(&self) -> (s: String)
        ensures
            s@ == self.label(),
    {
        let mut s = String::new();
        match self {
            PmixJobState::Undef => s.append("UNDEF"),
            PmixJobState::AwaitingAlloc => s.append("AWAITING_ALLOC"),
            PmixJobState::LaunchUnderway => s.append("LAUNCH_UNDERWAY"),
            PmixJobState::Running => s.append("RUNNING"),
            PmixJobState::Suspended => s.append("SUSPENDED"),
            PmixJobState::Connected => s.append("CONNECTED"),
            PmixJobState::Unterminated => s.append("UNTERMINATED"),
            PmixJobState::Terminated => s.append("TERMINATED"),
            PmixJobState::TerminatedWithError => s.append("TERMINATED_WITH_ERROR"),
            PmixJobState::Unknown(v) => {
                s.append("UNKNOWN JOB STATE (");
                push_decimal(&mut s, *v as u64);
                s.append(")");
            },
        }
        s
    }
}

/// Decoding any raw `u8` and encoding the value gives the code back.
pub proof fn lemma_job_state_raw_roundtrip(raw: u8)
    ensures
        PmixJobState::decoded(raw).code() == raw,
        PmixJobState::decoded(raw).is_canonical(),
{
}

/// Encoding a canonical value and decoding the code gives the value back.
pub proof fn lemma_job_state_value_roundtrip(x: PmixJobState)
    requires
        x.is_canonical(),
    ensures
        PmixJobState::decoded(x.code()) == x,
{
}

/// Safe Rust representation of `pmix_link_state_t` (PMIx v4.1+).
///
/// `pmix_link_state_t` is a `uint8_t` that encodes the physical link state
/// of a fabric device port. Used by the fabric device API to report port
/// status:
///
/// * `0` — `UNKNOWN` — port state is unknown or not applicable.
/// * `1` — `LINK_DOWN` — port is inactive.
/// * `2` — `LINK_UP` — port is active.
///
/// All values defined in `pmix_common.h §Link State Definitions` are
/// represented.  Unknown raw values from future library versions are
/// captured in the [`Unknown`][PmixLinkState::Unknown] variant.
///
/// # C API
/// `typedef uint8_t pmix_link_state_t;`
#[derive(Debug, Clone, Copy, PartialEq, Eq, Hash, Structural)]
#[non_exhaustive]
pub enum PmixLinkState {
    /// `PMIX_LINK_STATE_UNKNOWN` (0) — the port state is unknown or not
    /// applicable.
    UnknownState,

    /// `PMIX_LINK_DOWN` (1) — the port is inactive.
    LinkDown,

    /// `PMIX_LINK_UP` (2) — the port is active.
    LinkUp,

    /// An unrecognised or future link state value.
    Unknown(u8),
}

impl PmixLinkState {
    /// `true` when `raw` is the code of a named variant.
    pub open spec fn is_named_code(raw: u8) -> bool {
        raw == 0
        || raw == 1
        || raw == 2
    }

    /// The value that a raw code stands for.
    pub open spec fn decoded(raw: u8) -> Self {
        if raw == 0 {
            PmixLinkState::UnknownState
        } else if raw == 1 {
            PmixLinkState::LinkDown
        } else if raw == 2 {
            PmixLinkState::LinkUp
        } else {
            PmixLinkState::Unknown(raw)
        }
    }

    /// The raw code of this value.
    pub open spec fn code(self) -> u8 {
        match self {
            PmixLinkState::UnknownState => 0,
            PmixLinkState::LinkDown => 1,
            PmixLinkState::LinkUp => 2,
            PmixLinkState::Unknown(v) => v,
        }
    }

    /// A value is canonical when `Unknown` does not carry a named code.
    pub open spec fn is_canonical(self) -> bool {
        match self {
            PmixLinkState::Unknown(v) => !Self::is_named_code(v),
            _ => true,
        }
    }

    /// The human-readable label of this value.
    pub open spec fn label(self) -> Seq<char> {
        match self {
            PmixLinkState::UnknownState => "UNKNOWN"@,
            PmixLinkState::LinkDown => "INACTIVE"@,
            PmixLinkState::LinkUp => "ACTIVE"@,
            PmixLinkState::Unknown(v) => "UNKNOWN LINK STATE ("@ + decimal_digits(v as nat) + ")"@,
        }
    }

    /// Convert a raw `pmix_link_state_t` (`u8`) into a `PmixLinkState`.
    pub fn from_raw(raw: u8) -> (r: Self)
        ensures
            r == Self::decoded(raw),
            r.is_canonical(),
    {
        match raw {
            0 => PmixLinkState::UnknownState,
            1 => PmixLinkState::LinkDown,
            2 => PmixLinkState::LinkUp,
            other => PmixLinkState::Unknown(other),
        }
    }

    /// Return the raw `u8` value suitable for passing to the C API.
    pub fn to_raw(self) -> (r: u8)
        ensures
            r == self.code(),
    {
        match self {
            PmixLinkState::UnknownState => 0,
            PmixLinkState::LinkDown => 1,
            PmixLinkState::LinkUp => 2,
            PmixLinkState::Unknown(v) => v,
        }
    }

    /// The human-readable label of this value (its display text).
    pub fn to_string(&self) -> (s: String)
        ensures
            s@ == self.label(),
    {
        let mut s = String::new();
        match self {
            PmixLinkState::UnknownState => s.append("UNKNOWN"),
            PmixLinkState::LinkDown => s.append("INACTIVE"),
            PmixLinkState::LinkUp => s.append("ACTIVE"),
            PmixLinkState::Unknown(v) => {
                s.append("UNKNOWN LINK STATE (");
                push_decimal(&mut s, *v as u64);
                s.append(")");
            },
        }
        s
    }
}

/// Decoding any raw `u8` and encoding the value gives the code back.
pub proof fn lemma_link_state_raw_roundtrip(raw: u8)
    ensures
        PmixLinkState::decoded(raw).code() == raw,
        PmixLinkState::decoded(raw).is_canonical(),
{
}

/// Encoding a canonical value and decoding the code gives the value back.
pub proof fn lemma_link_state_value_roundtrip(x: PmixLinkState)
    requires
        x.is_canonical(),
    ensures
        PmixLinkState::decoded(x.code()) == x,
{
}

/// Safe Rust representation of `pmix_device_type_t` (PMIx v4.1+).
///
/// `pmix_device_type_t` is a `uint64_t` bitmask that encodes hardware device
/// types on a node. Used by the fabric / hardware API to classify devices:
///
/// * `0x00` — `UNKNOWN` — device type is unknown or not applicable.
/// * `0x01` — `BLOCK` — block storage device (disk, NVMe, etc.).
/// * `0x02` — `GPU` — graphics processing unit.
/// * `0x04` — `NETWORK` — network interface card.
/// * `0x08` — `OPENFABRICS` — InfiniBand / RoCE / iWARP fabric adapter.
/// * `0x10` — `DMA` — direct memory access engine.
/// * `0x20` — `COPROC` — coprocessor (FPGA, accelerator, etc.).
///
/// All values defined in `pmix_common.h §Device Type Definitions` are
/// represented.  Unknown raw values from future library versions are
/// captured in the [`Unknown`][PmixDeviceType::Unknown] variant.
///
/// # C API
/// `typedef uint64_t pmix_device_type_t;`
#[derive(Debug, Clone, Copy, PartialEq, Eq, Hash, Structural)]
#[non_exhaustive]
pub enum PmixDeviceType {
    /// `PMIX_DEVTYPE_UNKNOWN` (0x00) — device type is unknown or not
    /// applicable.
    UnknownType,

    /// `PMIX_DEVTYPE_BLOCK` (0x01) — block storage device.
    Block,

    /// `PMIX_DEVTYPE_GPU` (0x02) — graphics processing unit.
    Gpu,

    /// `PMIX_DEVTYPE_NETWORK` (0x04) — network interface card.
    Network,

    /// `PMIX_DEVTYPE_OPENFABRICS` (0x08) — InfiniBand / RoCE / iWARP
    /// fabric adapter.
    OpenFabrics,

    /// `PMIX_DEVTYPE_DMA` (0x10) — direct memory access engine.
    Dma,

    /// `PMIX_DEVTYPE_COPROC` (0x20) — coprocessor (FPGA, accelerator,
    /// etc.).
    Coproc,

    /// An unrecognised or future device type value.
    Unknown(u64),
}

impl PmixDeviceType {
    /// `true` when `raw` is the code of a named variant.
    pub open spec fn is_named_code(raw: u64) -> bool {
        raw == 0
        || raw == 1
        || raw == 2
        || raw == 4
        || raw == 8
        || raw == 16
        || raw == 32
    }

    /// The value that a raw code stands for.
    pub open spec fn decoded(raw: u64) -> Self {
        if raw == 0 {
            PmixDeviceType::UnknownType
        } else if raw == 1 {
            PmixDeviceType::Block
        } else if raw == 2 {
            PmixDeviceType::Gpu
        } else if raw == 4 {
            PmixDeviceType::Network
        } else if raw == 8 {
            PmixDeviceType::OpenFabrics
        } else if raw == 16 {
            PmixDeviceType::Dma
        } else if raw == 32 {
            PmixDeviceType::Coproc
        } else {
            PmixDeviceType::Unknown(raw)
        }
    }

    /// The raw code of this value.
    pub open spec fn code(self) -> u64 {
        match self {
            PmixDeviceType::UnknownType => 0,
            PmixDeviceType::Block => 1,
            PmixDeviceType::Gpu => 2,
            PmixDeviceType::Network => 4,
            PmixDeviceType::OpenFabrics => 8,
            PmixDeviceType::Dma => 16,
            PmixDeviceType::Coproc => 32,
            PmixDeviceType::Unknown(v) => v,
        }
    }

    /// A value is canonical when `Unknown` does not carry a named code.
    pub open spec fn is_canonical(self) -> bool {
        match self {
            PmixDeviceType::Unknown(v) => !Self::is_named_code(v),
            _ => true,
        }
    }

    /// The human-readable label of this value.
    pub open spec fn label(self) -> Seq<char> {
        match self {
            PmixDeviceType::UnknownType => "UNKNOWN"@,
            PmixDeviceType::Block => "BLOCK"@,
            PmixDeviceType::Gpu => "GPU"@,
            PmixDeviceType::Network => "NETWORK"@,
            PmixDeviceType::OpenFabrics => "OPENFABRICS"@,
            PmixDeviceType::Dma => "DMA"@,
            PmixDeviceType::Coproc => "COPROCESSOR"@,
            PmixDeviceType::Unknown(v) => "UNKNOWN DEVICE TYPE ("@ + hex_digits(v as nat) + ")"@,
        }
    }

    /// Convert a raw `pmix_device_type_t` (`u64`) into a `PmixDeviceType`.
    pub fn from_raw(raw: u64) -> (r: Self)
        ensures
            r == Self::decoded(raw),
            r.is_canonical(),
    {
        match raw {
            0 => PmixDeviceType::UnknownType,
            1 => PmixDeviceType::Block,
            2 => PmixDeviceType::Gpu,
            4 => PmixDeviceType::Network,
            8 => PmixDeviceType::OpenFabrics,
            16 => PmixDeviceType::Dma,
            32 => PmixDeviceType::Coproc,
            other => PmixDeviceType::Unknown(other),
        }
    }

    /// Return the raw `u64` value suitable for passing to the C API.
    pub fn to_raw(self) -> (r: u64)
        ensures
            r == self.code(),
    {
        match self {
            PmixDeviceType::UnknownType => 0,
            PmixDeviceType::Block => 1,
            PmixDeviceType::Gpu => 2,
            PmixDeviceType::Network => 4,
            PmixDeviceType::OpenFabrics => 8,
            PmixDeviceType::Dma => 16,
            PmixDeviceType::Coproc => 32,
            PmixDeviceType::Unknown(v) => v,
        }
    }

    /// The human-readable label of this value (its display text).
    pub fn to_string(&self) -> (s: String)
        ensures
            s@ == self.label(),
    {
        let mut s = String::new();
        match self {
            PmixDeviceType::UnknownType => s.append("UNKNOWN"),
            PmixDeviceType::Block => s.append("BLOCK"),
            PmixDeviceType::Gpu => s.append("GPU"),
            PmixDeviceType::Network => s.append("NETWORK"),
            PmixDeviceType::OpenFabrics => s.append("OPENFABRICS"),
            PmixDeviceType::Dma => s.append("DMA"),
            PmixDeviceType::Coproc => s.append("COPROCESSOR"),
            PmixDeviceType::Unknown(v) => {
                s.append("UNKNOWN DEVICE TYPE (");
                push_hex(&mut s, *v as u64);
                s.append(")");
            },
        }
        s
    }
}

/// Decoding any raw `u64` and encoding the value gives the code back.
pub proof fn lemma_device_type_raw_roundtrip(raw: u64)
    ensures
        PmixDeviceType::decoded(raw).code() == raw,
        PmixDeviceType::decoded(raw).is_canonical(),
{
}

/// Encoding a canonical value and decoding the code gives the value back.
pub proof fn lemma_device_type_value_roundtrip(x: PmixDeviceType)
    requires
        x.is_canonical(),
    ensures
        PmixDeviceType::decoded(x.code()) == x,
{
}

/// Persistence of a published data item — how long the server should retain
/// the value before automatically discarding it.
///
/// Maps to `pmix_persistence_t` (`uint8_t`) in the C API.
///
/// # C API
/// `typedef uint8_t pmix_persistence_t`
#[derive(Debug, Clone, Copy, PartialEq, Eq, Hash, Structural)]
#[non_exhaustive]
pub enum PmixPersistence {
    /// `PMIX_PERSIST_INDEF` (0) — retain until specifically deleted.
    Indefinite,

    /// `PMIX_PERSIST_FIRST_READ` (1) — delete upon first access.
    FirstRead,

    /// `PMIX_PERSIST_PROC` (2) — retain until publishing process terminates.
    Process,

    /// `PMIX_PERSIST_APP` (3) — retain until application terminates.
    Application,

    /// `PMIX_PERSIST_SESSION` (4) — retain until session/allocation terminates.
    Session,

    /// `PMIX_PERSIST_INVALID` (255) — invalid persistence value.
    Invalid,

    /// An unrecognised or future persistence value.
    Unknown(u8),
}

impl PmixPersistence {
    /// `true` when `raw` is the code of a named variant.
    pub open spec fn is_named_code(raw: u8) -> bool {
        raw == 0
        || raw == 1
        || raw == 2
        || raw == 3
        || raw == 4
        || raw == 255
    }

    /// The value that a raw code stands for.
    pub open spec fn decoded(raw: u8) -> Self {
        if raw == 0 {
            PmixPersistence::Indefinite
        } else if raw == 1 {
            PmixPersistence::FirstRead
        } else if raw == 2 {
            PmixPersistence::Process
        } else if raw == 3 {
            PmixPersistence::Application
        } else if raw == 4 {
            PmixPersistence::Session
        } else if raw == 255 {
            PmixPersistence::Invalid
        } else {
            PmixPersistence::Unknown(raw)
        }
    }

    /// The raw code of this value.
    pub open spec fn code(self) -> u8 {
        match self {
            PmixPersistence::Indefinite => 0,
            PmixPersistence::FirstRead => 1,
            PmixPersistence::Process => 2,
            PmixPersistence::Application => 3,
            PmixPersistence::Session => 4,
            PmixPersistence::Invalid => 255,
            PmixPersistence::Unknown(v) => v,
        }
    }

    /// A value is canonical when `Unknown` does not carry a named code.
    pub open spec fn is_canonical(self) -> bool {
        match self {
            PmixPersistence::Unknown(v) => !Self::is_named_code(v),
            _ => true,
        }
    }

    /// The human-readable label of this value.
    pub open spec fn label(self) -> Seq<char> {
        match self {
            PmixPersistence::Indefinite => "INDEFINITE"@,
            PmixPersistence::FirstRead => "DELETE ON FIRST ACCESS"@,
            PmixPersistence::Process => "RETAIN UNTIL PUBLISHING PROCESS TERMINATES"@,
            PmixPersistence::Application => "RETAIN UNTIL APPLICATION OF PUBLISHING PROCESS TERMINATES"@,
            PmixPersistence::Session => "RETAIN UNTIL ALLOCATION OF PUBLISHING PROCESS TERMINATES"@,
            PmixPersistence::Invalid => "INVALID"@,
            PmixPersistence::Unknown(v) => "UNKNOWN PERSISTENCE ("@ + decimal_digits(v as nat) + ")"@,
        }
    }

    /// Convert a raw `pmix_persistence_t` (`u8`) into a `PmixPersistence`.
    pub fn from_raw(raw: u8) -> (r: Self)
        ensures
            r == Self::decoded(raw),
            r.is_canonical(),
    {
        match raw {
            0 => PmixPersistence::Indefinite,
            1 => PmixPersistence::FirstRead,
            2 => PmixPersistence::Process,
            3 => PmixPersistence::Application,
            4 => PmixPersistence::Session,
            255 => PmixPersistence::Invalid,
            other => PmixPersistence::Unknown(other),
        }
    }

    /// Return the raw `u8` value suitable for passing to the C API.
    pub fn to_raw(self) -> (r: u8)
        ensures
            r == self.code(),
    {
        match self {
            PmixPersistence::Indefinite => 0,
            PmixPersistence::FirstRead => 1,
            PmixPersistence::Process => 2,
            PmixPersistence::Application => 3,
            PmixPersistence::Session => 4,
            PmixPersistence::Invalid => 255,
            PmixPersistence::Unknown(v) => v,
        }
    }

    /// The human-readable label of this value (its display text).
    pub fn to_string(&self) -> (s: String)
        ensures
            s@ == self.label(),
    {
        let mut s = String::new();
        match self {
            PmixPersistence::Indefinite => s.append("INDEFINITE"),
            PmixPersistence::FirstRead => s.append("DELETE ON FIRST ACCESS"),
            PmixPersistence::Process => s.append("RETAIN UNTIL PUBLISHING PROCESS TERMINATES"),
            PmixPersistence::Application => s.append("RETAIN UNTIL APPLICATION OF PUBLISHING PROCESS TERMINATES"),
            PmixPersistence::Session => s.append("RETAIN UNTIL ALLOCATION OF PUBLISHING PROCESS TERMINATES"),
            PmixPersistence::Invalid => s.append("INVALID"),
            PmixPersistence::Unknown(v) => {
                s.append("UNKNOWN PERSISTENCE (");
                push_decimal(&mut s, *v as u64);
                s.append(")");
            },
        }
        s
    }
}

/// Decoding any raw `u8` and encoding the value gives the code back.
pub proof fn lemma_persistence_raw_roundtrip(raw: u8)
    ensures
        PmixPersistence::decoded(raw).code() == raw,
        PmixPersistence::decoded(raw).is_canonical(),
{
}

/// Encoding a canonical value and decoding the code gives the value back.
pub proof fn lemma_persistence_value_roundtrip(x: PmixPersistence)
    requires
        x.is_canonical(),
    ensures
        PmixPersistence::decoded(x.code()) == x,
{
}

/// Range for data published by PMIx — where the data is visible.
///
/// Maps to `pmix_data_range_t` (`uint8_t`) in the C API. Defines the
/// range across which published data is accessible, used by
/// `PMIx_Publish`, `PMIx_Lookup`, `PMIx_Unpublish`, and notification
/// event delivery.
///
/// # C API
/// `typedef uint8_t pmix_data_range_t`
#[derive(Debug, Clone, Copy, PartialEq, Eq, Hash, Structural)]
#[non_exhaustive]
pub enum PmixDataRange {
    /// `PMIX_RANGE_UNDEF` (0) — undefined range.
    Undef,

    /// `PMIX_RANGE_RM` (1) — data is intended for the host resource manager.
    Rm,

    /// `PMIX_RANGE_LOCAL` (2) — available on local node only.
    Local,

    /// `PMIX_RANGE_NAMESPACE` (3) — data is available to procs in the same
    /// namespace only.
    Namespace,

    /// `PMIX_RANGE_SESSION` (4) — data available to all procs in the session.
    Session,

    /// `PMIX_RANGE_GLOBAL` (5) — data available to all procs.
    Global,

    /// `PMIX_RANGE_CUSTOM` (6) — range is specified in a `pmix_info_t`.
    Custom,

    /// `PMIX_RANGE_PROC_LOCAL` (7) — restrict range to the local process.
    ProcLocal,

    /// `PMIX_RANGE_INVALID` (255) — invalid range value.
    Invalid,

    /// An unrecognised or future range value.
    Unknown,
}

impl PmixDataRange {
    /// `true` when `raw` is the code of a named variant.
    pub open spec fn is_named_code(raw: u8) -> bool {
        raw == 0
        || raw == 1
        || raw == 2
        || raw == 3
        || raw == 4
        || raw == 5
        || raw == 6
        || raw == 7
        || raw == 255
    }

    /// The value that a raw code stands for.
    pub open spec fn decoded(raw: u8) -> Self {
        if raw == 0 {
            PmixDataRange::Undef
        } else if raw == 1 {
            PmixDataRange::Rm
        } else if raw == 2 {
            PmixDataRange::Local
        } else if raw == 3 {
            PmixDataRange::Namespace
        } else if raw == 4 {
            PmixDataRange::Session
        } else if raw == 5 {
            PmixDataRange::Global
        } else if raw == 6 {
            PmixDataRange::Custom
        } else if raw == 7 {
            PmixDataRange::ProcLocal
        } else if raw == 255 {
            PmixDataRange::Invalid
        } else {
            PmixDataRange::Unknown
        }
    }

    /// The raw code of this value.
    pub open spec fn code(self) -> u8 {
        match self {
            PmixDataRange::Undef => 0,
            PmixDataRange::Rm => 1,
            PmixDataRange::Local => 2,
            PmixDataRange::Namespace => 3,
            PmixDataRange::Session => 4,
            PmixDataRange::Global => 5,
            PmixDataRange::Custom => 6,
            PmixDataRange::ProcLocal => 7,
            PmixDataRange::Invalid => 255,
            PmixDataRange::Unknown => 128,
        }
    }

    /// The human-readable label of this value.
    pub open spec fn label(self) -> Seq<char> {
        match self {
            PmixDataRange::Undef => "UNDEFINED"@,
            PmixDataRange::Rm => "RM"@,
            PmixDataRange::Local => "LOCAL"@,
            PmixDataRange::Namespace => "NAMESPACE"@,
            PmixDataRange::Session => "SESSION"@,
            PmixDataRange::Global => "GLOBAL"@,
            PmixDataRange::Custom => "CUSTOM"@,
            PmixDataRange::ProcLocal => "PROC LOCAL"@,
            PmixDataRange::Invalid => "INVALID"@,
            PmixDataRange::Unknown => "UNKNOWN RANGE (128)"@,
        }
    }

    /// Convert a raw `pmix_data_range_t` (`u8`) into a `PmixDataRange`.
    pub fn from_raw(raw: u8) -> (r: Self)
        ensures
            r == Self::decoded(raw),
    {
        match raw {
            0 => PmixDataRange::Undef,
            1 => PmixDataRange::Rm,
            2 => PmixDataRange::Local,
            3 => PmixDataRange::Namespace,
            4 => PmixDataRange::Session,
            5 => PmixDataRange::Global,
            6 => PmixDataRange::Custom,
            7 => PmixDataRange::ProcLocal,
            255 => PmixDataRange::Invalid,
            other => PmixDataRange::Unknown,
        }
    }

    /// Return the raw `u8` value suitable for passing to the C API.
    pub fn to_raw(self) -> (r: u8)
        ensures
            r == self.code(),
    {
        match self {
            PmixDataRange::Undef => 0,
            PmixDataRange::Rm => 1,
            PmixDataRange::Local => 2,
            PmixDataRange::Namespace => 3,
            PmixDataRange::Session => 4,
            PmixDataRange::Global => 5,
            PmixDataRange::Custom => 6,
            PmixDataRange::ProcLocal => 7,
            PmixDataRange::Invalid => 255,
            PmixDataRange::Unknown => 128,
        }
    }

    /// The human-readable label of this value (its display text).
    pub fn to_string(&self) -> (s: String)
        ensures
            s@ == self.label(),
    {
        let mut s = String::new();
        match self {
            PmixDataRange::Undef => s.append("UNDEFINED"),
            PmixDataRange::Rm => s.append("RM"),
            PmixDataRange::Local => s.append("LOCAL"),
            PmixDataRange::Namespace => s.append("NAMESPACE"),
            PmixDataRange::Session => s.append("SESSION"),
            PmixDataRange::Global => s.append("GLOBAL"),
            PmixDataRange::Custom => s.append("CUSTOM"),
            PmixDataRange::ProcLocal => s.append("PROC LOCAL"),
            PmixDataRange::Invalid => s.append("INVALID"),
            PmixDataRange::Unknown => s.append("UNKNOWN RANGE (128)"),
        }
        s
    }
}

/// Decoding a named code and encoding the value gives the code back.
pub proof fn lemma_data_range_raw_roundtrip(raw: u8)
    requires
        PmixDataRange::is_named_code(raw),
    ensures
        PmixDataRange::decoded(raw).code() == raw,
{
}

/// Every code without a name decodes to `Unknown`, whose code is 128.
pub proof fn lemma_data_range_unnamed_code(raw: u8)
    requires
        !PmixDataRange::is_named_code(raw),
    ensures
        PmixDataRange::decoded(raw) == PmixDataRange::Unknown,
        PmixDataRange::decoded(raw).code() == 128,
{
}

/// Encoding a value and decoding the code gives the value back.
pub proof fn lemma_data_range_value_roundtrip(x: PmixDataRange)
    ensures
        PmixDataRange::decoded(x.code()) == x,
{
}

/// PMIx data type identifier — maps to `pmix_data_type_t` (`uint16_t`).
///
/// Used by the serialization / deserialization APIs (`PMIx_Data_pack`,
/// `PMIx_Data_unpack`, `PMIx_Data_load`, `PMIx_Data_unload`, etc.) to
/// describe the type of a value being transferred.
///
/// # C API
/// `typedef uint16_t pmix_data_type_t`
///
/// Values 0–69 are defined by the PMIx v4.1 standard. Values 70–499 are
/// reserved for implementation extensions. Values ≥ 500 (`PMIX_DATA_TYPE_MAX`)
/// are invalid.
#[derive(Debug, Clone, Copy, PartialEq, Eq, Hash, Structural)]
#[non_exhaustive]
pub enum PmixDataType {
    /// `PMIX_UNDEF` (0) — undefined type.
    Undef,

    /// `PMIX_BOOL` (1) — boolean, packed as `uint8_t`.
    Bool,

    /// `PMIX_BYTE` (2) — a single byte of data.
    Byte,

    /// `PMIX_STRING` (3) — NULL-terminated string.
    String,

    /// `PMIX_SIZE` (4) — `size_t`.
    Size,

    /// `PMIX_PID` (5) — OS process ID.
    Pid,

    /// `PMIX_INT` (6) — C `int`.
    Int,

    /// `PMIX_INT8` (7) — signed 8-bit integer.
    Int8,

    /// `PMIX_INT16` (8) — signed 16-bit integer.
    Int16,

    /// `PMIX_INT32` (9) — signed 32-bit integer.
    Int32,

    /// `PMIX_INT64` (10) — signed 64-bit integer.
    Int64,

    /// `PMIX_UINT` (11) — C `unsigned int`.
    Uint,

    /// `PMIX_UINT8` (12) — unsigned 8-bit integer.
    Uint8,

    /// `PMIX_UINT16` (13) — unsigned 16-bit integer.
    Uint16,

    /// `PMIX_UINT32` (14) — unsigned 32-bit integer.
    Uint32,

    /// `PMIX_UINT64` (15) — unsigned 64-bit integer.
    Uint64,

    /// `PMIX_FLOAT` (16) — 32-bit floating point.
    Float,

    /// `PMIX_DOUBLE` (17) — 64-bit floating point.
    Double,

    /// `PMIX_TIMEVAL` (18) — `struct timeval` (seconds + microseconds).
    Timeval,

    /// `PMIX_TIME` (19) — `time_t`.
    Time,

    /// `PMIX_STATUS` (20) — PMIx status code.
    Status,

    /// `PMIX_VALUE` (21) — `pmix_value_t` container.
    Value,

    /// `PMIX_PROC` (22) — `pmix_proc_t` (namespace + rank).
    Proc,

    /// `PMIX_APP` (23) — `pmix_app_t` application descriptor.
    App,

    /// `PMIX_INFO` (24) — `pmix_info_t` key-value triple.
    Info,

    /// `PMIX_PDATA` (25) — `pmix_pdata_t` (proc + key + value).
    Pdata,

    /// `PMIX_BYTE_OBJECT` (27) — opaque byte array with length.
    ByteObject,

    /// `PMIX_KVAL` (28) — key-value list container.
    Kval,

    /// `PMIX_PERSIST` (30) — persistence enum value.
    Persist,

    /// `PMIX_POINTER` (31) — raw pointer (not portable across processes).
    Pointer,

    /// `PMIX_SCOPE` (32) — scope enum value.
    Scope,

    /// `PMIX_DATA_RANGE` (33) — data range enum value.
    DataRange,

    /// `PMIX_COMMAND` (34) — command string identifier.
    Command,

    /// `PMIX_INFO_DIRECTIVES` (35) — info directives bitmask.
    InfoDirectives,

    /// `PMIX_DATA_TYPE` (36) — recursive data type identifier.
    DataType,

    /// `PMIX_PROC_STATE` (37) — process state enum value.
    ProcState,

    /// `PMIX_PROC_INFO` (38) — `pmix_proc_info_t` process info.
    ProcInfo,

    /// `PMIX_DATA_ARRAY` (39) — `pmix_data_array_t` typed array.
    DataArray,

    /// `PMIX_PROC_RANK` (40) — process rank within a namespace.
    ProcRank,

    /// `PMIX_QUERY` (41) — `pmix_query_t` query descriptor.
    Query,

    /// `PMIX_COMPRESSED_STRING` (42) — zlib-compressed string.
    CompressedString,

    /// `PMIX_ALLOC_DIRECTIVE` (43) — allocation directive enum.
    AllocDirective,

    /// `PMIX_IOF_CHANNEL` (45) — I/O forwarding channel enum.
    IofChannel,

    /// `PMIX_ENVAR` (46) — environment variable (name + value + separator).
    Envar,

    /// `PMIX_COORD` (47) — fabric coordinates.
    Coord,

    /// `PMIX_REGATTR` (48) — registered attribute descriptor.
    Regattr,

    /// `PMIX_REGEX` (49) — regex object.
    Regex,

    /// `PMIX_JOB_STATE` (50) — job state enum value.
    JobState,

    /// `PMIX_LINK_STATE` (51) — link state enum value.
    LinkState,

    /// `PMIX_PROC_CPUSET` (52) — process CPU set.
    ProcCpuset,

    /// `PMIX_GEOMETRY` (53) — fabric geometry descriptor.
    Geometry,

    /// `PMIX_DEVICE_DIST` (54) — device distance matrix entry.
    DeviceDist,

    /// `PMIX_ENDPOINT` (55) — fabric endpoint descriptor.
    Endpoint,

    /// `PMIX_TOPO` (56) — topology descriptor.
    Topo,

    /// `PMIX_DEVTYPE` (57) — device type identifier.
    Devtype,

    /// `PMIX_LOCTYPE` (58) — locality type identifier.
    LocType,

    /// `PMIX_COMPRESSED_BYTE_OBJECT` (59) — zlib-compressed byte object.
    CompressedByteObject,

    /// `PMIX_PROC_NSPACE` (60) — process namespace string.
    ProcNspace,

    /// `PMIX_PROC_STATS` (61) — process statistics.
    ProcStats,

    /// `PMIX_DISK_STATS` (62) — disk I/O statistics.
    DiskStats,

    /// `PMIX_NET_STATS` (63) — network I/O statistics.
    NetStats,

    /// `PMIX_NODE_STATS` (64) — node-level aggregate statistics.
    NodeStats,

    /// `PMIX_DATA_BUFFER` (65) — `pmix_data_buffer_t` buffer object.
    DataBuffer,

    /// `PMIX_STOR_MEDIUM` (66) — storage medium type.
    StorMedium,

    /// `PMIX_STOR_ACCESS` (67) — storage access descriptor.
    StorAccess,

    /// `PMIX_STOR_PERSIST` (68) — storage persistence type.
    StorPersist,

    /// `PMIX_STOR_ACCESS_TYPE` (69) — storage access type.
    StorAccessType,

    /// An unrecognised or future data type value (70–499).
    Unknown,
}

impl PmixDataType {
    /// `true` when `raw` is the code of a named variant.
    pub open spec fn is_named_code(raw: u16) -> bool {
        raw == 0
        || raw == 1
        || raw == 2
        || raw == 3
        || raw == 4
        || raw == 5
        || raw == 6
        || raw == 7
        || raw == 8
        || raw == 9
        || raw == 10
        || raw == 11
        || raw == 12
        || raw == 13
        || raw == 14
        || raw == 15
        || raw == 16
        || raw == 17
        || raw == 18
        || raw == 19
        || raw == 20
        || raw == 21
        || raw == 22
        || raw == 23
        || raw == 24
        || raw == 25
        || raw == 27
        || raw == 28
        || raw == 30
        || raw == 31
        || raw == 32
        || raw == 33
        || raw == 34
        || raw == 35
        || raw == 36
        || raw == 37
        || raw == 38
        || raw == 39
        || raw == 40
        || raw == 41
        || raw == 42
        || raw == 43
        || raw == 45
        || raw == 46
        || raw == 47
        || raw == 48
        || raw == 49
        || raw == 50
        || raw == 51
        || raw == 52
        || raw == 53
        || raw == 54
        || raw == 55
        || raw == 56
        || raw == 57
        || raw == 58
        || raw == 59
        || raw == 60
        || raw == 61
        || raw == 62
        || raw == 63
        || raw == 64
        || raw == 65
        || raw == 66
        || raw == 67
        || raw == 68
        || raw == 69
    }

    /// The value that a raw code stands for.
    pub open spec fn decoded(raw: u16) -> Self {
        if raw == 0 {
            PmixDataType::Undef
        } else if raw == 1 {
            PmixDataType::Bool
        } else if raw == 2 {
            PmixDataType::Byte
        } else if raw == 3 {
            PmixDataType::String
        } else if raw == 4 {
            PmixDataType::Size
        } else if raw == 5 {
            PmixDataType::Pid
        } else if raw == 6 {
            PmixDataType::Int
        } else if raw == 7 {
            PmixDataType::Int8
        } else if raw == 8 {
            PmixDataType::Int16
        } else if raw == 9 {
            PmixDataType::Int32
        } else if raw == 10 {
            PmixDataType::Int64
        } else if raw == 11 {
            PmixDataType::Uint
        } else if raw == 12 {
            PmixDataType::Uint8
        } else if raw == 13 {
            PmixDataType::Uint16
        } else if raw == 14 {
            PmixDataType::Uint32
        } else if raw == 15 {
            PmixDataType::Uint64
        } else if raw == 16 {
            PmixDataType::Float
        } else if raw == 17 {
            PmixDataType::Double
        } else if raw == 18 {
            PmixDataType::Timeval
        } else if raw == 19 {
            PmixDataType::Time
        } else if raw == 20 {
            PmixDataType::Status
        } else if raw == 21 {
            PmixDataType::Value
        } else if raw == 22 {
            PmixDataType::Proc
        } else if raw == 23 {
            PmixDataType::App
        } else if raw == 24 {
            PmixDataType::Info
        } else if raw == 25 {
            PmixDataType::Pdata
        } else if raw == 27 {
            PmixDataType::ByteObject
        } else if raw == 28 {
            PmixDataType::Kval
        } else if raw == 30 {
            PmixDataType::Persist
        } else if raw == 31 {
            PmixDataType::Pointer
        } else if raw == 32 {
            PmixDataType::Scope
        } else if raw == 33 {
            PmixDataType::DataRange
        } else if raw == 34 {
            PmixDataType::Command
        } else if raw == 35 {
            PmixDataType::InfoDirectives
        } else if raw == 36 {
            PmixDataType::DataType
        } else if raw == 37 {
            PmixDataType::ProcState
        } else if raw == 38 {
            PmixDataType::ProcInfo
        } else if raw == 39 {
            PmixDataType::DataArray
        } else if raw == 40 {
            PmixDataType::ProcRank
        } else if raw == 41 {
            PmixDataType::Query
        } else if raw == 42 {
            PmixDataType::CompressedString
        } else if raw == 43 {
            PmixDataType::AllocDirective
        } else if raw == 45 {
            PmixDataType::IofChannel
        } else if raw == 46 {
            PmixDataType::Envar
        } else if raw == 47 {
            PmixDataType::Coord
        } else if raw == 48 {
            PmixDataType::Regattr
        } else if raw == 49 {
            PmixDataType::Regex
        } else if raw == 50 {
            PmixDataType::JobState
        } else if raw == 51 {
            PmixDataType::LinkState
        } else if raw == 52 {
            PmixDataType::ProcCpuset
        } else if raw == 53 {
            PmixDataType::Geometry
        } else if raw == 54 {
            PmixDataType::DeviceDist
        } else if raw == 55 {
            PmixDataType::Endpoint
        } else if raw == 56 {
            PmixDataType::Topo
        } else if raw == 57 {
            PmixDataType::Devtype
        } else if raw == 58 {
            PmixDataType::LocType
        } else if raw == 59 {
            PmixDataType::CompressedByteObject
        } else if raw == 60 {
            PmixDataType::ProcNspace
        } else if raw == 61 {
            PmixDataType::ProcStats
        } else if raw == 62 {
            PmixDataType::DiskStats
        } else if raw == 63 {
            PmixDataType::NetStats
        } else if raw == 64 {
            PmixDataType::NodeStats
        } else if raw == 65 {
            PmixDataType::DataBuffer
        } else if raw == 66 {
            PmixDataType::StorMedium
        } else if raw == 67 {
            PmixDataType::StorAccess
        } else if raw == 68 {
            PmixDataType::StorPersist
        } else if raw == 69 {
            PmixDataType::StorAccessType
        } else {
            PmixDataType::Unknown
        }
    }

    /// The raw code of this value.
    pub open spec fn code(self) -> u16 {
        match self {
            PmixDataType::Undef => 0,
            PmixDataType::Bool => 1,
            PmixDataType::Byte => 2,
            PmixDataType::String => 3,
            PmixDataType::Size => 4,
            PmixDataType::Pid => 5,
            PmixDataType::Int => 6,
            PmixDataType::Int8 => 7,
            PmixDataType::Int16 => 8,
            PmixDataType::Int32 => 9,
            PmixDataType::Int64 => 10,
            PmixDataType::Uint => 11,
            PmixDataType::Uint8 => 12,
            PmixDataType::Uint16 => 13,
            PmixDataType::Uint32 => 14,
            PmixDataType::Uint64 => 15,
            PmixDataType::Float => 16,
            PmixDataType::Double => 17,
            PmixDataType::Timeval => 18,
            PmixDataType::Time => 19,
            PmixDataType::Status => 20,
            PmixDataType::Value => 21,
            PmixDataType::Proc => 22,
            PmixDataType::App => 23,
            PmixDataType::Info => 24,
            PmixDataType::Pdata => 25,
            PmixDataType::ByteObject => 27,
            PmixDataType::Kval => 28,
            PmixDataType::Persist => 30,
            PmixDataType::Pointer => 31,
            PmixDataType::Scope => 32,
            PmixDataType::DataRange => 33,
            PmixDataType::Command => 34,
            PmixDataType::InfoDirectives => 35,
            PmixDataType::DataType => 36,
            PmixDataType::ProcState => 37,
            PmixDataType::ProcInfo => 38,
            PmixDataType::DataArray => 39,
            PmixDataType::ProcRank => 40,
            PmixDataType::Query => 41,
            PmixDataType::CompressedString => 42,
            PmixDataType::AllocDirective => 43,
            PmixDataType::IofChannel => 45,
            PmixDataType::Envar => 46,
            PmixDataType::Coord => 47,
            PmixDataType::Regattr => 48,
            PmixDataType::Regex => 49,
            PmixDataType::JobState => 50,
            PmixDataType::LinkState => 51,
            PmixDataType::ProcCpuset => 52,
            PmixDataType::Geometry => 53,
            PmixDataType::DeviceDist => 54,
            PmixDataType::Endpoint => 55,
            PmixDataType::Topo => 56,
            PmixDataType::Devtype => 57,
            PmixDataType::LocType => 58,
            PmixDataType::CompressedByteObject => 59,
            PmixDataType::ProcNspace => 60,
            PmixDataType::ProcStats => 61,
            PmixDataType::DiskStats => 62,
            PmixDataType::NetStats => 63,
            PmixDataType::NodeStats => 64,
            PmixDataType::DataBuffer => 65,
            PmixDataType::StorMedium => 66,
            PmixDataType::StorAccess => 67,
            PmixDataType::StorPersist => 68,
            PmixDataType::StorAccessType => 69,
            PmixDataType::Unknown => 70,
        }
    }

    /// The human-readable label of this value.
    pub open spec fn label(self) -> Seq<char> {
        match self {
            PmixDataType::Undef => "UNDEF"@,
            PmixDataType::Bool => "BOOL"@,
            PmixDataType::Byte => "BYTE"@,
            PmixDataType::String => "STRING"@,
            PmixDataType::Size => "SIZE"@,
            PmixDataType::Pid => "PID"@,
            PmixDataType::Int => "INT"@,
            PmixDataType::Int8 => "INT8"@,
            PmixDataType::Int16 => "INT16"@,
            PmixDataType::Int32 => "INT32"@,
            PmixDataType::Int64 => "INT64"@,
            PmixDataType::Uint => "UINT"@,
            PmixDataType::Uint8 => "UINT8"@,
            PmixDataType::Uint16 => "UINT16"@,
            PmixDataType::Uint32 => "UINT32"@,
            PmixDataType::Uint64 => "UINT64"@,
            PmixDataType::Float => "FLOAT"@,
            PmixDataType::Double => "DOUBLE"@,
            PmixDataType::Timeval => "TIMEVAL"@,
            PmixDataType::Time => "TIME"@,
            PmixDataType::Status => "STATUS"@,
            PmixDataType::Value => "VALUE"@,
            PmixDataType::Proc => "PROC"@,
            PmixDataType::App => "APP"@,
            PmixDataType::Info => "INFO"@,
            PmixDataType::Pdata => "PDATA"@,
            PmixDataType::ByteObject => "BYTE_OBJECT"@,
            PmixDataType::Kval => "KVAL"@,
            PmixDataType::Persist => "PERSIST"@,
            PmixDataType::Pointer => "POINTER"@,
            PmixDataType::Scope => "SCOPE"@,
            PmixDataType::DataRange => "DATA_RANGE"@,
            PmixDataType::Command => "COMMAND"@,
            PmixDataType::InfoDirectives => "INFO_DIRECTIVES"@,
            PmixDataType::DataType => "DATA_TYPE"@,
            PmixDataType::ProcState => "PROC_STATE"@,
            PmixDataType::ProcInfo => "PROC_INFO"@,
            PmixDataType::DataArray => "DATA_ARRAY"@,
            PmixDataType::ProcRank => "PROC_RANK"@,
            PmixDataType::Query => "QUERY"@,
            PmixDataType::CompressedString => "COMPRESSED_STRING"@,
            PmixDataType::AllocDirective => "ALLOC_DIRECTIVE"@,
            PmixDataType::IofChannel => "IOF_CHANNEL"@,
            PmixDataType::Envar => "ENVAR"@,
            PmixDataType::Coord => "COORD"@,
            PmixDataType::Regattr => "REGATTR"@,
            PmixDataType::Regex => "REGEX"@,
            PmixDataType::JobState => "JOB_STATE"@,
            PmixDataType::LinkState => "LINK_STATE"@,
            PmixDataType::ProcCpuset => "PROC_CPUSET"@,
            PmixDataType::Geometry => "GEOMETRY"@,
            PmixDataType::DeviceDist => "DEVICE_DIST"@,
            PmixDataType::Endpoint => "ENDPOINT"@,
            PmixDataType::Topo => "TOPO"@,
            PmixDataType::Devtype => "DEVTYPE"@,
            PmixDataType::LocType => "LOCTYPE"@,
            PmixDataType::CompressedByteObject => "COMPRESSED_BYTE_OBJECT"@,
            PmixDataType::ProcNspace => "PROC_NSPACE"@,
            PmixDataType::ProcStats => "PROC_STATS"@,
            PmixDataType::DiskStats => "DISK_STATS"@,
            PmixDataType::NetStats => "NET_STATS"@,
            PmixDataType::NodeStats => "NODE_STATS"@,
            PmixDataType::DataBuffer => "DATA_BUFFER"@,
            PmixDataType::StorMedium => "STOR_MEDIUM"@,
            PmixDataType::StorAccess => "STOR_ACCESS"@,
            PmixDataType::StorPersist => "STOR_PERSIST"@,
            PmixDataType::StorAccessType => "STOR_ACCESS_TYPE"@,
            PmixDataType::Unknown => "UNKNOWN"@,
        }
    }

    /// Convert a raw `pmix_data_type_t` (`u16`) into a `PmixDataType`.
    pub fn from_raw(raw: u16) -> (r: Self)
        ensures
            r == Self::decoded(raw),
    {
        match raw {
            0 => PmixDataType::Undef,
            1 => PmixDataType::Bool,
            2 => PmixDataType::Byte,
            3 => PmixDataType::String,
            4 => PmixDataType::Size,
            5 => PmixDataType::Pid,
            6 => PmixDataType::Int,
            7 => PmixDataType::Int8,
            8 => PmixDataType::Int16,
            9 => PmixDataType::Int32,
            10 => PmixDataType::Int64,
            11 => PmixDataType::Uint,
            12 => PmixDataType::Uint8,
            13 => PmixDataType::Uint16,
            14 => PmixDataType::Uint32,
            15 => PmixDataType::Uint64,
            16 => PmixDataType::Float,
            17 => PmixDataType::Double,
            18 => PmixDataType::Timeval,
            19 => PmixDataType::Time,
            20 => PmixDataType::Status,
            21 => PmixDataType::Value,
            22 => PmixDataType::Proc,
            23 => PmixDataType::App,
            24 => PmixDataType::Info,
            25 => PmixDataType::Pdata,
            27 => PmixDataType::ByteObject,
            28 => PmixDataType::Kval,
            30 => PmixDataType::Persist,
            31 => PmixDataType::Pointer,
            32 => PmixDataType::Scope,
            33 => PmixDataType::DataRange,
            34 => PmixDataType::Command,
            35 => PmixDataType::InfoDirectives,
            36 => PmixDataType::DataType,
            37 => PmixDataType::ProcState,
            38 => PmixDataType::ProcInfo,
            39 => PmixDataType::DataArray,
            40 => PmixDataType::ProcRank,
            41 => PmixDataType::Query,
            42 => PmixDataType::CompressedString,
            43 => PmixDataType::AllocDirective,
            45 => PmixDataType::IofChannel,
            46 => PmixDataType::Envar,
            47 => PmixDataType::Coord,
            48 => PmixDataType::Regattr,
            49 => PmixDataType::Regex,
            50 => PmixDataType::JobState,
            51 => PmixDataType::LinkState,
            52 => PmixDataType::ProcCpuset,
            53 => PmixDataType::Geometry,
            54 => PmixDataType::DeviceDist,
            55 => PmixDataType::Endpoint,
            56 => PmixDataType::Topo,
            57 => PmixDataType::Devtype,
            58 => PmixDataType::LocType,
            59 => PmixDataType::CompressedByteObject,
            60 => PmixDataType::ProcNspace,
            61 => PmixDataType::ProcStats,
            62 => PmixDataType::DiskStats,
            63 => PmixDataType::NetStats,
            64 => PmixDataType::NodeStats,
            65 => PmixDataType::DataBuffer,
            66 => PmixDataType::StorMedium,
            67 => PmixDataType::StorAccess,
            68 => PmixDataType::StorPersist,
            69 => PmixDataType::StorAccessType,
            other => PmixDataType::Unknown,
        }
    }

    /// Return the raw `u16` value suitable for passing to the C API.
    pub fn to_raw(self) -> (r: u16)
        ensures
            r == self.code(),
    {
        match self {
            PmixDataType::Undef => 0,
            PmixDataType::Bool => 1,
            PmixDataType::Byte => 2,
            PmixDataType::String => 3,
            PmixDataType::Size => 4,
            PmixDataType::Pid => 5,
            PmixDataType::Int => 6,
            PmixDataType::Int8 => 7,
            PmixDataType::Int16 => 8,
            PmixDataType::Int32 => 9,
            PmixDataType::Int64 => 10,
            PmixDataType::Uint => 11,
            PmixDataType::Uint8 => 12,
            PmixDataType::Uint16 => 13,
            PmixDataType::Uint32 => 14,
            PmixDataType::Uint64 => 15,
            PmixDataType::Float => 16,
            PmixDataType::Double => 17,
            PmixDataType::Timeval => 18,
            PmixDataType::Time => 19,
            PmixDataType::Status => 20,
            PmixDataType::Value => 21,
            PmixDataType::Proc => 22,
            PmixDataType::App => 23,
            PmixDataType::Info => 24,
            PmixDataType::Pdata => 25,
            PmixDataType::ByteObject => 27,
            PmixDataType::Kval => 28,
            PmixDataType::Persist => 30,
            PmixDataType::Pointer => 31,
            PmixDataType::Scope => 32,
            PmixDataType::DataRange => 33,
            PmixDataType::Command => 34,
            PmixDataType::InfoDirectives => 35,
            PmixDataType::DataType => 36,
            PmixDataType::ProcState => 37,
            PmixDataType::ProcInfo => 38,
            PmixDataType::DataArray => 39,
            PmixDataType::ProcRank => 40,
            PmixDataType::Query => 41,
            PmixDataType::CompressedString => 42,
            PmixDataType::AllocDirective => 43,
            PmixDataType::IofChannel => 45,
            PmixDataType::Envar => 46,
            PmixDataType::Coord => 47,
            PmixDataType::Regattr => 48,
            PmixDataType::Regex => 49,
            PmixDataType::JobState => 50,
            PmixDataType::LinkState => 51,
            PmixDataType::ProcCpuset => 52,
            PmixDataType::Geometry => 53,
            PmixDataType::DeviceDist => 54,
            PmixDataType::Endpoint => 55,
            PmixDataType::Topo => 56,
            PmixDataType::Devtype => 57,
            PmixDataType::LocType => 58,
            PmixDataType::CompressedByteObject => 59,
            PmixDataType::ProcNspace => 60,
            PmixDataType::ProcStats => 61,
            PmixDataType::DiskStats => 62,
            PmixDataType::NetStats => 63,
            PmixDataType::NodeStats => 64,
            PmixDataType::DataBuffer => 65,
            PmixDataType::StorMedium => 66,
            PmixDataType::StorAccess => 67,
            PmixDataType::StorPersist => 68,
            PmixDataType::StorAccessType => 69,
            PmixDataType::Unknown => 70,
        }
    }

    /// The human-readable label of this value (its display text).
    pub fn to_string(&self) -> (s: String)
        ensures
            s@ == self.label(),
    {
        let mut s = String::new();
        match self {
            PmixDataType::Undef => s.append("UNDEF"),
            PmixDataType::Bool => s.append("BOOL"),
            PmixDataType::Byte => s.append("BYTE"),
            PmixDataType::String => s.append("STRING"),
            PmixDataType::Size => s.append("SIZE"),
            PmixDataType::Pid => s.append("PID"),
            PmixDataType::Int => s.append("INT"),
            PmixDataType::Int8 => s.append("INT8"),
            PmixDataType::Int16 => s.append("INT16"),
            PmixDataType::Int32 => s.append("INT32"),
            PmixDataType::Int64 => s.append("INT64"),
            PmixDataType::Uint => s.append("UINT"),
            PmixDataType::Uint8 => s.append("UINT8"),
            PmixDataType::Uint16 => s.append("UINT16"),
            PmixDataType::Uint32 => s.append("UINT32"),
            PmixDataType::Uint64 => s.append("UINT64"),
            PmixDataType::Float => s.append("FLOAT"),
            PmixDataType::Double => s.append("DOUBLE"),
            PmixDataType::Timeval => s.append("TIMEVAL"),
            PmixDataType::Time => s.append("TIME"),
            PmixDataType::Status => s.append("STATUS"),
            PmixDataType::Value => s.append("VALUE"),
            PmixDataType::Proc => s.append("PROC"),
            PmixDataType::App => s.append("APP"),
            PmixDataType::Info => s.append("INFO"),
            PmixDataType::Pdata => s.append("PDATA"),
            PmixDataType::ByteObject => s.append("BYTE_OBJECT"),
            PmixDataType::Kval => s.append("KVAL"),
            PmixDataType::Persist => s.append("PERSIST"),
            PmixDataType::Pointer => s.append("POINTER"),
            PmixDataType::Scope => s.append("SCOPE"),
            PmixDataType::DataRange => s.append("DATA_RANGE"),
            PmixDataType::Command => s.append("COMMAND"),
            PmixDataType::InfoDirectives => s.append("INFO_DIRECTIVES"),
            PmixDataType::DataType => s.append("DATA_TYPE"),
            PmixDataType::ProcState => s.append("PROC_STATE"),
            PmixDataType::ProcInfo => s.append("PROC_INFO"),
            PmixDataType::DataArray => s.append("DATA_ARRAY"),
            PmixDataType::ProcRank => s.append("PROC_RANK"),
            PmixDataType::Query => s.append("QUERY"),
            PmixDataType::CompressedString => s.append("COMPRESSED_STRING"),
            PmixDataType::AllocDirective => s.append("ALLOC_DIRECTIVE"),
            PmixDataType::IofChannel => s.append("IOF_CHANNEL"),
            PmixDataType::Envar => s.append("ENVAR"),
            PmixDataType::Coord => s.append("COORD"),
            PmixDataType::Regattr => s.append("REGATTR"),
            PmixDataType::Regex => s.append("REGEX"),
            PmixDataType::JobState => s.append("JOB_STATE"),
            PmixDataType::LinkState => s.append("LINK_STATE"),
            PmixDataType::ProcCpuset => s.append("PROC_CPUSET"),
            PmixDataType::Geometry => s.append("GEOMETRY"),
            PmixDataType::DeviceDist => s.append("DEVICE_DIST"),
            PmixDataType::Endpoint => s.append("ENDPOINT"),
            PmixDataType::Topo => s.append("TOPO"),
            PmixDataType::Devtype => s.append("DEVTYPE"),
            PmixDataType::LocType => s.append("LOCTYPE"),
            PmixDataType::CompressedByteObject => s.append("COMPRESSED_BYTE_OBJECT"),
            PmixDataType::ProcNspace => s.append("PROC_NSPACE"),
            PmixDataType::ProcStats => s.append("PROC_STATS"),
            PmixDataType::DiskStats => s.append("DISK_STATS"),
            PmixDataType::NetStats => s.append("NET_STATS"),
            PmixDataType::NodeStats => s.append("NODE_STATS"),
            PmixDataType::DataBuffer => s.append("DATA_BUFFER"),
            PmixDataType::StorMedium => s.append("STOR_MEDIUM"),
            PmixDataType::StorAccess => s.append("STOR_ACCESS"),
            PmixDataType::StorPersist => s.append("STOR_PERSIST"),
            PmixDataType::StorAccessType => s.append("STOR_ACCESS_TYPE"),
            PmixDataType::Unknown => s.append("UNKNOWN"),
        }
        s
    }
}

/// Decoding a named code and encoding the value gives the code back.
pub proof fn lemma_data_type_raw_roundtrip(raw: u16)
    requires
        PmixDataType::is_named_code(raw),
    ensures
        PmixDataType::decoded(raw).code() == raw,
{
}

/// Every code without a name decodes to `Unknown`, whose code is 70.
pub proof fn lemma_data_type_unnamed_code(raw: u16)
    requires
        !PmixDataType::is_named_code(raw),
    ensures
        PmixDataType::decoded(raw) == PmixDataType::Unknown,
        PmixDataType::decoded(raw).code() == 70,
{
}

/// Encoding a value and decoding the code gives the value back.
pub proof fn lemma_data_type_value_roundtrip(x: PmixDataType)
    ensures
        PmixDataType::decoded(x.code()) == x,
{
}

/// Allocation directive — controls the behavior of `PMIx_Allocation_request`.
///
/// Maps to `pmix_alloc_directive_t` (`uint8_t`) in the C API. Currently only
/// one value is defined by the standard: `PMIX_ALLOC_DIRECTIVE` (43), which
/// indicates a hard allocation request. Future versions may add soft requests
/// or other variants.
///
/// # C API
/// `typedef uint8_t pmix_alloc_directive_t`
/// `#define PMIX_ALLOC_DIRECTIVE 43`
///
/// Use [`PmixAllocDirective::from_raw`] to convert a `pmix_alloc_directive_t`
/// received from C and [`PmixAllocDirective::to_raw`] to convert back.
#[derive(Debug, Clone, Copy, PartialEq, Eq, Hash, Structural)]
#[non_exhaustive]
pub enum PmixAllocDirective {
    /// `PMIX_ALLOC_DIRECTIVE` (43) — hard allocation request.
    AllocDirective,

    /// An unrecognised or future directive value.
    Unknown(u8),
}

impl PmixAllocDirective {
    /// `true` when `raw` is the code of a named variant.
    pub open spec fn is_named_code(raw: u8) -> bool {
        raw == 43
    }

    /// The value that a raw code stands for.
    pub open spec fn decoded(raw: u8) -> Self {
        if raw == 43 {
            PmixAllocDirective::AllocDirective
        } else {
            PmixAllocDirective::Unknown(raw)
        }
    }

    /// The raw code of this value.
    pub open spec fn code(self) -> u8 {
        match self {
            PmixAllocDirective::AllocDirective => 43,
            PmixAllocDirective::Unknown(v) => v,
        }
    }

    /// A value is canonical when `Unknown` does not carry a named code.
    pub open spec fn is_canonical(self) -> bool {
        match self {
            PmixAllocDirective::Unknown(v) => !Self::is_named_code(v),
            _ => true,
        }
    }

    /// The human-readable label of this value.
    pub open spec fn label(self) -> Seq<char> {
        match self {
            PmixAllocDirective::AllocDirective => "ALLOC_DIRECTIVE"@,
            PmixAllocDirective::Unknown(v) => "UNKNOWN DIRECTIVE ("@ + decimal_digits(v as nat) + ")"@,
        }
    }

    /// Convert a raw `pmix_alloc_directive_t` (`u8`) into a `PmixAllocDirective`.
    pub fn from_raw(raw: u8) -> (r: Self)
        ensures
            r == Self::decoded(raw),
            r.is_canonical(),
    {
        match raw {
            43 => PmixAllocDirective::AllocDirective,
            other => PmixAllocDirective::Unknown(other),
        }
    }

    /// Return the raw `u8` value suitable for passing to the C API.
    pub fn to_raw(self) -> (r: u8)
        ensures
            r == self.code(),
    {
        match self {
            PmixAllocDirective::AllocDirective => 43,
            PmixAllocDirective::Unknown(v) => v,
        }
    }

    /// The human-readable label of this value (its display text).
    pub fn to_string(&self) -> (s: String)
        ensures
            s@ == self.label(),
    {
        let mut s = String::new();
        match self {
            PmixAllocDirective::AllocDirective => s.append("ALLOC_DIRECTIVE"),
            PmixAllocDirective::Unknown(v) => {
                s.append("UNKNOWN DIRECTIVE (");
                push_decimal(&mut s, *v as u64);
                s.append(")");
            },
        }
        s
    }
}

/// Decoding any raw `u8` and encoding the value gives the code back.
pub proof fn lemma_alloc_directive_raw_roundtrip(raw: u8)
    ensures
        PmixAllocDirective::decoded(raw).code() == raw,
        PmixAllocDirective::decoded(raw).is_canonical(),
{
}

/// Encoding a canonical value and decoding the code gives the value back.
pub proof fn lemma_alloc_directive_value_roundtrip(x: PmixAllocDirective)
    requires
        x.is_canonical(),
    ensures
        PmixAllocDirective::decoded(x.code()) == x,
{
}

/// `PMIX_FWD_NO_CHANNELS` (0x0000) — forward no channels.
pub const PMIX_FWD_NO_CHANNELS: u16 = 0x0000;
/// `PMIX_FWD_STDIN_CHANNEL` (0x0001) — forward stdin.
pub const PMIX_FWD_STDIN_CHANNEL: u16 = 0x0001;
/// `PMIX_FWD_STDOUT_CHANNEL` (0x0002) — forward stdout.
pub const PMIX_FWD_STDOUT_CHANNEL: u16 = 0x0002;
/// `PMIX_FWD_STDERR_CHANNEL` (0x0004) — forward stderr.
pub const PMIX_FWD_STDERR_CHANNEL: u16 = 0x0004;
/// `PMIX_FWD_STDDIAG_CHANNEL` (0x0008) — forward stddiag, if available.
pub const PMIX_FWD_STDDIAG_CHANNEL: u16 = 0x0008;
/// `PMIX_FWD_ALL_CHANNELS` (0x00FF) — forward all available channels.
pub const PMIX_FWD_ALL_CHANNELS: u16 = 0x00FF;

/// Newtype over the raw `pmix_iof_channel_t` (u16 bitmask).
///
/// The `pmix_iof_channel_t` defines bit-mask flags for specifying IO
/// forwarding channels. These can be bitwise OR'd together to reference
/// multiple channels.
///
/// * `PMIX_FWD_NO_CHANNELS`   (0x0000) — forward no channels.
/// * `PMIX_FWD_STDIN_CHANNEL` (0x0001) — forward stdin.
/// * `PMIX_FWD_STDOUT_CHANNEL`(0x0002) — forward stdout.
/// * `PMIX_FWD_STDERR_CHANNEL`(0x0004) — forward stderr.
/// * `PMIX_FWD_STDDIAG_CHANNEL`(0x0008) — forward stddiag, if available.
/// * `PMIX_FWD_ALL_CHANNELS`  (0x00FF) — forward all available channels.
#[derive(Debug, Clone, Copy, PartialEq, Eq, Default, Structural)]
pub struct IOFChannelFlags(pub u16);

impl IOFChannelFlags {
    /// Every bit of `flag` is set in `self`.
    pub open spec fn has(self, flag: IOFChannelFlags) -> bool {
        self.0 & flag.0 == flag.0
    }

    /// The names of the four standard channels that are set, in the order
    /// stdin, stdout, stderr, stddiag.
    pub open spec fn channel_names(self) -> Seq<Seq<char>> {
        (if self.0 & 1 == 1 { seq!["STDIN"@] } else { Seq::empty() })
            + (if self.0 & 2 == 2 { seq!["STDOUT"@] } else { Seq::empty() })
            + (if self.0 & 4 == 4 { seq!["STDERR"@] } else { Seq::empty() })
            + (if self.0 & 8 == 8 { seq!["STDDIAG"@] } else { Seq::empty() })
    }

    /// The display text: the set standard channels joined by `|`; when none
    /// is set, `NO_CHANNELS` for the empty mask and the mask as `0x` with
    /// four zero-padded upper-case hex digits otherwise.
    pub open spec fn label(self) -> Seq<char> {
        if self.channel_names().len() == 0 {
            if self.0 == 0 {
                "NO_CHANNELS"@
            } else {
                "0x"@ + zero_padded(hex_digits(self.0 as nat), 4)
            }
        } else {
            join_with_bar(self.channel_names())
        }
    }

    /// Check if no channels are set.
    pub fn is_empty(self) -> (b: bool)
        ensures
            b == (self.0 == 0),
    {
        self.0 == 0
    }

    /// Check if a specific channel flag is set.
    pub fn contains(self, flag: Self) -> (b: bool)
        ensures
            b == self.has(flag),
    {
        (self.0 & flag.0) == flag.0
    }

    /// Return the raw `pmix_iof_channel_t` value.
    pub fn raw(self) -> (r: u16)
        ensures
            r == self.0,
    {
        self.0
    }

    /// The union of two channel sets (bitwise OR).
    pub fn union(self, rhs: Self) -> (r: Self)
        ensures
            r.0 == self.0 | rhs.0,
    {
        IOFChannelFlags(self.0 | rhs.0)
    }

    /// Add the channels of `rhs` to `self` (bitwise OR-assign).
    pub fn insert(&mut self, rhs: Self)
        ensures
            final(self).0 == old(self).0 | rhs.0,
    {
        self.0 = self.0 | rhs.0;
    }

    /// The display text of this channel set.
    pub fn to_string(&self) -> (s: String)
        ensures
            s@ == self.label(),
    {
        let mut s = String::new();
        let mut any = false;
        let ghost names: Seq<Seq<char>> = Seq::empty();
        let v = self.0;
        if v & 1 == 1 {
            s.append("STDIN");
            any = true;
            proof {
                let prev = names;
                names = names.push("STDIN"@);
                assert(names.drop_last() =~= prev);
            }
        }
        assert(s@ == join_with_bar(names) && any == (names.len() > 0));
        if v & 2 == 2 {
            if any {
                s.append("|");
            }
            s.append("STDOUT");
            any = true;
            proof {
                let prev = names;
                names = names.push("STDOUT"@);
                assert(names.drop_last() =~= prev);
            }
        }
        assert(s@ == join_with_bar(names) && any == (names.len() > 0));
        if v & 4 == 4 {
            if any {
                s.append("|");
            }
            s.append("STDERR");
            any = true;
            proof {
                let prev = names;
                names = names.push("STDERR"@);
                assert(names.drop_last() =~= prev);
            }
        }
        assert(s@ == join_with_bar(names) && any == (names.len() > 0));
        if v & 8 == 8 {
            if any {
                s.append("|");
            }
            s.append("STDDIAG");
            any = true;
            proof {
                let prev = names;
                names = names.push("STDDIAG"@);
                assert(names.drop_last() =~= prev);
            }
        }
        assert(s@ == join_with_bar(names) && any == (names.len() > 0));
        assert(names =~= self.channel_names());
        if !any {
            if v == 0 {
                s.append("NO_CHANNELS");
            } else {
                s.append("0x");
                push_hex_padded(&mut s, v as u64, 4);
            }
        }
        s
    }
}

impl std::ops::BitOr for IOFChannelFlags {
    type Output = Self;

    /// The union of two channel sets.
    fn bitor(self, rhs: Self) -> (r: Self) {
        self.union(rhs)
    }
}

impl vstd::std_specs::ops::BitOrSpecImpl for IOFChannelFlags {
    open spec fn obeys_bitor_spec() -> bool {
        true
    }

    open spec fn bitor_req(self, rhs: Self) -> bool {
        true
    }

    open spec fn bitor_spec(self, rhs: Self) -> Self {
        IOFChannelFlags(self.0 | rhs.0)
    }
}

impl std::ops::BitOrAssign for IOFChannelFlags {
    /// Add the channels of `rhs` to `self`.
    fn bitor_assign(&mut self, rhs: Self)
        ensures
            final(self).0 == old(self).0 | rhs.0,
    {
        self.insert(rhs);
    }
}

/// A channel's name is among the names shown exactly when the set holds
/// that channel, and the names come in the order stdin, stdout, stderr,
/// stddiag.
pub proof fn lemma_iof_names_match_channels(f: IOFChannelFlags)
    ensures
        f.channel_names().contains("STDIN"@) <==> f.has(IOFChannelFlags(PMIX_FWD_STDIN_CHANNEL)),
        f.channel_names().contains("STDOUT"@) <==> f.has(IOFChannelFlags(PMIX_FWD_STDOUT_CHANNEL)),
        f.channel_names().contains("STDERR"@) <==> f.has(IOFChannelFlags(PMIX_FWD_STDERR_CHANNEL)),
        f.channel_names().contains("STDDIAG"@) <==> f.has(IOFChannelFlags(PMIX_FWD_STDDIAG_CHANNEL)),
        f.channel_names().len() <= 4,
        forall|i: int, j: int|
            0 <= i < j < f.channel_names().len() ==> channel_rank(f.channel_names()[i])
                < channel_rank(f.channel_names()[j]),
{
    reveal_strlit("STDIN");
    reveal_strlit("STDOUT");
    reveal_strlit("STDERR");
    reveal_strlit("STDDIAG");
    let a: Seq<Seq<char>> = if f.0 & 1 == 1 { seq!["STDIN"@] } else { Seq::empty() };
    let b: Seq<Seq<char>> = if f.0 & 2 == 2 { seq!["STDOUT"@] } else { Seq::empty() };
    let c: Seq<Seq<char>> = if f.0 & 4 == 4 { seq!["STDERR"@] } else { Seq::empty() };
    let d: Seq<Seq<char>> = if f.0 & 8 == 8 { seq!["STDDIAG"@] } else { Seq::empty() };
    let names = f.channel_names();
    assert(names == a + b + c + d);
    assert("STDIN"@ != "STDOUT"@ && "STDIN"@ != "STDERR"@ && "STDIN"@ != "STDDIAG"@) by {
        assert("STDIN"@.len() != "STDOUT"@.len());
        assert("STDIN"@.len() != "STDERR"@.len());
        assert("STDIN"@.len() != "STDDIAG"@.len());
    }
    assert("STDOUT"@ != "STDERR"@) by {
        assert("STDOUT"@[3] != "STDERR"@[3]);
    }
    assert("STDOUT"@ != "STDDIAG"@ && "STDERR"@ != "STDDIAG"@) by {
        assert("STDOUT"@.len() != "STDDIAG"@.len());
        assert("STDERR"@.len() != "STDDIAG"@.len());
    }
    assert forall|x: Seq<char>| names.contains(x) <==> (a.contains(x) || b.contains(x) || c.contains(
        x,
    ) || d.contains(x)) by {
        if names.contains(x) {
            let i = choose|i: int| 0 <= i < names.len() && names[i] == x;
            if i < a.len() {
                assert(a[i] == x);
            } else if i < a.len() + b.len() {
                assert(b[i - a.len()] == x);
            } else if i < a.len() + b.len() + c.len() {
                assert(c[i - a.len() - b.len()] == x);
            } else {
                assert(d[i - a.len() - b.len() - c.len()] == x);
            }
        }
        if a.contains(x) {
            assert(names[0] == x);
        }
        if b.contains(x) {
            assert(names[a.len() as int] == x);
        }
        if c.contains(x) {
            assert(names[(a.len() + b.len()) as int] == x);
        }
        if d.contains(x) {
            assert(names[(a.len() + b.len() + c.len()) as int] == x);
        }
    }
    assert forall|x: Seq<char>| a.contains(x) implies x == "STDIN"@ by {
        let i = choose|i: int| 0 <= i < a.len() && a[i] == x;
    }
    assert forall|x: Seq<char>| b.contains(x) implies x == "STDOUT"@ by {
        let i = choose|i: int| 0 <= i < b.len() && b[i] == x;
    }
    assert forall|x: Seq<char>| c.contains(x) implies x == "STDERR"@ by {
        let i = choose|i: int| 0 <= i < c.len() && c[i] == x;
    }
    assert forall|x: Seq<char>| d.contains(x) implies x == "STDDIAG"@ by {
        let i = choose|i: int| 0 <= i < d.len() && d[i] == x;
    }
    if f.0 & 1 == 1 {
        assert(a[0] == "STDIN"@);
    }
    if f.0 & 2 == 2 {
        assert(b[0] == "STDOUT"@);
    }
    if f.0 & 4 == 4 {
        assert(c[0] == "STDERR"@);
    }
    if f.0 & 8 == 8 {
        assert(d[0] == "STDDIAG"@);
    }
    assert forall|i: int, j: int|
        0 <= i < j < names.len() implies channel_rank(names[i]) < channel_rank(names[j]) by {
        let ri = if i < a.len() { 0int } else if i < a.len() + b.len() { 1int } else if i < a.len()
            + b.len() + c.len() { 2int } else { 3int };
        let rj = if j < a.len() { 0int } else if j < a.len() + b.len() { 1int } else if j < a.len()
            + b.len() + c.len() { 2int } else { 3int };
        if i < a.len() {
            assert(names[i] == "STDIN"@);
        } else if i < a.len() + b.len() {
            assert(names[i] == "STDOUT"@);
        } else if i < a.len() + b.len() + c.len() {
            assert(names[i] == "STDERR"@);
        } else {
            assert(names[i] == "STDDIAG"@);
        }
        if j < a.len() {
            assert(names[j] == "STDIN"@);
        } else if j < a.len() + b.len() {
            assert(names[j] == "STDOUT"@);
        } else if j < a.len() + b.len() + c.len() {
            assert(names[j] == "STDERR"@);
        } else {
            assert(names[j] == "STDDIAG"@);
        }
    }
}

/// The position of a standard channel's name in the order stdin, stdout,
/// stderr, stddiag.
pub open spec fn channel_rank(name: Seq<char>) -> int {
    if name == "STDIN"@ {
        0
    } else if name == "STDOUT"@ {
        1
    } else if name == "STDERR"@ {
        2
    } else {
        3
    }
}

/// The parts joined with `|` between consecutive parts.
pub open spec fn join_with_bar(parts: Seq<Seq<char>>) -> Seq<char>
    decreases parts.len(),
{
    if parts.len() == 0 {
        Seq::empty()
    } else if parts.len() == 1 {
        parts[0]
    } else {
        join_with_bar(parts.drop_last()) + "|"@ + parts.last()
    }
}

/// A channel set contains itself and the empty set.
pub proof fn lemma_iof_contains_reflexive(a: IOFChannelFlags)
    ensures
        a.has(a),
        a.has(IOFChannelFlags(0)),
{
    let x = a.0;
    assert(x & x == x) by (bit_vector);
    assert(x & 0 == 0) by (bit_vector);
}

/// The union of two channel sets contains both of them.
pub proof fn lemma_iof_union_contains_both(a: IOFChannelFlags, b: IOFChannelFlags)
    ensures
        IOFChannelFlags(a.0 | b.0).has(a),
        IOFChannelFlags(a.0 | b.0).has(b),
{
    let (x, y) = (a.0, b.0);
    assert((x | y) & x == x) by (bit_vector);
    assert((x | y) & y == y) by (bit_vector);
}

/// Containment is transitive.
pub proof fn lemma_iof_contains_transitive(a: IOFChannelFlags, b: IOFChannelFlags, c: IOFChannelFlags)
    requires
        a.has(b),
        b.has(c),
    ensures
        a.has(c),
{
    let (x, y, z) = (a.0, b.0, c.0);
    assert(x & y == y && y & z == z ==> x & z == z) by (bit_vector);
}

/// A set contains another exactly when adding the other leaves it unchanged.
pub proof fn lemma_iof_contains_iff_union_absorbs(a: IOFChannelFlags, b: IOFChannelFlags)
    ensures
        a.has(b) <==> (a.0 | b.0) == a.0,
{
    let (x, y) = (a.0, b.0);
    assert((x & y == y) <==> ((x | y) == x)) by (bit_vector);
}

/// Union is commutative, associative and idempotent, and the empty set is
/// its identity.
pub proof fn lemma_iof_union_algebra(a: IOFChannelFlags, b: IOFChannelFlags, c: IOFChannelFlags)
    ensures
        a.0 | b.0 == b.0 | a.0,
        (a.0 | b.0) | c.0 == a.0 | (b.0 | c.0),
        a.0 | a.0 == a.0,
        a.0 | 0 == a.0,
{
    let (x, y, z) = (a.0, b.0, c.0);
    assert(x | y == y | x) by (bit_vector);
    assert((x | y) | z == x | (y | z)) by (bit_vector);
    assert(x | x == x) by (bit_vector);
    assert(x | 0 == x) by (bit_vector);
}

/// `ALL_CHANNELS` contains each of the four standard channels, and the
/// empty set contains none of them.
pub proof fn lemma_iof_all_channels_cover_standard()
    ensures
        IOFChannelFlags(0x00FF).has(IOFChannelFlags(0x0001)),
        IOFChannelFlags(0x00FF).has(IOFChannelFlags(0x0002)),
        IOFChannelFlags(0x00FF).has(IOFChannelFlags(0x0004)),
        IOFChannelFlags(0x00FF).has(IOFChannelFlags(0x0008)),
        !IOFChannelFlags(0x0000).has(IOFChannelFlags(0x0001)),
        !IOFChannelFlags(0x0000).has(IOFChannelFlags(0x0002)),
        !IOFChannelFlags(0x0000).has(IOFChannelFlags(0x0004)),
        !IOFChannelFlags(0x0000).has(IOFChannelFlags(0x0008)),
{
    assert(0x00FFu16 & 0x0001u16 == 0x0001u16) by (bit_vector);
    assert(0x00FFu16 & 0x0002u16 == 0x0002u16) by (bit_vector);
    assert(0x00FFu16 & 0x0004u16 == 0x0004u16) by (bit_vector);
    assert(0x00FFu16 & 0x0008u16 == 0x0008u16) by (bit_vector);
    assert(0x0000u16 & 0x0001u16 == 0x0000u16) by (bit_vector);
    assert(0x0000u16 & 0x0002u16 == 0x0000u16) by (bit_vector);
    assert(0x0000u16 & 0x0004u16 == 0x0000u16) by (bit_vector);
    assert(0x0000u16 & 0x0008u16 == 0x0000u16) by (bit_vector);
}

} // verus!
