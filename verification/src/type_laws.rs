//! The code and label tables of the enumeration types, stated as laws
//! apart from the definitions they constrain: each named value has the
//! `pmix_common.h` code of its constant, each code decodes to the value of
//! that constant, and each value shows the PMIx text of that constant.

use vstd::prelude::*;
use crate::text::{decimal_digits, hex_digits};
use crate::types::{
    PmixAllocDirective, PmixDataRange, PmixDataType, PmixDeviceType, PmixJobState,
    PmixLinkState, PmixPersistence, PmixProcState, PmixScope,
};

verus! {

/// Every named `PmixProcState` value has the code of its `pmix_proc_state_t` constant,
/// and that code decodes to it.
pub proof fn lemma_proc_state_code_table()
    ensures
        PmixProcState::Undef.code() == 0,
        PmixProcState::decoded(0) == PmixProcState::Undef,
        PmixProcState::Prepped.code() == 1,
        PmixProcState::decoded(1) == PmixProcState::Prepped,
        PmixProcState::LaunchUnderway.code() == 2,
        PmixProcState::decoded(2) == PmixProcState::LaunchUnderway,
        PmixProcState::Restart.code() == 3,
        PmixProcState::decoded(3) == PmixProcState::Restart,
        PmixProcState::Terminate.code() == 4,
        PmixProcState::decoded(4) == PmixProcState::Terminate,
        PmixProcState::Running.code() == 5,
        PmixProcState::decoded(5) == PmixProcState::Running,
        PmixProcState::Connected.code() == 6,
        PmixProcState::decoded(6) == PmixProcState::Connected,
        PmixProcState::Unterminated.code() == 15,
        PmixProcState::decoded(15) == PmixProcState::Unterminated,
        PmixProcState::Terminated.code() == 20,
        PmixProcState::decoded(20) == PmixProcState::Terminated,
        PmixProcState::Error.code() == 50,
        PmixProcState::decoded(50) == PmixProcState::Error,
        PmixProcState::KilledByCmd.code() == 51,
        PmixProcState::decoded(51) == PmixProcState::KilledByCmd,
        PmixProcState::Aborted.code() == 52,
        PmixProcState::decoded(52) == PmixProcState::Aborted,
        PmixProcState::FailedToStart.code() == 53,
        PmixProcState::decoded(53) == PmixProcState::FailedToStart,
        PmixProcState::AbortedBySig.code() == 54,
        PmixProcState::decoded(54) == PmixProcState::AbortedBySig,
        PmixProcState::TermWoSync.code() == 55,
        PmixProcState::decoded(55) == PmixProcState::TermWoSync,
        PmixProcState::CommFailed.code() == 56,
        PmixProcState::decoded(56) == PmixProcState::CommFailed,
        PmixProcState::SensorBoundExceeded.code() == 57,
        PmixProcState::decoded(57) == PmixProcState::SensorBoundExceeded,
        PmixProcState::CalledAbort.code() == 58,
        PmixProcState::decoded(58) == PmixProcState::CalledAbort,
        PmixProcState::HeartbeatFailed.code() == 59,
        PmixProcState::decoded(59) == PmixProcState::HeartbeatFailed,
        PmixProcState::Migrating.code() == 60,
        PmixProcState::decoded(60) == PmixProcState::Migrating,
        PmixProcState::CannotRestart.code() == 61,
        PmixProcState::decoded(61) == PmixProcState::CannotRestart,
        PmixProcState::TermNonZero.code() == 62,
        PmixProcState::decoded(62) == PmixProcState::TermNonZero,
        PmixProcState::FailedToLaunch.code() == 63,
        PmixProcState::decoded(63) == PmixProcState::FailedToLaunch,
        forall|v: u8| !PmixProcState::is_named_code(v) ==> #[trigger] PmixProcState::decoded(v) == PmixProcState::Unknown(v) && PmixProcState::Unknown(v).code() == v,
{
}

/// Every named `PmixProcState` code shows the PMIx text of its constant.
pub proof fn lemma_proc_state_label_table()
    ensures
        PmixProcState::decoded(0).label() == "UNDEFINED"@,
        PmixProcState::decoded(1).label() == "PREPPED FOR LAUNCH"@,
        PmixProcState::decoded(2).label() == "LAUNCH UNDERWAY"@,
        PmixProcState::decoded(3).label() == "PROC READY FOR RESTART"@,
        PmixProcState::decoded(4).label() == "PROC MARKED FOR TERMINATION"@,
        PmixProcState::decoded(5).label() == "PROC EXECUTING"@,
        PmixProcState::decoded(6).label() == "PROC HAS CONNECTED TO LOCAL PMIX SERVER"@,
        PmixProcState::decoded(15).label() == "PROC HAS NOT TERMINATED"@,
        PmixProcState::decoded(20).label() == "PROC HAS TERMINATED"@,
        PmixProcState::decoded(50).label() == "PROC ERROR"@,
        PmixProcState::decoded(51).label() == "PROC KILLED BY CMD"@,
        PmixProcState::decoded(52).label() == "PROC ABNORMALLY ABORTED"@,
        PmixProcState::decoded(53).label() == "PROC FAILED TO START"@,
        PmixProcState::decoded(54).label() == "PROC ABORTED BY SIGNAL"@,
        PmixProcState::decoded(55).label() == "PROC TERMINATED WITHOUT CALLING PMIx_Finalize"@,
        PmixProcState::decoded(56).label() == "PROC LOST COMMUNICATION"@,
        PmixProcState::decoded(57).label() == "PROC SENSOR BOUND EXCEEDED"@,
        PmixProcState::decoded(58).label() == "PROC CALLED PMIx_Abort"@,
        PmixProcState::decoded(59).label() == "PROC FAILED TO REPORT HEARTBEAT"@,
        PmixProcState::decoded(60).label() == "PROC WAITING TO MIGRATE"@,
        PmixProcState::decoded(61).label() == "PROC CANNOT BE RESTARTED"@,
        PmixProcState::decoded(62).label() == "PROC TERMINATED WITH NON-ZERO STATUS"@,
        PmixProcState::decoded(63).label() == "PROC FAILED TO LAUNCH"@,
        forall|v: u8| !PmixProcState::is_named_code(v) ==> #[trigger] PmixProcState::decoded(v).label() == "UNKNOWN STATE ("@ + decimal_digits(v as nat) + ")"@,
{
}

/// Every named `PmixScope` value has the code of its `pmix_scope_t` constant,
/// and that code decodes to it.
pub proof fn lemma_scope_code_table()
    ensures
        PmixScope::Undef.code() == 0,
        PmixScope::decoded(0) == PmixScope::Undef,
        PmixScope::Local.code() == 1,
        PmixScope::decoded(1) == PmixScope::Local,
        PmixScope::Remote.code() == 2,
        PmixScope::decoded(2) == PmixScope::Remote,
        PmixScope::Global.code() == 3,
        PmixScope::decoded(3) == PmixScope::Global,
        PmixScope::Internal.code() == 4,
        PmixScope::decoded(4) == PmixScope::Internal,
        forall|v: u8| !PmixScope::is_named_code(v) ==> #[trigger] PmixScope::decoded(v) == PmixScope::Unknown(v) && PmixScope::Unknown(v).code() == v,
{
}

/// Every named `PmixScope` code shows the PMIx text of its constant.
pub proof fn lemma_scope_label_table()
    ensures
        PmixScope::decoded(0).label() == "UNDEFINED"@,
        PmixScope::decoded(1).label() == "LOCAL"@,
        PmixScope::decoded(2).label() == "REMOTE"@,
        PmixScope::decoded(3).label() == "GLOBAL"@,
        PmixScope::decoded(4).label() == "INTERNAL"@,
        forall|v: u8| !PmixScope::is_named_code(v) ==> #[trigger] PmixScope::decoded(v).label() == "UNKNOWN SCOPE ("@ + decimal_digits(v as nat) + ")"@,
{
}

/// Every named `PmixJobState` value has the code of its `pmix_job_state_t` constant,
/// and that code decodes to it.
pub proof fn lemma_job_state_code_table()
    ensures
        PmixJobState::Undef.code() == 0,
        PmixJobState::decoded(0) == PmixJobState::Undef,
        PmixJobState::AwaitingAlloc.code() == 1,
        PmixJobState::decoded(1) == PmixJobState::AwaitingAlloc,
        PmixJobState::LaunchUnderway.code() == 2,
        PmixJobState::decoded(2) == PmixJobState::LaunchUnderway,
        PmixJobState::Running.code() == 3,
        PmixJobState::decoded(3) == PmixJobState::Running,
        PmixJobState::Suspended.code() == 4,
        PmixJobState::decoded(4) == PmixJobState::Suspended,
        PmixJobState::Connected.code() == 5,
        PmixJobState::decoded(5) == PmixJobState::Connected,
        PmixJobState::Unterminated.code() == 15,
        PmixJobState::decoded(15) == PmixJobState::Unterminated,
        PmixJobState::Terminated.code() == 20,
        PmixJobState::decoded(20) == PmixJobState::Terminated,
        PmixJobState::TerminatedWithError.code() == 50,
        PmixJobState::decoded(50) == PmixJobState::TerminatedWithError,
        forall|v: u8| !PmixJobState::is_named_code(v) ==> #[trigger] PmixJobState::decoded(v) == PmixJobState::Unknown(v) && PmixJobState::Unknown(v).code() == v,
{
}

/// Every named `PmixJobState` code shows the PMIx text of its constant.
pub proof fn lemma_job_state_label_table()
    ensures
        PmixJobState::decoded(0).label() == "UNDEF"@,
        PmixJobState::decoded(1).label() == "AWAITING_ALLOC"@,
        PmixJobState::decoded(2).label() == "LAUNCH_UNDERWAY"@,
        PmixJobState::decoded(3).label() == "RUNNING"@,
        PmixJobState::decoded(4).label() == "SUSPENDED"@,
        PmixJobState::decoded(5).label() == "CONNECTED"@,
        PmixJobState::decoded(15).label() == "UNTERMINATED"@,
        PmixJobState::decoded(20).label() == "TERMINATED"@,
        PmixJobState::decoded(50).label() == "TERMINATED_WITH_ERROR"@,
        forall|v: u8| !PmixJobState::is_named_code(v) ==> #[trigger] PmixJobState::decoded(v).label() == "UNKNOWN JOB STATE ("@ + decimal_digits(v as nat) + ")"@,
{
}

/// Every named `PmixLinkState` value has the code of its `pmix_link_state_t` constant,
/// and that code decodes to it.
pub proof fn lemma_link_state_code_table()
    ensures
        PmixLinkState::UnknownState.code() == 0,
        PmixLinkState::decoded(0) == PmixLinkState::UnknownState,
        PmixLinkState::LinkDown.code() == 1,
        PmixLinkState::decoded(1) == PmixLinkState::LinkDown,
        PmixLinkState::LinkUp.code() == 2,
        PmixLinkState::decoded(2) == PmixLinkState::LinkUp,
        forall|v: u8| !PmixLinkState::is_named_code(v) ==> #[trigger] PmixLinkState::decoded(v) == PmixLinkState::Unknown(v) && PmixLinkState::Unknown(v).code() == v,
{
}

/// Every named `PmixLinkState` code shows the PMIx text of its constant.
pub proof fn lemma_link_state_label_table()
    ensures
        PmixLinkState::decoded(0).label() == "UNKNOWN"@,
        PmixLinkState::decoded(1).label() == "INACTIVE"@,
        PmixLinkState::decoded(2).label() == "ACTIVE"@,
        forall|v: u8| !PmixLinkState::is_named_code(v) ==> #[trigger] PmixLinkState::decoded(v).label() == "UNKNOWN LINK STATE ("@ + decimal_digits(v as nat) + ")"@,
{
}

/// Every named `PmixDeviceType` value has the code of its `pmix_device_type_t` constant,
/// and that code decodes to it.
pub proof fn lemma_device_type_code_table()
    ensures
        PmixDeviceType::UnknownType.code() == 0,
        PmixDeviceType::decoded(0) == PmixDeviceType::UnknownType,
        PmixDeviceType::Block.code() == 1,
        PmixDeviceType::decoded(1) == PmixDeviceType::Block,
        PmixDeviceType::Gpu.code() == 2,
        PmixDeviceType::decoded(2) == PmixDeviceType::Gpu,
        PmixDeviceType::Network.code() == 4,
        PmixDeviceType::decoded(4) == PmixDeviceType::Network,
        PmixDeviceType::OpenFabrics.code() == 8,
        PmixDeviceType::decoded(8) == PmixDeviceType::OpenFabrics,
        PmixDeviceType::Dma.code() == 16,
        PmixDeviceType::decoded(16) == PmixDeviceType::Dma,
        PmixDeviceType::Coproc.code() == 32,
        PmixDeviceType::decoded(32) == PmixDeviceType::Coproc,
        forall|v: u64| !PmixDeviceType::is_named_code(v) ==> #[trigger] PmixDeviceType::decoded(v) == PmixDeviceType::Unknown(v) && PmixDeviceType::Unknown(v).code() == v,
{
}

/// Every named `PmixDeviceType` code shows the PMIx text of its constant.
pub proof fn lemma_device_type_label_table()
    ensures
        PmixDeviceType::decoded(0).label() == "UNKNOWN"@,
        PmixDeviceType::decoded(1).label() == "BLOCK"@,
        PmixDeviceType::decoded(2).label() == "GPU"@,
        PmixDeviceType::decoded(4).label() == "NETWORK"@,
        PmixDeviceType::decoded(8).label() == "OPENFABRICS"@,
        PmixDeviceType::decoded(16).label() == "DMA"@,
        PmixDeviceType::decoded(32).label() == "COPROCESSOR"@,
        forall|v: u64| !PmixDeviceType::is_named_code(v) ==> #[trigger] PmixDeviceType::decoded(v).label() == "UNKNOWN DEVICE TYPE ("@ + hex_digits(v as nat) + ")"@,
{
}

/// Every named `PmixPersistence` value has the code of its `pmix_persistence_t` constant,
/// and that code decodes to it.
pub proof fn lemma_persistence_code_table()
    ensures
        PmixPersistence::Indefinite.code() == 0,
        PmixPersistence::decoded(0) == PmixPersistence::Indefinite,
        PmixPersistence::FirstRead.code() == 1,
        PmixPersistence::decoded(1) == PmixPersistence::FirstRead,
        PmixPersistence::Process.code() == 2,
        PmixPersistence::decoded(2) == PmixPersistence::Process,
        PmixPersistence::Application.code() == 3,
        PmixPersistence::decoded(3) == PmixPersistence::Application,
        PmixPersistence::Session.code() == 4,
        PmixPersistence::decoded(4) == PmixPersistence::Session,
        PmixPersistence::Invalid.code() == 255,
        PmixPersistence::decoded(255) == PmixPersistence::Invalid,
        forall|v: u8| !PmixPersistence::is_named_code(v) ==> #[trigger] PmixPersistence::decoded(v) == PmixPersistence::Unknown(v) && PmixPersistence::Unknown(v).code() == v,
{
}

/// Every named `PmixPersistence` code shows the PMIx text of its constant.
pub proof fn lemma_persistence_label_table()
    ensures
        PmixPersistence::decoded(0).label() == "INDEFINITE"@,
        PmixPersistence::decoded(1).label() == "DELETE ON FIRST ACCESS"@,
        PmixPersistence::decoded(2).label() == "RETAIN UNTIL PUBLISHING PROCESS TERMINATES"@,
        PmixPersistence::decoded(3).label() == "RETAIN UNTIL APPLICATION OF PUBLISHING PROCESS TERMINATES"@,
        PmixPersistence::decoded(4).label() == "RETAIN UNTIL ALLOCATION OF PUBLISHING PROCESS TERMINATES"@,
        PmixPersistence::decoded(255).label() == "INVALID"@,
        forall|v: u8| !PmixPersistence::is_named_code(v) ==> #[trigger] PmixPersistence::decoded(v).label() == "UNKNOWN PERSISTENCE ("@ + decimal_digits(v as nat) + ")"@,
{
}

/// Every named `PmixDataRange` value has the code of its `pmix_data_range_t` constant,
/// and that code decodes to it.
pub proof fn lemma_data_range_code_table()
    ensures
        PmixDataRange::Undef.code() == 0,
        PmixDataRange::decoded(0) == PmixDataRange::Undef,
        PmixDataRange::Rm.code() == 1,
        PmixDataRange::decoded(1) == PmixDataRange::Rm,
        PmixDataRange::Local.code() == 2,
        PmixDataRange::decoded(2) == PmixDataRange::Local,
        PmixDataRange::Namespace.code() == 3,
        PmixDataRange::decoded(3) == PmixDataRange::Namespace,
        PmixDataRange::Session.code() == 4,
        PmixDataRange::decoded(4) == PmixDataRange::Session,
        PmixDataRange::Global.code() == 5,
        PmixDataRange::decoded(5) == PmixDataRange::Global,
        PmixDataRange::Custom.code() == 6,
        PmixDataRange::decoded(6) == PmixDataRange::Custom,
        PmixDataRange::ProcLocal.code() == 7,
        PmixDataRange::decoded(7) == PmixDataRange::ProcLocal,
        PmixDataRange::Invalid.code() == 255,
        PmixDataRange::decoded(255) == PmixDataRange::Invalid,
        PmixDataRange::Unknown.code() == 128,
        forall|v: u8| !PmixDataRange::is_named_code(v) ==> #[trigger] PmixDataRange::decoded(v) == PmixDataRange::Unknown,
{
}

/// Every named `PmixDataRange` code shows the PMIx text of its constant.
pub proof fn lemma_data_range_label_table()
    ensures
        PmixDataRange::decoded(0).label() == "UNDEFINED"@,
        PmixDataRange::decoded(1).label() == "RM"@,
        PmixDataRange::decoded(2).label() == "LOCAL"@,
        PmixDataRange::decoded(3).label() == "NAMESPACE"@,
        PmixDataRange::decoded(4).label() == "SESSION"@,
        PmixDataRange::decoded(5).label() == "GLOBAL"@,
        PmixDataRange::decoded(6).label() == "CUSTOM"@,
        PmixDataRange::decoded(7).label() == "PROC LOCAL"@,
        PmixDataRange::decoded(255).label() == "INVALID"@,
        forall|v: u8| !PmixDataRange::is_named_code(v) ==> #[trigger] PmixDataRange::decoded(v).label() == "UNKNOWN RANGE (128)"@,
{
}

/// Every named `PmixDataType` value has the code of its `pmix_data_type_t` constant,
/// and that code decodes to it (part 1 of 3).
pub proof fn lemma_data_type_code_table_part1()
    ensures
        PmixDataType::Undef.code() == 0,
        PmixDataType::decoded(0) == PmixDataType::Undef,
        PmixDataType::Bool.code() == 1,
        PmixDataType::decoded(1) == PmixDataType::Bool,
        PmixDataType::Byte.code() == 2,
        PmixDataType::decoded(2) == PmixDataType::Byte,
        PmixDataType::String.code() == 3,
        PmixDataType::decoded(3) == PmixDataType::String,
        PmixDataType::Size.code() == 4,
        PmixDataType::decoded(4) == PmixDataType::Size,
        PmixDataType::Pid.code() == 5,
        PmixDataType::decoded(5) == PmixDataType::Pid,
        PmixDataType::Int.code() == 6,
        PmixDataType::decoded(6) == PmixDataType::Int,
        PmixDataType::Int8.code() == 7,
        PmixDataType::decoded(7) == PmixDataType::Int8,
        PmixDataType::Int16.code() == 8,
        PmixDataType::decoded(8) == PmixDataType::Int16,
        PmixDataType::Int32.code() == 9,
        PmixDataType::decoded(9) == PmixDataType::Int32,
        PmixDataType::Int64.code() == 10,
        PmixDataType::decoded(10) == PmixDataType::Int64,
        PmixDataType::Uint.code() == 11,
        PmixDataType::decoded(11) == PmixDataType::Uint,
        PmixDataType::Uint8.code() == 12,
        PmixDataType::decoded(12) == PmixDataType::Uint8,
        PmixDataType::Uint16.code() == 13,
        PmixDataType::decoded(13) == PmixDataType::Uint16,
        PmixDataType::Uint32.code() == 14,
        PmixDataType::decoded(14) == PmixDataType::Uint32,
        PmixDataType::Uint64.code() == 15,
        PmixDataType::decoded(15) == PmixDataType::Uint64,
        PmixDataType::Float.code() == 16,
        PmixDataType::decoded(16) == PmixDataType::Float,
        PmixDataType::Double.code() == 17,
        PmixDataType::decoded(17) == PmixDataType::Double,
        PmixDataType::Timeval.code() == 18,
        PmixDataType::decoded(18) == PmixDataType::Timeval,
        PmixDataType::Time.code() == 19,
        PmixDataType::decoded(19) == PmixDataType::Time,
        PmixDataType::Status.code() == 20,
        PmixDataType::decoded(20) == PmixDataType::Status,
        PmixDataType::Value.code() == 21,
        PmixDataType::decoded(21) == PmixDataType::Value,
        PmixDataType::Proc.code() == 22,
        PmixDataType::decoded(22) == PmixDataType::Proc,
        PmixDataType::App.code() == 23,
        PmixDataType::decoded(23) == PmixDataType::App,
{
}

/// Every named `PmixDataType` code shows the PMIx text of its constant (part 1 of 3).
pub proof fn lemma_data_type_label_table_part1()
    ensures
        PmixDataType::decoded(0).label() == "UNDEF"@,
        PmixDataType::decoded(1).label() == "BOOL"@,
        PmixDataType::decoded(2).label() == "BYTE"@,
        PmixDataType::decoded(3).label() == "STRING"@,
        PmixDataType::decoded(4).label() == "SIZE"@,
        PmixDataType::decoded(5).label() == "PID"@,
        PmixDataType::decoded(6).label() == "INT"@,
        PmixDataType::decoded(7).label() == "INT8"@,
        PmixDataType::decoded(8).label() == "INT16"@,
        PmixDataType::decoded(9).label() == "INT32"@,
        PmixDataType::decoded(10).label() == "INT64"@,
        PmixDataType::decoded(11).label() == "UINT"@,
        PmixDataType::decoded(12).label() == "UINT8"@,
        PmixDataType::decoded(13).label() == "UINT16"@,
        PmixDataType::decoded(14).label() == "UINT32"@,
        PmixDataType::decoded(15).label() == "UINT64"@,
        PmixDataType::decoded(16).label() == "FLOAT"@,
        PmixDataType::decoded(17).label() == "DOUBLE"@,
        PmixDataType::decoded(18).label() == "TIMEVAL"@,
        PmixDataType::decoded(19).label() == "TIME"@,
        PmixDataType::decoded(20).label() == "STATUS"@,
        PmixDataType::decoded(21).label() == "VALUE"@,
        PmixDataType::decoded(22).label() == "PROC"@,
        PmixDataType::decoded(23).label() == "APP"@,
{
}

/// Every named `PmixDataType` value has the code of its `pmix_data_type_t` constant,
/// and that code decodes to it (part 2 of 3).
pub proof fn lemma_data_type_code_table_part2()
    ensures
        PmixDataType::Info.code() == 24,
        PmixDataType::decoded(24) == PmixDataType::Info,
        PmixDataType::Pdata.code() == 25,
        PmixDataType::decoded(25) == PmixDataType::Pdata,
        PmixDataType::ByteObject.code() == 27,
        PmixDataType::decoded(27) == PmixDataType::ByteObject,
        PmixDataType::Kval.code() == 28,
        PmixDataType::decoded(28) == PmixDataType::Kval,
        PmixDataType::Persist.code() == 30,
        PmixDataType::decoded(30) == PmixDataType::Persist,
        PmixDataType::Pointer.code() == 31,
        PmixDataType::decoded(31) == PmixDataType::Pointer,
        PmixDataType::Scope.code() == 32,
        PmixDataType::decoded(32) == PmixDataType::Scope,
        PmixDataType::DataRange.code() == 33,
        PmixDataType::decoded(33) == PmixDataType::DataRange,
        PmixDataType::Command.code() == 34,
        PmixDataType::decoded(34) == PmixDataType::Command,
        PmixDataType::InfoDirectives.code() == 35,
        PmixDataType::decoded(35) == PmixDataType::InfoDirectives,
        PmixDataType::DataType.code() == 36,
        PmixDataType::decoded(36) == PmixDataType::DataType,
        PmixDataType::ProcState.code() == 37,
        PmixDataType::decoded(37) == PmixDataType::ProcState,
        PmixDataType::ProcInfo.code() == 38,
        PmixDataType::decoded(38) == PmixDataType::ProcInfo,
        PmixDataType::DataArray.code() == 39,
        PmixDataType::decoded(39) == PmixDataType::DataArray,
        PmixDataType::ProcRank.code() == 40,
        PmixDataType::decoded(40) == PmixDataType::ProcRank,
        PmixDataType::Query.code() == 41,
        PmixDataType::decoded(41) == PmixDataType::Query,
        PmixDataType::CompressedString.code() == 42,
        PmixDataType::decoded(42) == PmixDataType::CompressedString,
        PmixDataType::AllocDirective.code() == 43,
        PmixDataType::decoded(43) == PmixDataType::AllocDirective,
        PmixDataType::IofChannel.code() == 45,
        PmixDataType::decoded(45) == PmixDataType::IofChannel,
        PmixDataType::Envar.code() == 46,
        PmixDataType::decoded(46) == PmixDataType::Envar,
        PmixDataType::Coord.code() == 47,
        PmixDataType::decoded(47) == PmixDataType::Coord,
        PmixDataType::Regattr.code() == 48,
        PmixDataType::decoded(48) == PmixDataType::Regattr,
        PmixDataType::Regex.code() == 49,
        PmixDataType::decoded(49) == PmixDataType::Regex,
        PmixDataType::JobState.code() == 50,
        PmixDataType::decoded(50) == PmixDataType::JobState,
{
}

/// Every named `PmixDataType` code shows the PMIx text of its constant (part 2 of 3).
pub proof fn lemma_data_type_label_table_part2()
    ensures
        PmixDataType::decoded(24).label() == "INFO"@,
        PmixDataType::decoded(25).label() == "PDATA"@,
        PmixDataType::decoded(27).label() == "BYTE_OBJECT"@,
        PmixDataType::decoded(28).label() == "KVAL"@,
        PmixDataType::decoded(30).label() == "PERSIST"@,
        PmixDataType::decoded(31).label() == "POINTER"@,
        PmixDataType::decoded(32).label() == "SCOPE"@,
        PmixDataType::decoded(33).label() == "DATA_RANGE"@,
        PmixDataType::decoded(34).label() == "COMMAND"@,
        PmixDataType::decoded(35).label() == "INFO_DIRECTIVES"@,
        PmixDataType::decoded(36).label() == "DATA_TYPE"@,
        PmixDataType::decoded(37).label() == "PROC_STATE"@,
        PmixDataType::decoded(38).label() == "PROC_INFO"@,
        PmixDataType::decoded(39).label() == "DATA_ARRAY"@,
        PmixDataType::decoded(40).label() == "PROC_RANK"@,
        PmixDataType::decoded(41).label() == "QUERY"@,
        PmixDataType::decoded(42).label() == "COMPRESSED_STRING"@,
        PmixDataType::decoded(43).label() == "ALLOC_DIRECTIVE"@,
        PmixDataType::decoded(45).label() == "IOF_CHANNEL"@,
        PmixDataType::decoded(46).label() == "ENVAR"@,
        PmixDataType::decoded(47).label() == "COORD"@,
        PmixDataType::decoded(48).label() == "REGATTR"@,
        PmixDataType::decoded(49).label() == "REGEX"@,
        PmixDataType::decoded(50).label() == "JOB_STATE"@,
{
}

/// Every named `PmixDataType` value has the code of its `pmix_data_type_t` constant,
/// and that code decodes to it (part 3 of 3).
pub proof fn lemma_data_type_code_table_part3()
    ensures
        PmixDataType::LinkState.code() == 51,
        PmixDataType::decoded(51) == PmixDataType::LinkState,
        PmixDataType::ProcCpuset.code() == 52,
        PmixDataType::decoded(52) == PmixDataType::ProcCpuset,
        PmixDataType::Geometry.code() == 53,
        PmixDataType::decoded(53) == PmixDataType::Geometry,
        PmixDataType::DeviceDist.code() == 54,
        PmixDataType::decoded(54) == PmixDataType::DeviceDist,
        PmixDataType::Endpoint.code() == 55,
        PmixDataType::decoded(55) == PmixDataType::Endpoint,
        PmixDataType::Topo.code() == 56,
        PmixDataType::decoded(56) == PmixDataType::Topo,
        PmixDataType::Devtype.code() == 57,
        PmixDataType::decoded(57) == PmixDataType::Devtype,
        PmixDataType::LocType.code() == 58,
        PmixDataType::decoded(58) == PmixDataType::LocType,
        PmixDataType::CompressedByteObject.code() == 59,
        PmixDataType::decoded(59) == PmixDataType::CompressedByteObject,
        PmixDataType::ProcNspace.code() == 60,
        PmixDataType::decoded(60) == PmixDataType::ProcNspace,
        PmixDataType::ProcStats.code() == 61,
        PmixDataType::decoded(61) == PmixDataType::ProcStats,
        PmixDataType::DiskStats.code() == 62,
        PmixDataType::decoded(62) == PmixDataType::DiskStats,
        PmixDataType::NetStats.code() == 63,
        PmixDataType::decoded(63) == PmixDataType::NetStats,
        PmixDataType::NodeStats.code() == 64,
        PmixDataType::decoded(64) == PmixDataType::NodeStats,
        PmixDataType::DataBuffer.code() == 65,
        PmixDataType::decoded(65) == PmixDataType::DataBuffer,
        PmixDataType::StorMedium.code() == 66,
        PmixDataType::decoded(66) == PmixDataType::StorMedium,
        PmixDataType::StorAccess.code() == 67,
        PmixDataType::decoded(67) == PmixDataType::StorAccess,
        PmixDataType::StorPersist.code() == 68,
        PmixDataType::decoded(68) == PmixDataType::StorPersist,
        PmixDataType::StorAccessType.code() == 69,
        PmixDataType::decoded(69) == PmixDataType::StorAccessType,
        PmixDataType::Unknown.code() == 70,
        forall|v: u16| !PmixDataType::is_named_code(v) ==> #[trigger] PmixDataType::decoded(v) == PmixDataType::Unknown,
{
}

/// Every named `PmixDataType` code shows the PMIx text of its constant (part 3 of 3).
pub proof fn lemma_data_type_label_table_part3()
    ensures
        PmixDataType::decoded(51).label() == "LINK_STATE"@,
        PmixDataType::decoded(52).label() == "PROC_CPUSET"@,
        PmixDataType::decoded(53).label() == "GEOMETRY"@,
        PmixDataType::decoded(54).label() == "DEVICE_DIST"@,
        PmixDataType::decoded(55).label() == "ENDPOINT"@,
        PmixDataType::decoded(56).label() == "TOPO"@,
        PmixDataType::decoded(57).label() == "DEVTYPE"@,
        PmixDataType::decoded(58).label() == "LOCTYPE"@,
        PmixDataType::decoded(59).label() == "COMPRESSED_BYTE_OBJECT"@,
        PmixDataType::decoded(60).label() == "PROC_NSPACE"@,
        PmixDataType::decoded(61).label() == "PROC_STATS"@,
        PmixDataType::decoded(62).label() == "DISK_STATS"@,
        PmixDataType::decoded(63).label() == "NET_STATS"@,
        PmixDataType::decoded(64).label() == "NODE_STATS"@,
        PmixDataType::decoded(65).label() == "DATA_BUFFER"@,
        PmixDataType::decoded(66).label() == "STOR_MEDIUM"@,
        PmixDataType::decoded(67).label() == "STOR_ACCESS"@,
        PmixDataType::decoded(68).label() == "STOR_PERSIST"@,
        PmixDataType::decoded(69).label() == "STOR_ACCESS_TYPE"@,
        forall|v: u16| !PmixDataType::is_named_code(v) ==> #[trigger] PmixDataType::decoded(v).label() == "UNKNOWN"@,
{
}

/// Every named `PmixAllocDirective` value has the code of its `pmix_alloc_directive_t` constant,
/// and that code decodes to it.
pub proof fn lemma_alloc_directive_code_table()
    ensures
        PmixAllocDirective::AllocDirective.code() == 43,
        PmixAllocDirective::decoded(43) == PmixAllocDirective::AllocDirective,
        forall|v: u8| !PmixAllocDirective::is_named_code(v) ==> #[trigger] PmixAllocDirective::decoded(v) == PmixAllocDirective::Unknown(v) && PmixAllocDirective::Unknown(v).code() == v,
{
}

/// Every named `PmixAllocDirective` code shows the PMIx text of its constant.
pub proof fn lemma_alloc_directive_label_table()
    ensures
        PmixAllocDirective::decoded(43).label() == "ALLOC_DIRECTIVE"@,
        forall|v: u8| !PmixAllocDirective::is_named_code(v) ==> #[trigger] PmixAllocDirective::decoded(v).label() == "UNKNOWN DIRECTIVE ("@ + decimal_digits(v as nat) + ")"@,
{
}

} // verus!
