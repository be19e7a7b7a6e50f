//! Lifecycle of the process-wide PMIx server session.
//!
//! A server session moves forward only: `Uninitialized` → `Live` (after a
//! successful `PMIx_server_init`) → `Finalizing` (while
//! `PMIx_server_finalize` runs) → `Dead`. The decisions of `connect` and
//! `disconnect` are made here; the caller performs the PMIx call between
//! the two halves of each transition and reports its status back.

use vstd::prelude::*;
use crate::status::{status_code, PmixError, PmixStatus};

verus! {

/// Lifecycle state of the process-wide PMIx **server** session.
#[derive(Debug, Clone, Copy, PartialEq, Eq, Structural)]
pub enum PmixServerState {
    Uninitialized,
    Live,
    Finalizing,
    Dead,
}

impl PmixServerState {
    /// Position of the state along the lifecycle (0 to 3).
    pub open spec fn stage(self) -> u8 {
        match self {
            PmixServerState::Uninitialized => 0,
            PmixServerState::Live => 1,
            PmixServerState::Finalizing => 2,
            PmixServerState::Dead => 3,
        }
    }

    /// The state stored as byte `val`; every byte above 2 reads as `Dead`.
    pub open spec fn decoded(val: u8) -> Self {
        if val == 0 {
            PmixServerState::Uninitialized
        } else if val == 1 {
            PmixServerState::Live
        } else if val == 2 {
            PmixServerState::Finalizing
        } else {
            PmixServerState::Dead
        }
    }

    /// Decode a state stored as a byte.
    pub fn from_raw(val: u8) -> (s: Self)
        ensures
            s == Self::decoded(val),
    {
        match val {
            0 => PmixServerState::Uninitialized,
            1 => PmixServerState::Live,
            2 => PmixServerState::Finalizing,
            _ => PmixServerState::Dead,
        }
    }

    /// Encode the state as the byte that [`from_raw`](Self::from_raw) reads.
    pub fn to_raw(self) -> (val: u8)
        ensures
            val == self.stage(),
    {
        match self {
            PmixServerState::Uninitialized => 0,
            PmixServerState::Live => 1,
            PmixServerState::Finalizing => 2,
            PmixServerState::Dead => 3,
        }
    }
}

/// Storing a state as a byte and reading it back gives the state.
pub proof fn lemma_server_state_byte_roundtrip(s: PmixServerState)
    ensures
        PmixServerState::decoded(s.stage()) == s,
{
}

/// The answer to a connect request in state `s`: allowed only before the
/// first initialization; `PMIX_ERR_EXISTS` while live; `PMIX_ERR_INIT`
/// once finalization has begun.
pub open spec fn connect_admission(s: PmixServerState) -> Result<(), PmixStatus> {
    match s {
        PmixServerState::Uninitialized => Ok(()),
        PmixServerState::Live => Err(PmixStatus::Known(PmixError::ErrExists)),
        _ => Err(PmixStatus::Known(PmixError::ErrInit)),
    }
}

/// The answer to "is the session live?" in state `s`.
pub open spec fn liveness_check(s: PmixServerState) -> Result<(), PmixStatus> {
    if s == PmixServerState::Live {
        Ok(())
    } else {
        Err(PmixStatus::Known(PmixError::ErrInit))
    }
}

/// `Ok(())` in the live state, `PMIX_ERR_INIT` in every other.
pub fn check_live_state(s: PmixServerState) -> (r: Result<(), PmixStatus>)
    ensures
        r == liveness_check(s),
{
    if s == PmixServerState::Live {
        Ok(())
    } else {
        Err(PmixStatus::Known(PmixError::ErrInit))
    }
}

/// The decisions of the server session's lifecycle.
pub struct ServerLifecycle {
    state: PmixServerState,
}

impl ServerLifecycle {
    /// The current state.
    pub closed spec fn current(&self) -> PmixServerState {
        self.state
    }

    /// A session that has not been initialized.
    pub fn new() -> (r: Self)
        ensures
            r.current() == PmixServerState::Uninitialized,
    {
        ServerLifecycle { state: PmixServerState::Uninitialized }
    }

    /// The current state.
    pub fn state(&self) -> (s: PmixServerState)
        ensures
            s == self.current(),
    {
        self.state
    }

    /// Whether the session is live.
    pub fn is_live(&self) -> (b: bool)
        ensures
            b == (self.current() == PmixServerState::Live),
    {
        self.state == PmixServerState::Live
    }

    /// `Ok(())` when the session is live, `PMIX_ERR_INIT` otherwise.
    pub fn check_live(&self) -> (r: Result<(), PmixStatus>)
        ensures
            r == liveness_check(self.current()),
    {
        check_live_state(self.state)
    }

    /// Decide whether `PMIx_server_init` may be called now.
    pub fn admit_connect(&self) -> (r: Result<(), PmixStatus>)
        ensures
            r == connect_admission(self.current()),
    {
        match self.state {
            PmixServerState::Uninitialized => Ok(()),
            PmixServerState::Live => Err(PmixStatus::Known(PmixError::ErrExists)),
            PmixServerState::Finalizing | PmixServerState::Dead => Err(
                PmixStatus::Known(PmixError::ErrInit),
            ),
        }
    }

    /// Record the status of an admitted `PMIx_server_init`: on success the
    /// session becomes live; on failure it stays uninitialized and the
    /// status is the error.
    pub fn finish_connect(&mut self, status: PmixStatus) -> (r: Result<(), PmixStatus>)
        requires
            old(self).current() == PmixServerState::Uninitialized,
        ensures
            status_code(status) >= 0 ==> r is Ok && final(self).current() == PmixServerState::Live,
            status_code(status) < 0 ==> r == Err::<(), PmixStatus>(status) && final(self).current()
                == PmixServerState::Uninitialized,
    {
        if status.is_success() {
            self.state = PmixServerState::Live;
            Ok(())
        } else {
            Err(status)
        }
    }

    /// Decide whether `PMIx_server_finalize` must be called: only a live
    /// session is finalized, and it enters `Finalizing`; in every other
    /// state disconnecting is a no-op and nothing changes.
    pub fn begin_disconnect(&mut self) -> (run_finalize: bool)
        ensures
            run_finalize == (old(self).current() == PmixServerState::Live),
            run_finalize ==> final(self).current() == PmixServerState::Finalizing,
            !run_finalize ==> final(self).current() == old(self).current(),
    {
        if self.state == PmixServerState::Live {
            self.state = PmixServerState::Finalizing;
            true
        } else {
            false
        }
    }

    /// Record the status of `PMIx_server_finalize`: the session is dead
    /// whatever the status; the result is `Ok` on success and the status as
    /// the error otherwise.
    pub fn finish_disconnect(&mut self, status: PmixStatus) -> (r: Result<(), PmixStatus>)
        requires
            old(self).current() == PmixServerState::Finalizing,
        ensures
            final(self).current() == PmixServerState::Dead,
            status_code(status) >= 0 ==> r is Ok,
            status_code(status) < 0 ==> r == Err::<(), PmixStatus>(status),
    {
        self.state = PmixServerState::Dead;
        if status.is_success() {
            Ok(())
        } else {
            Err(status)
        }
    }
}

/// The lifecycle only moves forward, and `Dead` is final: a dead session
/// can be neither reconnected (`PMIX_ERR_INIT`) nor finalized again, and a
/// live one refuses a second initialization with `PMIX_ERR_EXISTS`.
pub proof fn lemma_server_lifecycle_is_one_way(s: PmixServerState)
    ensures
        connect_admission(s) is Ok <==> s == PmixServerState::Uninitialized,
        s == PmixServerState::Live ==> connect_admission(s) == Err::<(), PmixStatus>(
            PmixStatus::Known(PmixError::ErrExists),
        ),
        s.stage() >= 2 ==> connect_admission(s) == Err::<(), PmixStatus>(
            PmixStatus::Known(PmixError::ErrInit),
        ),
        liveness_check(s) is Ok <==> s == PmixServerState::Live,
{
}

/// How many times the PMIx tool library has been initialized by this
/// process and not yet finalized: a reference count. The library counts as
/// initialized while the count is positive.
pub struct ToolInitState {
    count: usize,
}

impl ToolInitState {
    /// The number of successful initializations not yet finalized.
    pub closed spec fn init_count(&self) -> nat {
        self.count as nat
    }

    /// Whether the tool library is initialized: more successful
    /// initializations than finalizations.
    pub open spec fn is_on(&self) -> bool {
        self.init_count() > 0
    }

    /// The state before any `PMIx_tool_init`.
    pub fn new() -> (r: Self)
        ensures
            r.init_count() == 0,
    {
        ToolInitState { count: 0 }
    }

    /// The number of successful initializations not yet finalized.
    pub fn count(&self) -> (n: usize)
        ensures
            n == self.init_count(),
    {
        self.count
    }

    /// Whether the tool library is initialized.
    pub fn is_initialized(&self) -> (b: bool)
        ensures
            b == self.is_on(),
    {
        self.count > 0
    }

    /// Record the status of `PMIx_tool_init`: on success the count goes up
    /// by one; on failure nothing changes and the status is the error.
    pub fn record_init(&mut self, status: PmixStatus) -> (r: Result<(), PmixStatus>)
        requires
            old(self).init_count() < usize::MAX,
        ensures
            status_code(status) >= 0 ==> r is Ok && final(self).init_count() == old(self).init_count() + 1,
            status_code(status) < 0 ==> r == Err::<(), PmixStatus>(status) && final(self).init_count()
                == old(self).init_count(),
    {
        if status.is_success() {
            self.count = self.count + 1;
            Ok(())
        } else {
            Err(status)
        }
    }

    /// Record the status of `PMIx_tool_finalize`: on success the count goes
    /// down by one (it stays 0 when nothing was initialized); on failure
    /// nothing changes and the status is the error.
    pub fn record_finalize(&mut self, status: PmixStatus) -> (r: Result<(), PmixStatus>)
        ensures
            status_code(status) >= 0 ==> r is Ok && final(self).init_count() == (if old(
                self,
            ).init_count() > 0 {
                (old(self).init_count() - 1) as nat
            } else {
                0
            }),
            status_code(status) < 0 ==> r == Err::<(), PmixStatus>(status) && final(self).init_count()
                == old(self).init_count(),
    {
        if status.is_success() {
            if self.count > 0 {
                self.count = self.count - 1;
            }
            Ok(())
        } else {
            Err(status)
        }
    }
}

} // verus!
