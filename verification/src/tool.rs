//! Tool-side identity: the handle returned by `PMIx_tool_init`.

use vstd::prelude::*;
use crate::proc_id::Proc;

verus! {

/// Handle returned by `tool_init`.
///
/// Carries the tool's server-assigned process identifier (namespace +
/// rank). Dropping the handle does NOT call `PMIx_tool_finalize` — the
/// caller must finalize explicitly.
///
/// # C API
/// Returned `pmix_proc_t` from `PMIx_tool_init`.
#[derive(Debug, Clone)]
pub struct PmixToolHandle {
    proc: Proc,
}

impl PmixToolHandle {
    /// The identifier that the handle carries.
    pub closed spec fn identity(&self) -> Proc {
        self.proc
    }

    /// A handle for the identifier that `PMIx_tool_init` assigned.
    pub fn new(proc: Proc) -> (h: Self)
        ensures
            h.identity() == proc,
    {
        PmixToolHandle { proc }
    }

    /// Return the tool's assigned process identifier.
    pub fn proc(&self) -> (p: &Proc)
        ensures
            *p == self.identity(),
    {
        &self.proc
    }
}

} // verus!
