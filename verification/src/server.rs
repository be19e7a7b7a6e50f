//! Server-side types: the server handle, the inventory result set, the
//! callback traits of the non-blocking server operations, and the wrapper
//! that carries a closure to the completion of a fence, connect or
//! disconnect.

use vstd::prelude::*;
use crate::status::{decode_status, PmixError, PmixStatus};

verus! {

/// Handle returned by `server_init`.
///
/// Dropping this handle does **not** call `PMIx_server_finalize` — the
/// server must be finalized explicitly with `server_finalize`. The handle
/// records that the server library has been initialized.
#[derive(Debug)]
pub struct PmixServerHandle {
    pub initialized: bool,
}

/// The outcome of a lookup of published data: the value only when PMIx
/// answered exactly `PMIX_SUCCESS` and wrote one; `PMIX_ERR_NOT_FOUND` when
/// it answered `PMIX_SUCCESS` without a value; the decoded status for any
/// other code.
pub fn lookup_outcome<T>(raw: i32, value: Option<T>) -> (r: Result<T, PmixStatus>)
    ensures
        raw == 0 && value is Some ==> r == Ok::<T, PmixStatus>(value->0),
        raw == 0 && value is None ==> r == Err::<T, PmixStatus>(
            PmixStatus::Known(PmixError::ErrNotFound),
        ),
        raw != 0 ==> r == Err::<T, PmixStatus>(decode_status(raw as int)),
{
    if raw != 0 {
        Err(PmixStatus::from_raw(raw))
    } else {
        match value {
            Some(v) => Ok(v),
            None => Err(PmixStatus::Known(PmixError::ErrNotFound)),
        }
    }
}

/// Callback trait for `PMIx_server_register_nspace`: receives the status of
/// the non-blocking namespace registration.
pub trait RegisterNspaceCallback: Send {
    fn on_complete(self: Box<Self>, status: PmixStatus);
}

/// Callback trait for `PMIx_server_deregister_nspace`: receives the status
/// of the non-blocking namespace deregistration.
pub trait DeregisterNspaceCallback: Send {
    fn on_complete(self: Box<Self>, status: PmixStatus);
}

/// Callback trait for `PMIx_server_register_client`: receives the status of
/// the non-blocking client registration.
pub trait RegisterClientCallback: Send {
    fn on_complete(self: Box<Self>, status: PmixStatus);
}

/// Callback trait for `PMIx_server_deregister_client`: receives the status
/// of the non-blocking client deregistration.
pub trait DeregisterClientCallback: Send {
    fn on_complete(self: Box<Self>, status: PmixStatus);
}

/// Callback trait for `PMIx_server_dmodex_request`: receives the status and
/// the serialized modex data blob of the requested process (a copy that
/// the callback owns).
pub trait DmodexRequestCallback: Send {
    fn on_complete(self: Box<Self>, status: PmixStatus, blob: Vec<u8>);
}

/// Callback trait for `PMIx_server_setup_application`: receives the status
/// and the resulting info entries (environment variables, resource
/// assignments, credentials, ...) as owned key/value pairs.
pub trait SetupApplicationCallback: Send {
    fn on_complete(self: Box<Self>, status: PmixStatus, info: Vec<(String, String)>);
}

/// Callback trait for `PMIx_server_setup_local_support`: receives the
/// status — success means the server has completed any application-specific
/// operations prior to spawning local clients.
pub trait SetupLocalSupportCallback: Send {
    fn on_complete(self: Box<Self>, status: PmixStatus);
}

/// Callback trait for `PMIx_server_IOF_deliver`: receives the status —
/// success means the server has accepted the data for distribution to its
/// clients.
pub trait IOFDeliverCallback: Send {
    fn on_complete(self: Box<Self>, status: PmixStatus);
}

/// Callback trait for `server_collect_inventory`: called exactly once when
/// the collection finishes, with the status and the collected inventory.
pub trait CollectInventoryCallback: Send + 'static {
    fn on_complete(&self, status: PmixStatus, inventory: CollectInventoryResults);
}

/// Callback trait for `server_deliver_inventory`: receives the status of the
/// delivery.
pub trait DeliverInventoryCallback: Send + 'static {
    fn on_complete(self: Box<Self>, status: PmixStatus);
}

/// Callback trait for `PMIx_server_register_resources`: receives the status
/// of the registration.
pub trait RegisterResourcesCallback: Send {
    fn on_complete(self: Box<Self>, status: PmixStatus);
}

/// Callback trait for `PMIx_server_deregister_resources`: receives the
/// status of the deregistration.
pub trait DeregisterResourcesCallback: Send {
    fn on_complete(self: Box<Self>, status: PmixStatus);
}

/// The inventory collected by `server_collect_inventory`: the number of
/// info entries that PMIx returned.
#[derive(Debug)]
pub struct CollectInventoryResults {
    len: usize,
}

impl CollectInventoryResults {
    /// The number of entries.
    pub closed spec fn count(&self) -> usize {
        self.len
    }

    /// An inventory of `len` entries.
    pub fn with_len(len: usize) -> (r: Self)
        ensures
            r.count() == len,
    {
        CollectInventoryResults { len }
    }

    /// Number of info entries in the inventory.
    pub fn len(&self) -> (n: usize)
        ensures
            n == self.count(),
    {
        self.len
    }

    /// `true` if the inventory is empty.
    pub fn is_empty(&self) -> (b: bool)
        ensures
            b == (self.count() == 0),
    {
        self.len == 0
    }
}

/// Carries the closure that a non-blocking fence, connect or disconnect
/// runs with the completion status.
pub struct FenceNbCallbackWrapper<F> {
    pub callback: F,
}

impl<F: Fn(PmixStatus) + Send + 'static> FenceNbCallbackWrapper<F> {
    /// Wrap a closure.
    pub fn new(f: F) -> (w: Self)
        ensures
            w.callback == f,
    {
        FenceNbCallbackWrapper { callback: f }
    }
}

} // verus!
