//! Verified core of a PMIx binding: status codes, enumeration and flag
//! types, process identifiers, credentials, pending-callback registries for
//! non-blocking requests, and the lifecycle decisions of the server and tool
//! sessions.

pub mod cstr;
pub mod info_text;
pub mod process_mgmt;
pub mod proc_id;
pub mod query_log;
pub mod registry;
pub mod security;
pub mod server;
pub mod session;
pub mod status;
pub mod text;
pub mod threading;
pub mod tool;
pub mod type_laws;
pub mod types;

pub use proc_id::{Proc, PMIX_MAX_NSLEN, RANK_UNDEF, RANK_WILDCARD};
pub use status::{PmixError, PmixStatus};
pub use types::{
    IOFChannelFlags, PmixAllocDirective, PmixDataRange, PmixDataType, PmixDeviceType,
    PmixJobState, PmixLinkState, PmixPersistence, PmixProcState, PmixScope,
};
