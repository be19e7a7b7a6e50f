//! Credentials (`PMIx_Get_credential`, `PMIx_Validate_credential`): the
//! opaque credential bytes and the result sets delivered with them.

use vstd::prelude::*;
use crate::status::PmixStatus;

verus! {

/// An opaque credential returned by `get_credential`.
///
/// Stores the credential bytes in a Rust-owned `Vec<u8>`. The bytes are
/// opaque to the caller — they are only meaningful to the security system
/// that issued them.
///
/// # C API
/// `typedef struct { char *bytes; size_t size; } pmix_byte_object_t;`
#[derive(Debug)]
pub struct PmixCredential {
    bytes: Vec<u8>,
}

impl Clone for PmixCredential {
    /// An independent copy holding the same bytes.
    fn clone(&self) -> (r: Self)
        ensures
            r.content() == self.content(),
    {
        PmixCredential { bytes: vstd::slice::slice_to_vec(self.bytes.as_slice()) }
    }
}

impl PmixCredential {
    /// The credential bytes.
    pub closed spec fn content(&self) -> Seq<u8> {
        self.bytes@
    }

    /// Create a credential from the given opaque bytes (copies the data).
    pub fn from_bytes(bytes: &[u8]) -> (c: Self)
        ensures
            c.content() == bytes@,
    {
        PmixCredential { bytes: vstd::slice::slice_to_vec(bytes) }
    }

    /// Create a credential from a `Vec<u8>` (takes ownership).
    pub fn from_vec(bytes: Vec<u8>) -> (c: Self)
        ensures
            c.content() == bytes@,
    {
        PmixCredential { bytes }
    }

    /// Create an empty credential.
    pub fn empty() -> (c: Self)
        ensures
            c.content() == Seq::<u8>::empty(),
    {
        PmixCredential { bytes: Vec::new() }
    }

    /// Get a reference to the raw credential bytes.
    pub fn as_bytes(&self) -> (b: &[u8])
        ensures
            b@ == self.content(),
    {
        self.bytes.as_slice()
    }

    /// `true` if the credential has no bytes.
    pub fn is_empty(&self) -> (b: bool)
        ensures
            b == (self.content().len() == 0),
    {
        self.bytes.len() == 0
    }

    /// Length of the credential in bytes.
    pub fn len(&self) -> (n: usize)
        ensures
            n == self.content().len(),
    {
        self.bytes.len()
    }
}

/// Callback trait for `get_credential_nb`.
///
/// Implement this trait to receive the result of a non-blocking credential
/// request. The `on_complete` method receives the `PmixStatus` and, on
/// success, the [`PmixCredential`] returned by the server, with the info
/// results that came with it.
pub trait CredentialCallback: Send {
    fn on_complete(
        self: Box<Self>,
        status: PmixStatus,
        credential: Option<PmixCredential>,
        results: CredentialResults,
    );
}

/// Results returned by the credential callback: the info entries that came
/// with the credential (e.g. credential metadata, effective user and group
/// ids), each as its key and the text of its value.
pub struct CredentialResults {
    info: Vec<(String, String)>,
    ninfo: usize,
}

impl CredentialResults {
    /// The entries.
    pub closed spec fn entries(&self) -> Seq<(String, String)> {
        self.info@
    }

    /// The number of entries is the length of the entry list.
    #[verifier::type_invariant]
    closed spec fn count_matches(&self) -> bool {
        self.ninfo == self.info@.len()
    }

    /// Results holding the given entries.
    pub fn from_entries(info: Vec<(String, String)>) -> (r: Self)
        ensures
            r.entries() == info@,
    {
        let ninfo = info.len();
        CredentialResults { info, ninfo }
    }

    /// Results with no entries.
    pub fn empty() -> (r: Self)
        ensures
            r.entries() == Seq::<(String, String)>::empty(),
    {
        CredentialResults { info: Vec::new(), ninfo: 0 }
    }

    /// Get the info entries.
    pub fn info(&self) -> (s: &[(String, String)])
        ensures
            s@ == self.entries(),
    {
        self.info.as_slice()
    }

    /// Number of info entries.
    pub fn len(&self) -> (n: usize)
        ensures
            n == self.entries().len(),
    {
        proof {
            use_type_invariant(self);
        }
        self.ninfo
    }

    /// `true` if there are no info entries.
    pub fn is_empty(&self) -> (b: bool)
        ensures
            b == (self.entries().len() == 0),
    {
        proof {
            use_type_invariant(self);
        }
        self.ninfo == 0
    }
}

/// The result set of `validate_credential`: the number of info entries
/// (metadata about the credential holder) that PMIx returned.
#[derive(Debug)]
pub struct ValidationResults {
    len: usize,
}

impl ValidationResults {
    /// The number of entries.
    pub closed spec fn count(&self) -> usize {
        self.len
    }

    /// Create an empty `ValidationResults` with no info entries.
    ///
    /// Useful for testing and as a default value when validation
    /// has not yet been performed.
    pub fn empty() -> (r: Self)
        ensures
            r.count() == 0,
    {
        ValidationResults { len: 0 }
    }

    /// A result set of `len` entries.
    pub fn with_len(len: usize) -> (r: Self)
        ensures
            r.count() == len,
    {
        ValidationResults { len }
    }

    /// Number of info entries in this result set.
    pub fn len(&self) -> (n: usize)
        ensures
            n == self.count(),
    {
        self.len
    }

    /// `true` if the result set is empty.
    pub fn is_empty(&self) -> (b: bool)
        ensures
            b == (self.count() == 0),
    {
        self.len == 0
    }
}

/// Callback trait for `validate_credential_nb`.
///
/// Implement this trait to receive the result of a non-blocking credential
/// validation request. The `on_complete` method receives the `PmixStatus`
/// and, on success, the [`ValidationResults`] with metadata about the
/// credential holder.
pub trait ValidationCallback: Send {
    fn on_complete(self: Box<Self>, status: PmixStatus, results: ValidationResults);
}

} // verus!
