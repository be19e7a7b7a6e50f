//! Query and log operations (`PMIx_Query_info`, `PMIx_Log`): the validated
//! key list of a query, the result set of a query, and the callback traits
//! of the non-blocking forms.

use vstd::prelude::*;
use crate::cstr::{contains_nul, is_c_compatible};
use crate::status::{PmixError, PmixStatus};

verus! {

/// A single PMIx query request: one or more key names to request from the
/// PMIx server (e.g. `"pmix.version"`).
///
/// # C API
/// `typedef struct pmix_query { char **keys; pmix_info_t *qualifiers; size_t nqual; } pmix_query_t;`
#[derive(Debug)]
pub struct PmixQuery {
    keys: Vec<String>,
}

/// A key list that a query accepts: at least one key, none holding a NUL.
pub open spec fn is_valid_key_list(keys: Seq<&str>) -> bool {
    keys.len() > 0 && forall|i: int| 0 <= i < keys.len() ==> is_c_compatible(#[trigger] keys[i]@)
}

impl PmixQuery {
    /// The requested keys, in order.
    pub closed spec fn key_texts(&self) -> Seq<Seq<char>> {
        self.keys@.map_values(|k: String| k@)
    }

    /// Create a new query requesting the given key(s).
    ///
    /// # Errors
    /// `PMIX_ERR_BAD_PARAM` if `keys` is empty or any key contains an
    /// interior NUL byte.
    pub fn new(keys: &[&str]) -> (r: Result<Self, PmixStatus>)
        ensures
            r is Ok <==> is_valid_key_list(keys@),
            r matches Ok(q) ==> q.key_texts() == keys@.map_values(|k: &str| k@),
            r matches Err(e) ==> e == PmixStatus::Known(PmixError::ErrBadParam),
    {
        if keys.len() == 0 {
            return Err(PmixStatus::Known(PmixError::ErrBadParam));
        }
        let mut owned: Vec<String> = Vec::new();
        let mut i: usize = 0;
        while i < keys.len()
            invariant
                i <= keys@.len(),
                owned@.len() == i,
                forall|j: int| 0 <= j < i ==> #[trigger] owned@[j]@ == keys@[j]@,
                forall|j: int| 0 <= j < i ==> is_c_compatible(#[trigger] keys@[j]@),
            decreases keys@.len() - i,
        {
            let k = keys[i];
            if contains_nul(k) {
                assert(!is_valid_key_list(keys@)) by {
                    assert(!is_c_compatible(keys@[i as int]@));
                }
                return Err(PmixStatus::Known(PmixError::ErrBadParam));
            }
            owned.push(k.to_owned());
            i = i + 1;
        }
        let q = PmixQuery { keys: owned };
        assert(q.key_texts() =~= keys@.map_values(|k: &str| k@));
        Ok(q)
    }

    /// The requested keys.
    pub fn keys(&self) -> (k: &[String])
        ensures
            k@.map_values(|s: String| s@) == self.key_texts(),
    {
        self.keys.as_slice()
    }
}

/// Owned result set from `query_info`: the number of info entries that the
/// server returned.
#[derive(Debug)]
pub struct QueryResults {
    len: usize,
}

impl QueryResults {
    /// The number of entries.
    pub closed spec fn count(&self) -> usize {
        self.len
    }

    /// A result set of `len` entries.
    pub fn with_len(len: usize) -> (r: Self)
        ensures
            r.count() == len,
    {
        QueryResults { len }
    }

    /// Number of info entries in this result set.
    pub fn len(&self) -> (n: usize)
        ensures
            n == self.count(),
    {
        self.len
    }

    /// `true` if the result set is empty.
    pub fn is_empty(&self) -> (b: bool)
        ensures
            b == (self.count() == 0),
    {
        self.len == 0
    }
}

/// Callback trait for `query_info_nb`: receives the status and the result
/// set of the query.
pub trait QueryCallback: Send {
    fn on_complete(self: Box<Self>, status: PmixStatus, results: QueryResults);
}

/// Callback trait for `log_data_nb`: receives the status of the log
/// request.
pub trait LogCallback: Send {
    fn on_complete(self: Box<Self>, status: PmixStatus);
}

} // verus!
