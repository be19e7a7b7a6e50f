//! Process identifiers: a namespace and a rank (`pmix_proc_t`).

use vstd::prelude::*;
use vstd::utf8::encode_utf8;
use crate::cstr::{contains_nul, is_c_compatible};
use crate::status::{PmixError, PmixStatus};

verus! {

/// `PMIX_MAX_NSLEN` — the longest namespace, in bytes, that a
/// `pmix_proc_t` can hold (its `nspace` field has room for one more byte,
/// the terminating NUL).
pub const PMIX_MAX_NSLEN: usize = 255;

/// `PMIX_RANK_WILDCARD` — the rank that stands for every process of a
/// namespace.
pub const RANK_WILDCARD: u32 = 4294967294;

/// `PMIX_RANK_UNDEF` — an undefined rank.
pub const RANK_UNDEF: u32 = 4294967295;

/// A process identifier: namespace plus rank.
///
/// # C API
/// `typedef struct { char nspace[PMIX_MAX_NSLEN + 1]; pmix_rank_t rank; } pmix_proc_t;`
#[derive(Debug)]
pub struct Proc {
    nspace: String,
    rank: u32,
}

/// A namespace that a `pmix_proc_t` can hold: no NUL character and at most
/// `PMIX_MAX_NSLEN` bytes of UTF-8.
pub open spec fn is_valid_nspace(s: &str) -> bool {
    is_valid_nspace_text(s@)
}

/// A namespace text with no NUL character whose UTF-8 encoding has at most
/// `PMIX_MAX_NSLEN` bytes.
pub open spec fn is_valid_nspace_text(s: Seq<char>) -> bool {
    is_c_compatible(s) && encode_utf8(s).len() <= PMIX_MAX_NSLEN
}

impl Proc {
    /// A namespace never holds a NUL character and never exceeds
    /// `PMIX_MAX_NSLEN` bytes, so it always fits the `nspace` field of a
    /// `pmix_proc_t`.
    #[verifier::type_invariant]
    closed spec fn nspace_fits(&self) -> bool {
        is_valid_nspace_text(self.nspace@)
    }

    /// The namespace, as text.
    pub closed spec fn nspace_text(&self) -> Seq<char> {
        self.nspace@
    }

    /// The rank.
    pub closed spec fn rank_value(&self) -> u32 {
        self.rank
    }

    /// Build a process identifier.
    ///
    /// # Errors
    /// `PMIX_ERR_BAD_PARAM` when `nspace` contains a NUL character or is
    /// longer than `PMIX_MAX_NSLEN` bytes.
    pub fn new(nspace: &str, rank: u32) -> (r: Result<Proc, PmixStatus>)
        ensures
            r is Ok <==> is_valid_nspace(nspace),
            r matches Ok(p) ==> p.nspace_text() == nspace@ && p.rank_value() == rank,
            r matches Err(e) ==> e == PmixStatus::Known(PmixError::ErrBadParam),
    {
        if nspace.as_bytes().len() > PMIX_MAX_NSLEN || contains_nul(nspace) {
            return Err(PmixStatus::Known(PmixError::ErrBadParam));
        }
        Ok(Proc { nspace: nspace.to_owned(), rank })
    }

    /// Extract the namespace string from this process identifier.
    ///
    /// Returns `None` if the namespace is empty.
    pub fn nspace(&self) -> (r: Option<String>)
        ensures
            self.nspace_text().len() == 0 ==> r is None,
            self.nspace_text().len() != 0 ==> (r matches Some(s) && s@ == self.nspace_text()),
    {
        if self.nspace.as_str().is_empty() {
            None
        } else {
            Some(self.nspace.clone())
        }
    }

    /// A process identifier for rank `rank` in this identifier's namespace.
    pub fn new_with_nspace(&self, rank: u32) -> (r: Result<Proc, PmixStatus>)
        ensures
            r matches Ok(p) && p.nspace_text() == self.nspace_text() && p.rank_value() == rank,
    {
        proof {
            use_type_invariant(self);
        }
        Ok(Proc { nspace: self.nspace.clone(), rank })
    }

    /// Extract the rank from this process identifier.
    pub fn rank(&self) -> (r: u32)
        ensures
            r == self.rank_value(),
    {
        self.rank
    }

    /// The rank (same as [`rank`](Proc::rank)).
    pub fn get_rank(&self) -> (r: u32)
        ensures
            r == self.rank_value(),
    {
        self.rank
    }

    /// Replace the rank, keeping the namespace.
    pub fn set_rank(&mut self, rank: u32)
        ensures
            final(self).rank_value() == rank,
            final(self).nspace_text() == old(self).nspace_text(),
    {
        proof {
            use_type_invariant(&*self);
        }
        self.rank = rank;
    }
}

impl Clone for Proc {
    fn clone(&self) -> (r: Self)
        ensures
            r.nspace_text() == self.nspace_text(),
            r.rank_value() == self.rank_value(),
    {
        proof {
            use_type_invariant(self);
        }
        Proc { nspace: self.nspace.clone(), rank: self.rank }
    }
}

} // verus!
