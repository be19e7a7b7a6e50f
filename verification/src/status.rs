//! PMIx status codes: `pmix_status_t` and the named error constants.

use vstd::prelude::*;

verus! {

/// Named PMIx status constants (`PMIX_SUCCESS`, `PMIX_ERR_*`).
#[derive(Debug, Clone, Copy, PartialEq, Eq, Structural)]
pub enum PmixError {
    /// `PMIX_SUCCESS` (0).
    Success,
    /// `PMIX_ERROR` (-1) — generic error.
    Error,
    /// `PMIX_ERR_EXISTS` (-11).
    ErrExists,
    /// `PMIX_ERR_TIMEOUT` (-24).
    ErrTimeout,
    /// `PMIX_ERR_BAD_PARAM` (-27).
    ErrBadParam,
    /// `PMIX_ERR_INIT` (-31).
    ErrInit,
    /// `PMIX_ERR_NOMEM` (-32).
    ErrNomem,
    /// `PMIX_ERR_NOT_FOUND` (-46).
    ErrNotFound,
    /// `PMIX_ERR_NOT_SUPPORTED` (-47).
    ErrNotSupported,
    /// `PMIX_ERR_PARTIAL_SUCCESS` (-52).
    ErrPartialSuccess,
    /// `PMIX_ERR_PARAM_VALUE_NOT_SUPPORTED` (-59).
    ErrParamValueNotSupported,
    /// `PMIX_ERR_INVALID_OPERATION` (-158).
    ErrInvalidOperation,
}

/// The numeric `pmix_status_t` value of each named constant.
pub open spec fn error_code(e: PmixError) -> int {
    match e {
        PmixError::Success => 0,
        PmixError::Error => -1,
        PmixError::ErrExists => -11,
        PmixError::ErrTimeout => -24,
        PmixError::ErrBadParam => -27,
        PmixError::ErrInit => -31,
        PmixError::ErrNomem => -32,
        PmixError::ErrNotFound => -46,
        PmixError::ErrNotSupported => -47,
        PmixError::ErrPartialSuccess => -52,
        PmixError::ErrParamValueNotSupported => -59,
        PmixError::ErrInvalidOperation => -158,
    }
}

/// `true` when `raw` is the code of one of the named constants.
pub open spec fn is_known_code(raw: int) -> bool {
    exists|e: PmixError| error_code(e) == raw
}

impl PmixError {
    /// The raw `pmix_status_t` value of this constant.
    pub fn code(self) -> (c: i32)
        ensures
            c == error_code(self),
    {
        match self {
            PmixError::Success => 0,
            PmixError::Error => -1,
            PmixError::ErrExists => -11,
            PmixError::ErrTimeout => -24,
            PmixError::ErrBadParam => -27,
            PmixError::ErrInit => -31,
            PmixError::ErrNomem => -32,
            PmixError::ErrNotFound => -46,
            PmixError::ErrNotSupported => -47,
            PmixError::ErrPartialSuccess => -52,
            PmixError::ErrParamValueNotSupported => -59,
            PmixError::ErrInvalidOperation => -158,
        }
    }
}

/// A `pmix_status_t`: either one of the named constants or any other code.
#[derive(Debug, Clone, Copy, PartialEq, Eq, Structural)]
pub enum PmixStatus {
    /// A code that has a name in [`PmixError`].
    Known(PmixError),
    /// A code without a name here.
    Unknown(i32),
}

/// The raw code that a status stands for.
pub open spec fn status_code(s: PmixStatus) -> int {
    match s {
        PmixStatus::Known(e) => error_code(e),
        PmixStatus::Unknown(v) => v as int,
    }
}

/// The status that a raw code decodes to: the named constant when there is
/// one, `Unknown` otherwise.
pub open spec fn decode_status(raw: int) -> PmixStatus {
    if is_known_code(raw) {
        PmixStatus::Known(choose|e: PmixError| error_code(e) == raw)
    } else {
        PmixStatus::Unknown(raw as i32)
    }
}

/// A status is canonical when an `Unknown` never carries a named code.
pub open spec fn is_canonical(s: PmixStatus) -> bool {
    match s {
        PmixStatus::Known(_) => true,
        PmixStatus::Unknown(v) => !is_known_code(v as int),
    }
}

/// Distinct constants have distinct codes.
pub proof fn lemma_error_code_injective(a: PmixError, b: PmixError)
    ensures
        error_code(a) == error_code(b) ==> a == b,
{
}

impl PmixStatus {
    /// Decode a raw `pmix_status_t`.
    pub fn from_raw(raw: i32) -> (s: PmixStatus)
        ensures
            s == decode_status(raw as int),
            status_code(s) == raw,
            is_canonical(s),
    {
        let s = match raw {
            0 => PmixStatus::Known(PmixError::Success),
            -1 => PmixStatus::Known(PmixError::Error),
            -11 => PmixStatus::Known(PmixError::ErrExists),
            -24 => PmixStatus::Known(PmixError::ErrTimeout),
            -27 => PmixStatus::Known(PmixError::ErrBadParam),
            -31 => PmixStatus::Known(PmixError::ErrInit),
            -32 => PmixStatus::Known(PmixError::ErrNomem),
            -46 => PmixStatus::Known(PmixError::ErrNotFound),
            -47 => PmixStatus::Known(PmixError::ErrNotSupported),
            -52 => PmixStatus::Known(PmixError::ErrPartialSuccess),
            -59 => PmixStatus::Known(PmixError::ErrParamValueNotSupported),
            -158 => PmixStatus::Known(PmixError::ErrInvalidOperation),
            other => PmixStatus::Unknown(other),
        };
        proof {
            match s {
                PmixStatus::Known(e) => {
                    assert(error_code(e) == raw);
                    let c = choose|e2: PmixError| error_code(e2) == raw;
                    lemma_error_code_injective(e, c);
                },
                PmixStatus::Unknown(v) => {
                    assert forall|e: PmixError| error_code(e) != raw by {
                        match e {
                            _ => {},
                        }
                    }
                },
            }
        }
        s
    }

    /// The raw `pmix_status_t` value.
    pub fn to_raw(self) -> (r: i32)
        ensures
            r == status_code(self),
    {
        match self {
            PmixStatus::Known(e) => e.code(),
            PmixStatus::Unknown(v) => v,
        }
    }

    /// The named constant, when the code has a name.
    pub fn known(&self) -> (r: Option<PmixError>)
        ensures
            r == (match *self {
                PmixStatus::Known(e) => Some(e),
                PmixStatus::Unknown(_) => None,
            }),
    {
        match *self {
            PmixStatus::Known(e) => Some(e),
            PmixStatus::Unknown(_) => None,
        }
    }

    /// `true` for `PMIX_SUCCESS` and every other non-negative code.
    pub fn is_success(&self) -> (b: bool)
        ensures
            b == (status_code(*self) >= 0),
    {
        self.to_raw() >= 0
    }

    /// `true` for every negative code.
    pub fn is_error(&self) -> (b: bool)
        ensures
            b == (status_code(*self) < 0),
    {
        self.to_raw() < 0
    }
}

/// The outcome of a PMIx call that answers with a status alone: `Ok(())`
/// for a success code, the decoded status as the error otherwise.
pub fn status_to_result(raw: i32) -> (r: Result<(), PmixStatus>)
    ensures
        r is Ok <==> raw >= 0,
        r matches Err(e) ==> e == decode_status(raw as int),
{
    let s = PmixStatus::from_raw(raw);
    if s.is_success() {
        Ok(())
    } else {
        Err(s)
    }
}

/// The outcome of a PMIx call that answers with a status and writes an
/// output (a string, an array): the output on success, the decoded status
/// on failure, and `absent` when PMIx reported success but left the output
/// unset.
pub fn status_with_output<T>(raw: i32, out: Option<T>, absent: PmixError) -> (r: Result<T, PmixStatus>)
    ensures
        raw < 0 ==> r == Err::<T, PmixStatus>(decode_status(raw as int)),
        raw >= 0 && out is None ==> r == Err::<T, PmixStatus>(PmixStatus::Known(absent)),
        raw >= 0 && out is Some ==> r == Ok::<T, PmixStatus>(out->0),
{
    match status_to_result(raw) {
        Err(e) => Err(e),
        Ok(()) => match out {
            Some(v) => Ok(v),
            None => Err(PmixStatus::Known(absent)),
        },
    }
}

/// Check that a request names at least one item (process, application or
/// query): an empty one is refused with `PMIX_ERR_BAD_PARAM`.
pub fn check_nonempty(len: usize) -> (r: Result<(), PmixStatus>)
    ensures
        r is Ok <==> len > 0,
        r matches Err(e) ==> e == PmixStatus::Known(PmixError::ErrBadParam),
{
    if len == 0 {
        Err(PmixStatus::Known(PmixError::ErrBadParam))
    } else {
        Ok(())
    }
}

/// Decoding a code and encoding the result gives the code back.
pub proof fn lemma_status_code_roundtrip(raw: i32)
    ensures
        status_code(decode_status(raw as int)) == raw,
{
    if is_known_code(raw as int) {
        let e = choose|e: PmixError| error_code(e) == raw as int;
    }
}

/// Encoding a canonical status and decoding the code gives the status back.
pub proof fn lemma_status_decode_roundtrip(s: PmixStatus)
    requires
        is_canonical(s),
    ensures
        decode_status(status_code(s)) == s,
{
    match s {
        PmixStatus::Known(e) => {
            assert(is_known_code(error_code(e)));
            let c = choose|c: PmixError| error_code(c) == error_code(e);
            lemma_error_code_injective(c, e);
        },
        PmixStatus::Unknown(v) => {},
    }
}

/// Every named constant has its `pmix_common.h` code, and that code
/// decodes to it.
pub proof fn lemma_error_code_table()
    ensures
        error_code(PmixError::Success) == 0,
        decode_status(0) == PmixStatus::Known(PmixError::Success),
        error_code(PmixError::Error) == -1,
        decode_status(-1) == PmixStatus::Known(PmixError::Error),
        error_code(PmixError::ErrExists) == -11,
        decode_status(-11) == PmixStatus::Known(PmixError::ErrExists),
        error_code(PmixError::ErrTimeout) == -24,
        decode_status(-24) == PmixStatus::Known(PmixError::ErrTimeout),
        error_code(PmixError::ErrBadParam) == -27,
        decode_status(-27) == PmixStatus::Known(PmixError::ErrBadParam),
        error_code(PmixError::ErrInit) == -31,
        decode_status(-31) == PmixStatus::Known(PmixError::ErrInit),
        error_code(PmixError::ErrNomem) == -32,
        decode_status(-32) == PmixStatus::Known(PmixError::ErrNomem),
        error_code(PmixError::ErrNotFound) == -46,
        decode_status(-46) == PmixStatus::Known(PmixError::ErrNotFound),
        error_code(PmixError::ErrNotSupported) == -47,
        decode_status(-47) == PmixStatus::Known(PmixError::ErrNotSupported),
        error_code(PmixError::ErrPartialSuccess) == -52,
        decode_status(-52) == PmixStatus::Known(PmixError::ErrPartialSuccess),
        error_code(PmixError::ErrParamValueNotSupported) == -59,
        decode_status(-59) == PmixStatus::Known(PmixError::ErrParamValueNotSupported),
        error_code(PmixError::ErrInvalidOperation) == -158,
        decode_status(-158) == PmixStatus::Known(PmixError::ErrInvalidOperation),
{
    lemma_status_decode_roundtrip(PmixStatus::Known(PmixError::Success));
    lemma_status_decode_roundtrip(PmixStatus::Known(PmixError::Error));
    lemma_status_decode_roundtrip(PmixStatus::Known(PmixError::ErrExists));
    lemma_status_decode_roundtrip(PmixStatus::Known(PmixError::ErrTimeout));
    lemma_status_decode_roundtrip(PmixStatus::Known(PmixError::ErrBadParam));
    lemma_status_decode_roundtrip(PmixStatus::Known(PmixError::ErrInit));
    lemma_status_decode_roundtrip(PmixStatus::Known(PmixError::ErrNomem));
    lemma_status_decode_roundtrip(PmixStatus::Known(PmixError::ErrNotFound));
    lemma_status_decode_roundtrip(PmixStatus::Known(PmixError::ErrNotSupported));
    lemma_status_decode_roundtrip(PmixStatus::Known(PmixError::ErrPartialSuccess));
    lemma_status_decode_roundtrip(PmixStatus::Known(PmixError::ErrParamValueNotSupported));
    lemma_status_decode_roundtrip(PmixStatus::Known(PmixError::ErrInvalidOperation));
}

/// Every status is either a success or an error, never both.
pub proof fn lemma_success_xor_error(s: PmixStatus)
    ensures
        (status_code(s) >= 0) != (status_code(s) < 0),
{
}

} // verus!
