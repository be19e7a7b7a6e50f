//! The text of an info entry's value, as the library reports it to
//! callbacks that receive `(key, value)` pairs.

use vstd::prelude::*;
use crate::text::{decimal_digits, push_decimal, push_signed_decimal, signed_decimal};
use crate::types::PmixDataType;

verus! {

/// The member of a `pmix_value_t`'s data union that holds a value of a
/// given `pmix_data_type_t`, for the types whose value is rendered as text.
#[derive(Debug, Clone, Copy, PartialEq, Eq, Structural)]
pub enum ValueField {
    /// `PMIX_STRING`: the `string` member.
    Text,
    /// `PMIX_BOOL`: the `flag` member.
    Flag,
    /// `PMIX_PID`: the `pid` member.
    Pid,
    /// `PMIX_INT`: the `integer` member.
    Int,
    /// `PMIX_INT8`: the `int8` member.
    Int8,
    /// `PMIX_INT16`: the `int16` member.
    Int16,
    /// `PMIX_INT32`: the `int32` member.
    Int32,
    /// `PMIX_INT64`: the `int64` member.
    Int64,
    /// `PMIX_STATUS`: the `status` member.
    Status,
    /// `PMIX_SIZE`: the `size` member.
    Size,
    /// `PMIX_UINT`: the `uint` member.
    Uint,
    /// `PMIX_UINT8`: the `uint8` member.
    Uint8,
    /// `PMIX_UINT16`: the `uint16` member.
    Uint16,
    /// `PMIX_UINT32`: the `uint32` member.
    Uint32,
    /// `PMIX_UINT64`: the `uint64` member.
    Uint64,
    /// `PMIX_PROC_RANK`: the `rank` member.
    Rank,
    /// `PMIX_FLOAT`: the `fval` member.
    Float,
    /// `PMIX_DOUBLE`: the `dval` member.
    Double,
    /// Any other type, by its code: rendered as `[type=N] `.
    Other(u16),
}

/// The union member that a value of type code `dtype` is read from.
pub open spec fn field_of(dtype: u16) -> ValueField {
    if dtype == 3 {
        ValueField::Text
    } else if dtype == 1 {
        ValueField::Flag
    } else if dtype == 5 {
        ValueField::Pid
    } else if dtype == 6 {
        ValueField::Int
    } else if dtype == 7 {
        ValueField::Int8
    } else if dtype == 8 {
        ValueField::Int16
    } else if dtype == 9 {
        ValueField::Int32
    } else if dtype == 10 {
        ValueField::Int64
    } else if dtype == 20 {
        ValueField::Status
    } else if dtype == 4 {
        ValueField::Size
    } else if dtype == 11 {
        ValueField::Uint
    } else if dtype == 12 {
        ValueField::Uint8
    } else if dtype == 13 {
        ValueField::Uint16
    } else if dtype == 14 {
        ValueField::Uint32
    } else if dtype == 15 {
        ValueField::Uint64
    } else if dtype == 31 {
        ValueField::Rank
    } else if dtype == 16 {
        ValueField::Float
    } else if dtype == 17 {
        ValueField::Double
    } else {
        ValueField::Other(dtype)
    }
}

/// Classify a `pmix_data_type_t` code by the union member its value is
/// read from.
pub fn value_field(dtype: u16) -> (f: ValueField)
    ensures
        f == field_of(dtype),
{
    match dtype {
        3 => ValueField::Text,
        1 => ValueField::Flag,
        5 => ValueField::Pid,
        6 => ValueField::Int,
        7 => ValueField::Int8,
        8 => ValueField::Int16,
        9 => ValueField::Int32,
        10 => ValueField::Int64,
        20 => ValueField::Status,
        4 => ValueField::Size,
        11 => ValueField::Uint,
        12 => ValueField::Uint8,
        13 => ValueField::Uint16,
        14 => ValueField::Uint32,
        15 => ValueField::Uint64,
        31 => ValueField::Rank,
        16 => ValueField::Float,
        17 => ValueField::Double,
        other => ValueField::Other(other),
    }
}

/// The union member whose C type is the C type of data type `t`: the
/// `char *` member for strings, `bool` for booleans, `pid_t` for process
/// ids, and for each integer type the member of the same width and
/// signedness. `code` is the raw code, kept by `Other` for the types that
/// have no such member.
pub open spec fn member_of_type(t: PmixDataType, code: u16) -> ValueField {
    match t {
        PmixDataType::String => ValueField::Text,
        PmixDataType::Bool => ValueField::Flag,
        PmixDataType::Pid => ValueField::Pid,
        PmixDataType::Int => ValueField::Int,
        PmixDataType::Int8 => ValueField::Int8,
        PmixDataType::Int16 => ValueField::Int16,
        PmixDataType::Int32 => ValueField::Int32,
        PmixDataType::Int64 => ValueField::Int64,
        PmixDataType::Status => ValueField::Status,
        PmixDataType::Size => ValueField::Size,
        PmixDataType::Uint => ValueField::Uint,
        PmixDataType::Uint8 => ValueField::Uint8,
        PmixDataType::Uint16 => ValueField::Uint16,
        PmixDataType::Uint32 => ValueField::Uint32,
        PmixDataType::Uint64 => ValueField::Uint64,
        PmixDataType::Float => ValueField::Float,
        PmixDataType::Double => ValueField::Double,
        _ => ValueField::Other(code),
    }
}

/// Every value is read from the member whose C type is its data type's C
/// type, the data type being what the code decodes to: a 32-bit unsigned
/// value from the 32-bit unsigned member, and so on. The one exception is
/// code 31, which is read from the `pmix_rank_t` member.
pub proof fn lemma_value_field_matches_data_type(dtype: u16)
    ensures
        dtype != 31 ==> field_of(dtype) == member_of_type(PmixDataType::decoded(dtype), dtype),
        field_of(31) == ValueField::Rank,
{
}

/// The value of an info entry as read from a `pmix_value_t`, for the value
/// types whose text the library renders.
#[derive(Debug, Clone, PartialEq, Eq)]
pub enum InfoValue {
    /// `PMIX_STRING` (a null string reads as the empty text).
    Text(String),
    /// A signed integer type (`PMIX_INT`, `PMIX_INT8` to `PMIX_INT64`,
    /// `PMIX_PID`, `PMIX_STATUS`).
    Signed(i64),
    /// An unsigned integer type (`PMIX_UINT`, `PMIX_SIZE`, `PMIX_UINT8` to
    /// `PMIX_UINT64`, `PMIX_PROC_RANK`).
    Unsigned(u64),
    /// `PMIX_BOOL`.
    Flag(bool),
    /// Any other value type, by its `pmix_data_type_t` code.
    Other(u16),
}

/// The text of a value: the string itself, an integer in decimal, `true`
/// or `false`, and `[type=N] ` for a type without a rendering.
pub open spec fn value_text(v: InfoValue) -> Seq<char> {
    match v {
        InfoValue::Text(s) => s@,
        InfoValue::Signed(n) => signed_decimal(n as int),
        InfoValue::Unsigned(n) => decimal_digits(n as nat),
        InfoValue::Flag(b) => if b { "true"@ } else { "false"@ },
        InfoValue::Other(t) => "[type="@ + decimal_digits(t as nat) + "] "@,
    }
}

/// Render the value of an info entry as text.
pub fn info_value_text(v: &InfoValue) -> (r: String)
    ensures
        r@ == value_text(*v),
{
    match v {
        InfoValue::Text(s) => s.clone(),
        InfoValue::Signed(n) => {
            let mut out = String::new();
            push_signed_decimal(&mut out, *n);
            out
        },
        InfoValue::Unsigned(n) => {
            let mut out = String::new();
            push_decimal(&mut out, *n);
            out
        },
        InfoValue::Flag(b) => {
            proof {
                reveal_strlit("true");
                reveal_strlit("false");
            }
            if *b {
                "true".to_string()
            } else {
                "false".to_string()
            }
        },
        InfoValue::Other(t) => {
            let mut out = String::new();
            out.append("[type=");
            push_decimal(&mut out, *t as u64);
            out.append("] ");
            out
        },
    }
}

} // verus!
