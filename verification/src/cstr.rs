//! Rules for text that crosses into the C API as a NUL-terminated string.

use vstd::prelude::*;
use vstd::string::StringSliceAdditionalSpecFns;
use vstd::utf8::{encode_scalar, encode_utf8};
use crate::status::{PmixError, PmixStatus};

verus! {

/// `true` when the text can be passed as a C string: it holds no NUL
/// character (a C string ends at its first NUL).
pub open spec fn is_c_compatible(s: Seq<char>) -> bool {
    !s.contains('\0')
}

/// Whether `s` contains an interior NUL character, which a C string cannot
/// carry.
pub fn contains_nul(s: &str) -> (b: bool)
    ensures
        b == !is_c_compatible(s@),
{
    let n = s.unicode_len();
    let mut i: usize = 0;
    while i < n
        invariant
            n == s@.len(),
            i <= n,
            forall|k: int| 0 <= k < i ==> s@[k] != '\0',
        decreases n - i,
    {
        if s.get_char(i) == '\0' {
            assert(s@.contains('\0')) by {
                assert(s@[i as int] == '\0');
            }
            return true;
        }
        i = i + 1;
    }
    proof {
        if s@.contains('\0') {
            let k = choose|k: int| 0 <= k < s@.len() && s@[k] == '\0';
            assert(s@[k] != '\0');
        }
    }
    false
}

/// `p` is the position of the first zero byte of `bytes` (where a C string
/// built from them would end).
pub open spec fn is_first_zero_byte(bytes: Seq<u8>, p: int) -> bool {
    &&& 0 <= p < bytes.len()
    &&& bytes[p] == 0
    &&& forall|j: int| 0 <= j < p ==> bytes[j] != 0
}

/// A text that holds a NUL character holds a zero byte in its UTF-8
/// encoding.
pub proof fn lemma_nul_char_encodes_zero_byte(s: Seq<char>)
    requires
        s.contains('\0'),
    ensures
        exists|k: int| 0 <= k < encode_utf8(s).len() && encode_utf8(s)[k] == 0,
    decreases s.len(),
{
    let k = choose|k: int| 0 <= k < s.len() && s[k] == '\0';
    let head = encode_scalar(s[0] as u32);
    let tail = s.drop_first();
    assert(encode_utf8(s) == head + encode_utf8(tail));
    if s[0] == '\0' {
        assert((0u32 & 0x7Fu32) as u8 == 0u8) by (bit_vector);
        assert(head == seq![0u8]);
        assert(encode_utf8(s)[0] == 0);
    } else {
        assert(tail[k - 1] == '\0');
        lemma_nul_char_encodes_zero_byte(tail);
        let j = choose|j: int| 0 <= j < encode_utf8(tail).len() && encode_utf8(tail)[j] == 0;
        assert(encode_utf8(s)[head.len() + j] == 0);
    }
}

/// The byte position of the first NUL byte of a text that holds a NUL
/// character (the position `CString::new` reports).
pub fn first_nul_byte(s: &str) -> (p: usize)
    requires
        !is_c_compatible(s@),
    ensures
        is_first_zero_byte(s.spec_bytes(), p as int),
{
    proof {
        lemma_nul_char_encodes_zero_byte(s@);
    }
    let bytes = s.as_bytes();
    let mut i: usize = 0;
    while i < bytes.len()
        invariant
            bytes@ == s.spec_bytes(),
            bytes@ == encode_utf8(s@),
            exists|k: int| 0 <= k < bytes@.len() && bytes@[k] == 0,
            i <= bytes@.len(),
            forall|j: int| 0 <= j < i ==> bytes@[j] != 0,
        decreases bytes@.len() - i,
    {
        if bytes[i] == 0 {
            return i;
        }
        i = i + 1;
    }
    proof {
        let k = choose|k: int| 0 <= k < bytes@.len() && bytes@[k] == 0;
        assert(bytes@[k] != 0);
    }
    0
}

/// Check a text before it is handed to PMIx as a C string: one with a NUL
/// character is refused with `PMIX_ERROR`.
pub fn check_c_string(s: &str) -> (r: Result<(), PmixStatus>)
    ensures
        r is Ok <==> is_c_compatible(s@),
        r matches Err(e) ==> e == PmixStatus::Known(PmixError::Error),
{
    if contains_nul(s) {
        Err(PmixStatus::Known(PmixError::Error))
    } else {
        Ok(())
    }
}

/// Check each text of a list that is to become a C string array: a list
/// with a NUL character in any text is refused with `PMIX_ERROR`.
pub fn check_c_strings(items: &[&str]) -> (r: Result<(), PmixStatus>)
    ensures
        r is Ok <==> forall|i: int| 0 <= i < items@.len() ==> is_c_compatible(#[trigger] items@[i]@),
        r matches Err(e) ==> e == PmixStatus::Known(PmixError::Error),
{
    let mut i: usize = 0;
    while i < items.len()
        invariant
            i <= items@.len(),
            forall|j: int| 0 <= j < i ==> is_c_compatible(#[trigger] items@[j]@),
        decreases items@.len() - i,
    {
        if contains_nul(items[i]) {
            return Err(PmixStatus::Known(PmixError::Error));
        }
        i = i + 1;
    }
    Ok(())
}

/// `PMIX_MAX_KEYLEN` — the longest key, in bytes, that a fixed-size key
/// field holds (the field has room for one more byte, the terminating NUL).
pub const PMIX_MAX_KEYLEN: usize = 511;

/// The bytes of `key` that a fixed-size key field receives: the first
/// `PMIX_MAX_KEYLEN` bytes of its UTF-8 encoding, or all of them when it is
/// shorter; the terminating NUL follows them in the field.
pub open spec fn key_field_content(key: Seq<u8>) -> Seq<u8> {
    if key.len() <= PMIX_MAX_KEYLEN {
        key
    } else {
        key.take(PMIX_MAX_KEYLEN as int)
    }
}

/// The bytes of a key to copy into a fixed-size key field, truncated to
/// `PMIX_MAX_KEYLEN`.
pub fn key_field_bytes(key: &str) -> (r: Vec<u8>)
    ensures
        r@ == key_field_content(key.spec_bytes()),
{
    let bytes = key.as_bytes();
    let n: usize = if bytes.len() <= PMIX_MAX_KEYLEN {
        bytes.len()
    } else {
        PMIX_MAX_KEYLEN
    };
    let mut out: Vec<u8> = Vec::new();
    let mut i: usize = 0;
    while i < n
        invariant
            n <= bytes@.len(),
            bytes@ == key.spec_bytes(),
            n == (if bytes@.len() <= PMIX_MAX_KEYLEN { bytes@.len() } else { PMIX_MAX_KEYLEN as nat }),
            i <= n,
            out@ == bytes@.take(i as int),
        decreases n - i,
    {
        out.push(bytes[i]);
        proof {
            assert(bytes@.take(i as int).push(bytes@[i as int]) =~= bytes@.take(i + 1));
        }
        i = i + 1;
    }
    proof {
        if bytes@.len() <= PMIX_MAX_KEYLEN {
            assert(bytes@.take(n as int) =~= bytes@);
        }
    }
    out
}

} // verus!
