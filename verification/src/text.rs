//! Byte-level text utilities.
//!
//! The native boundary deals in null-terminated byte strings and raw
//! byte buffers; this module holds the checks and conversions around
//! that: embedded-null detection, truncation of a null-padded buffer at
//! its terminator, and UTF-8 decoding.

use vstd::prelude::*;
use vstd::utf8::{
    decode_first_scalar, decode_utf8, is_leading_byte_width_1, is_leading_byte_width_2,
    is_leading_byte_width_3, length_of_first_scalar, partial_valid_utf8,
    partial_valid_utf8_extend_ascii_block, pop_first_scalar, valid_first_scalar, valid_utf8,
    valid_utf8_concat,
};
use vstd::utf8::encode_utf8;

verus! {

/// True when the byte sequence holds an embedded null byte, so that it
/// cannot cross the native boundary as a null-terminated string.
pub open spec fn contains_null(bytes: Seq<u8>) -> bool {
    exists|i: int| 0 <= i < bytes.len() && bytes[i] == 0
}

/// Scan text for an embedded null byte.
pub fn str_has_null(text: &str) -> (r: bool)
    ensures
        r == contains_null(encode_utf8(text@)),
{
    let bytes: &[u8] = text.as_bytes();
    let n: usize = bytes.len();
    let mut i: usize = 0;
    while i < n
        invariant
            n == bytes@.len(),
            bytes@ == encode_utf8(text@),
            0 <= i <= n,
            forall|j: int| 0 <= j < i ==> bytes@[j] != 0,
        decreases n - i,
    {
        if bytes[i] == 0 {
            return true;
        }
        i = i + 1;
    }
    false
}

/// The index of the first null byte, or the length when there is none.
pub open spec fn null_scan(bytes: Seq<u8>, from: int) -> int
    decreases bytes.len() - from,
{
    if from < 0 || from >= bytes.len() {
        bytes.len() as int
    } else if bytes[from] == 0 {
        from
    } else {
        null_scan(bytes, from + 1)
    }
}

/// The longest null-free prefix: what a native caller reads of a
/// null-terminated buffer.
pub open spec fn null_free_prefix(bytes: Seq<u8>) -> Seq<u8> {
    bytes.take(null_scan(bytes, 0))
}

proof fn lemma_null_scan_from(bytes: Seq<u8>, from: int)
    requires
        0 <= from <= bytes.len(),
        forall|j: int| 0 <= j < from ==> bytes[j] != 0,
    ensures
        null_scan(bytes, 0) == null_scan(bytes, from),
    decreases from,
{
    if from > 0 {
        lemma_null_scan_from(bytes, from - 1);
    }
}

/// Cut a null-padded buffer back to the bytes before its terminator,
/// the same reading a native caller gives it.
///
/// Everything from the first null byte on — or nothing, if there is
/// none — is discarded.
pub fn prefix_to_null(bytes: Vec<u8>) -> (r: Vec<u8>)
    ensures
        r@ == null_free_prefix(bytes@),
{
    let mut out = bytes;
    let n: usize = out.len();
    let mut i: usize = 0;
    while i < n
        invariant
            out@ == bytes@,
            n == out@.len(),
            0 <= i <= n,
            forall|j: int| 0 <= j < i ==> out@[j] != 0,
        decreases n - i,
    {
        if out[i] == 0 {
            proof {
                lemma_null_scan_from(bytes@, i as int);
            }
            out.truncate(i);
            assert(out@ =~= null_free_prefix(bytes@));
            return out;
        }
        i = i + 1;
    }
    proof {
        lemma_null_scan_from(bytes@, n as int);
    }
    assert(out@ =~= null_free_prefix(bytes@));
    out
}

/// A byte sequence whose bytes all stay below `0x80` is valid UTF-8: each
/// byte is a complete one-byte encoding.
pub proof fn lemma_ascii_valid_utf8(bytes: Seq<u8>)
    requires
        forall|i: int| 0 <= i < bytes.len() ==> bytes[i] < 0x80,
    ensures
        valid_utf8(bytes),
{
    assert forall|i: int| 0 <= i < bytes.len() implies #[trigger] is_leading_byte_width_1(
        bytes[i],
    ) by {}
    assert(bytes.subrange(0, 0) =~= Seq::<u8>::empty());
    assert(partial_valid_utf8(bytes, 0));
    partial_valid_utf8_extend_ascii_block(bytes, 0, bytes.len() as int);
    assert(bytes.subrange(0, bytes.len() as int) =~= bytes);
}

proof fn lemma_first_scalar_concat(b1: Seq<u8>, b2: Seq<u8>)
    requires
        valid_first_scalar(b1),
    ensures
        valid_first_scalar(b1 + b2),
        length_of_first_scalar(b1 + b2) == length_of_first_scalar(b1),
        decode_first_scalar(b1 + b2) == decode_first_scalar(b1),
        pop_first_scalar(b1 + b2) =~= pop_first_scalar(b1) + b2,
{
    assert((b1 + b2)[0] == b1[0]);
    if is_leading_byte_width_1(b1[0]) {
    } else if is_leading_byte_width_2(b1[0]) {
        assert((b1 + b2)[1] == b1[1]);
    } else if is_leading_byte_width_3(b1[0]) {
        assert((b1 + b2)[1] == b1[1]);
        assert((b1 + b2)[2] == b1[2]);
    } else {
        assert((b1 + b2)[1] == b1[1]);
        assert((b1 + b2)[2] == b1[2]);
        assert((b1 + b2)[3] == b1[3]);
    }
}

/// Decoding distributes over concatenation: two valid UTF-8 byte
/// sequences decode, joined, to the join of their decodings.
pub proof fn lemma_decode_concat(b1: Seq<u8>, b2: Seq<u8>)
    requires
        valid_utf8(b1),
        valid_utf8(b2),
    ensures
        valid_utf8(b1 + b2),
        decode_utf8(b1 + b2) == decode_utf8(b1) + decode_utf8(b2),
    decreases b1.len(),
{
    valid_utf8_concat(b1, b2);
    if b1.len() == 0 {
        assert(b1 + b2 =~= b2);
        assert(decode_utf8(b1 + b2) =~= decode_utf8(b1) + decode_utf8(b2));
    } else {
        lemma_first_scalar_concat(b1, b2);
        let rest = pop_first_scalar(b1);
        assert(length_of_first_scalar(b1) >= 1);
        lemma_decode_concat(rest, b2);
        assert(pop_first_scalar(b1 + b2) =~= rest + b2);
        assert(decode_utf8(b1 + b2) =~= decode_utf8(b1) + decode_utf8(b2));
    }
}

/// Relies on `String::from_utf8`: it succeeds exactly on input that is
/// valid UTF-8, and then returns the string those bytes encode.
#[verifier::external_body]
pub(crate) fn string_from_utf8(bytes: Vec<u8>) -> (r: Option<String>)
    ensures
        r is Some <==> valid_utf8(bytes@),
        r matches Some(s) ==> s@ == decode_utf8(bytes@),
{
    String::from_utf8(bytes).ok()
}

} // verus!
