use vstd::prelude::*;
use vstd::utf8::{valid_utf8, decode_utf8, encode_utf8};
use vstd::string::StrSliceExecFns;
use crate::error::{Error, TEXT_DECODE_FAILURE, INPUT_ENCODING_FAILURE};

verus! {

/// Position of the first terminator at or after `i` in `buf`, or its length
/// when none follows.
pub open spec fn terminator_from(buf: Seq<u8>, i: int) -> int
    decreases buf.len() - i,
{
    if i >= buf.len() || buf[i] == 0 {
        i
    } else {
        terminator_from(buf, i + 1)
    }
}

/// The text of a null-terminated buffer: its bytes before the first
/// terminator, or all of them when it holds none.
pub open spec fn c_text(buf: Seq<u8>) -> Seq<u8> {
    buf.subrange(0, terminator_from(buf, 0))
}

/// Whether `buf` holds a terminator within its capacity.
pub open spec fn is_terminated(buf: Seq<u8>) -> bool {
    terminator_from(buf, 0) < buf.len()
}

/// How a buffer decodes: the characters of its null-terminated text when the
/// buffer holds a terminator and that text is well-formed UTF-8, nothing
/// otherwise.
pub open spec fn decoded_text(buf: Seq<u8>) -> Option<Seq<char>> {
    if is_terminated(buf) && valid_utf8(c_text(buf)) {
        Some(decode_utf8(c_text(buf)))
    } else {
        None
    }
}

/// Whether `r` is the outcome of decoding `buf`.
pub open spec fn decode_result(buf: Seq<u8>, r: Result<String, Error>) -> bool {
    match decoded_text(buf) {
        Some(chars) => r matches Ok(s) && s@ == chars,
        None => r matches Err(e) && e@ == TEXT_DECODE_FAILURE,
    }
}

proof fn lemma_terminator_from(buf: Seq<u8>, i: int)
    requires
        0 <= i <= buf.len(),
    ensures
        i <= terminator_from(buf, i) <= buf.len(),
        forall|j: int| i <= j < terminator_from(buf, i) ==> buf[j] != 0,
        terminator_from(buf, i) < buf.len() ==> buf[terminator_from(buf, i)] == 0,
    decreases buf.len() - i,
{
    if i < buf.len() && buf[i] != 0 {
        lemma_terminator_from(buf, i + 1);
    }
}

/// The text of a buffer is the prefix that holds no terminator and that is
/// followed by one, unless it fills the whole buffer.
pub proof fn lemma_c_text_is_terminated_prefix(buf: Seq<u8>)
    ensures
        c_text(buf).len() <= buf.len(),
        c_text(buf) =~= buf.subrange(0, c_text(buf).len() as int),
        forall|j: int| 0 <= j < c_text(buf).len() ==> c_text(buf)[j] != 0,
        c_text(buf).len() < buf.len() ==> buf[c_text(buf).len() as int] == 0,
{
    lemma_terminator_from(buf, 0);
}

/// Relies on `String::from_utf8`: it accepts exactly the well-formed UTF-8
/// byte sequences and then holds the characters they encode.
#[verifier::external_body]
fn utf8_to_string(bytes: Vec<u8>) -> (r: Option<String>)
    ensures
        r is Some <==> valid_utf8(bytes@),
        r matches Some(s) ==> s@ == decode_utf8(bytes@),
{
    String::from_utf8(bytes).ok()
}

/// The bytes of `buf` before its first terminator, or all of them.
pub fn c_text_bytes(buf: &[u8]) -> (r: Vec<u8>)
    ensures
        r@ == c_text(buf@),
{
    let mut text: Vec<u8> = Vec::new();
    let mut i: usize = 0;
    while i < buf.len() && buf[i] != 0
        invariant
            0 <= i <= buf.len(),
            terminator_from(buf@, i as int) == terminator_from(buf@, 0),
            text@ =~= buf@.subrange(0, i as int),
        decreases buf.len() - i,
    {
        text.push(buf[i]);
        i = i + 1;
    }
    text
}

/// Decodes a null-terminated native text buffer; a buffer without a
/// terminator, or text that is not well-formed UTF-8, is an error.
pub fn decode_c_text(buf: &[u8]) -> (r: Result<String, Error>)
    ensures
        decode_result(buf@, r),
{
    let text = c_text_bytes(buf);
    proof {
        lemma_terminator_from(buf@, 0);
    }
    if text.len() == buf.len() {
        return Err(Error::new(TEXT_DECODE_FAILURE));
    }
    match utf8_to_string(text) {
        Some(s) => Ok(s),
        None => Err(Error::new(TEXT_DECODE_FAILURE)),
    }
}

/// The native form of a string: its UTF-8 bytes and a terminator, provided
/// none of its bytes is already a terminator.
pub open spec fn native_text(s: Seq<char>) -> Option<Seq<u8>> {
    if encode_utf8(s).contains(0u8) {
        None
    } else {
        Some(encode_utf8(s).push(0u8))
    }
}

/// Encodes a string as a null-terminated byte string; a string holding a
/// terminator of its own has no such form and is an error.
pub fn encode_c_text(s: &str) -> (r: Result<Vec<u8>, Error>)
    ensures
        match native_text(s@) {
            Some(bytes) => r matches Ok(v) && v@ == bytes,
            None => r matches Err(e) && e@ == INPUT_ENCODING_FAILURE,
        },
{
    let mut bytes = s.as_bytes_vec();
    let mut i: usize = 0;
    while i < bytes.len()
        invariant
            0 <= i <= bytes.len(),
            bytes@ == encode_utf8(s@),
            forall|j: int| 0 <= j < i ==> bytes@[j] != 0,
        decreases bytes.len() - i,
    {
        if bytes[i] == 0 {
            assert(bytes@[i as int] == 0u8);
            return Err(Error::new(INPUT_ENCODING_FAILURE));
        }
        i = i + 1;
    }
    assert(!encode_utf8(s@).contains(0u8));
    bytes.push(0);
    Ok(bytes)
}

} // verus!
