//! From a filled C-string buffer to owned text.
//!
//! The pasteboard's text object writes itself into a byte buffer as UTF-8
//! followed by a NUL terminator. This module sizes that buffer, finds where
//! the text in it ends, and decodes it.
use vstd::prelude::*;
use vstd::slice::*;
use vstd::utf8::*;
use crate::error::ClipboardError;

verus! {

/// True when the C string held in `bytes` ends at index `n`: no byte before
/// `n` is NUL, and `n` is either the index of a NUL or the end of `bytes`.
pub open spec fn ends_at(bytes: Seq<u8>, n: int) -> bool {
    &&& 0 <= n <= bytes.len()
    &&& forall|i: int| 0 <= i < n ==> bytes[i] != 0
    &&& n < bytes.len() ==> bytes[n] == 0
}

/// The number of bytes before the first NUL in `bytes`, or the length of
/// `bytes` where it holds no NUL.
pub open spec fn terminated_len(bytes: Seq<u8>) -> int
    decreases bytes.len(),
{
    if bytes.len() == 0 || bytes[0] == 0 {
        0
    } else {
        1 + terminated_len(bytes.drop_first())
    }
}

/// The text bytes of a buffer: everything before the terminator.
pub open spec fn payload(bytes: Seq<u8>) -> Seq<u8> {
    bytes.subrange(0, terminated_len(bytes))
}

/// `terminated_len` is the one index at which the C string ends.
pub proof fn lemma_terminated_len_ends(bytes: Seq<u8>)
    ensures
        ends_at(bytes, terminated_len(bytes)),
    decreases bytes.len(),
{
    if bytes.len() == 0 || bytes[0] == 0 {
    } else {
        let rest = bytes.drop_first();
        lemma_terminated_len_ends(rest);
        let n = terminated_len(bytes);
        assert forall|i: int| 0 <= i < n implies bytes[i] != 0 by {
            if i > 0 {
                assert(bytes[i] == rest[i - 1]);
            }
        }
        if n < bytes.len() {
            assert(bytes[n] == rest[n - 1]);
        }
    }
}

/// Any index at which the C string ends is `terminated_len`.
pub proof fn lemma_ends_at_unique(bytes: Seq<u8>, n: int)
    requires
        ends_at(bytes, n),
    ensures
        n == terminated_len(bytes),
{
    lemma_terminated_len_ends(bytes);
    let m = terminated_len(bytes);
    if n < m {
        assert(bytes[n] != 0);
    } else if m < n {
        assert(bytes[m] != 0);
    }
}

/// The buffer size for a text of `payload_len` UTF-8 bytes: one byte more,
/// for the terminator. `None` where that size is not a `usize`.
pub open spec fn capacity_for(payload_len: usize) -> Option<usize> {
    if payload_len < usize::MAX {
        Some((payload_len + 1) as usize)
    } else {
        None
    }
}

/// Computes [`capacity_for`].
pub fn buffer_capacity(payload_len: usize) -> (capacity: Option<usize>)
    ensures
        capacity == capacity_for(payload_len),
{
    payload_len.checked_add(1)
}

/// Finds the end of the C string in `buffer`.
pub fn payload_len(buffer: &[u8]) -> (n: usize)
    ensures
        n == terminated_len(buffer@),
        n <= buffer@.len(),
{
    let mut i: usize = 0;
    while i < buffer.len() && buffer[i] != 0
        invariant
            i <= buffer@.len(),
            forall|k: int| 0 <= k < i ==> buffer@[k] != 0,
        decreases buffer@.len() - i,
    {
        i += 1;
    }
    proof {
        lemma_ends_at_unique(buffer@, i as int);
    }
    i
}

/// What `String::from_utf8_lossy` makes of bytes that are not valid UTF-8:
/// the text in which each ill-formed part is replaced by U+FFFD.
pub uninterp spec fn lossy_text(bytes: Seq<u8>) -> Seq<char>;

/// The text that `bytes` stand for. Valid UTF-8 is decoded as it is; in
/// anything else the ill-formed parts are replaced and the rest kept, so
/// that a damaged text is still read.
pub open spec fn decoded_text(bytes: Seq<u8>) -> Seq<char> {
    if valid_utf8(bytes) {
        decode_utf8(bytes)
    } else {
        lossy_text(bytes)
    }
}

/// Calls `String::from_utf8_lossy` and takes ownership of what it returns.
/// Trusted: valid UTF-8 comes back as the text it encodes, and any other
/// input as the replacement text that the standard library documents.
#[verifier::external_body]
fn decode_lossy(bytes: &[u8]) -> (text: String)
    ensures
        valid_utf8(bytes@) ==> text@ == decode_utf8(bytes@),
        !valid_utf8(bytes@) ==> text@ == lossy_text(bytes@),
{
    String::from_utf8_lossy(bytes).into_owned()
}

/// The outcome of transcoding: the decoded payload where the text object
/// filled the buffer, `EncodingConversionFailed` where it reported failure.
pub open spec fn transcoded(filled: bool, buffer: Seq<u8>) -> Result<Seq<char>, ClipboardError> {
    if filled {
        Ok(decoded_text(payload(buffer)))
    } else {
        Err(ClipboardError::EncodingConversionFailed)
    }
}

/// A read's result with the text taken by its view.
pub open spec fn text_of(result: Result<String, ClipboardError>) -> Result<Seq<char>, ClipboardError> {
    match result {
        Ok(text) => Ok(text@),
        Err(e) => Err(e),
    }
}

/// Turns the buffer that the text object was asked to fill into owned text.
/// `filled` is what the fill reported. The text is taken up to the first
/// NUL, or up to the end of the buffer where there is none.
pub fn nsstring_to_rust_string(filled: bool, buffer: &[u8]) -> (text: Result<String, ClipboardError>)
    ensures
        text_of(text) == transcoded(filled, buffer@),
{
    if filled {
        let n = payload_len(buffer);
        let bytes = slice_subrange(buffer, 0, n);
        Ok(decode_lossy(bytes))
    } else {
        Err(ClipboardError::EncodingConversionFailed)
    }
}

/// True when `text` holds no U+0000. Such a text survives the passage
/// through a NUL-terminated buffer; any other is cut at its first U+0000.
pub open spec fn has_no_nul(text: Seq<char>) -> bool {
    forall|i: int| 0 <= i < text.len() ==> text[i] != '\0'
}

/// A buffer is well filled with `text` when it starts with the UTF-8
/// encoding of `text` and a NUL follows; what comes after is of no account.
pub open spec fn holds_c_string(buffer: Seq<u8>, text: Seq<char>) -> bool {
    let n = encode_utf8(text).len() as int;
    &&& n < buffer.len()
    &&& buffer.subrange(0, n) == encode_utf8(text)
    &&& buffer[n] == 0
}

proof fn lemma_scalar_has_no_nul(scalar: u32)
    requires
        is_scalar(scalar),
        scalar != 0,
    ensures
        forall|i: int| 0 <= i < encode_scalar(scalar).len() ==> encode_scalar(scalar)[i] != 0,
{
    if has_width_1_encoding(scalar) {
        assert((scalar & 0x7F) as u8 != 0) by (bit_vector)
            requires
                0 < scalar <= 0x7F,
        ;
    } else {
        assert(0xC0u8 | ((scalar >> 6) & 0x1F) as u8 != 0) by (bit_vector);
        assert(0xE0u8 | ((scalar >> 12) & 0x0F) as u8 != 0) by (bit_vector);
        assert(0xF0u8 | ((scalar >> 18) & 0x7) as u8 != 0) by (bit_vector);
        assert(0x80u8 | (scalar & 0x3F) as u8 != 0) by (bit_vector);
        assert(0x80u8 | ((scalar >> 6) & 0x3F) as u8 != 0) by (bit_vector);
        assert(0x80u8 | ((scalar >> 12) & 0x3F) as u8 != 0) by (bit_vector);
    }
}

/// The UTF-8 encoding of a text without U+0000 holds no NUL byte.
pub proof fn lemma_encoding_has_no_nul(text: Seq<char>)
    requires
        has_no_nul(text),
    ensures
        forall|i: int| 0 <= i < encode_utf8(text).len() ==> encode_utf8(text)[i] != 0,
    decreases text.len(),
{
    if text.len() > 0 {
        let head = encode_scalar(text[0] as u32);
        let rest = text.drop_first();
        assert(text[0] as u32 != 0) by {
            char_u32_cast(text[0], text[0] as u32);
            char_u32_cast('\0', 0u32);
        }
        char_is_scalar(text[0]);
        lemma_scalar_has_no_nul(text[0] as u32);
        assert forall|i: int| 0 <= i < rest.len() implies rest[i] != '\0' by {
            assert(rest[i] == text[i + 1]);
        }
        lemma_encoding_has_no_nul(rest);
        assert(encode_utf8(text) == head + encode_utf8(rest));
    }
}

/// A text without U+0000 that fills a buffer is read back from it as it
/// was, whatever the buffer holds behind the terminator: exactly the bytes
/// of the encoding are taken, none more and none less.
pub proof fn lemma_c_string_round_trip(text: Seq<char>, buffer: Seq<u8>)
    requires
        has_no_nul(text),
        holds_c_string(buffer, text),
    ensures
        terminated_len(buffer) == encode_utf8(text).len(),
        payload(buffer) == encode_utf8(text),
        transcoded(true, buffer) == Ok::<Seq<char>, ClipboardError>(text),
{
    let bytes = encode_utf8(text);
    let n = bytes.len() as int;
    lemma_encoding_has_no_nul(text);
    assert forall|i: int| 0 <= i < n implies buffer[i] != 0 by {
        assert(buffer[i] == buffer.subrange(0, n)[i]);
    }
    lemma_ends_at_unique(buffer, n);
    encode_utf8_valid_utf8(text);
    encode_utf8_decode_utf8(text);
}

/// The part of `text` before its first U+0000: all of it where it holds
/// none.
pub open spec fn before_nul(text: Seq<char>) -> Seq<char>
    decreases text.len(),
{
    if text.len() == 0 || text[0] == '\0' {
        Seq::empty()
    } else {
        seq![text[0]] + before_nul(text.drop_first())
    }
}

/// `before_nul` holds no U+0000 and changes nothing in a text without one.
/// Its encoding is where the encoding of the whole text starts, and a NUL
/// byte follows it there unless the two are the same.
pub proof fn lemma_before_nul(text: Seq<char>)
    ensures
        has_no_nul(before_nul(text)),
        has_no_nul(text) ==> before_nul(text) == text,
        encode_utf8(before_nul(text)).len() <= encode_utf8(text).len(),
        encode_utf8(text).subrange(0, encode_utf8(before_nul(text)).len() as int) == encode_utf8(
            before_nul(text),
        ),
        encode_utf8(before_nul(text)).len() < encode_utf8(text).len() ==> encode_utf8(
            text,
        )[encode_utf8(before_nul(text)).len() as int] == 0,
    decreases text.len(),
{
    let whole = encode_utf8(text);
    let cut = before_nul(text);
    if text.len() == 0 {
        assert(whole.subrange(0, 0) =~= encode_utf8(cut));
    } else if text[0] == '\0' {
        assert(encode_utf8(cut).len() == 0);
        assert(whole.subrange(0, 0) =~= encode_utf8(cut));
        assert((0u32 & 0x7F) as u8 == 0) by (bit_vector);
        assert(whole[0] == encode_scalar(0u32)[0]);
    } else {
        let head = encode_scalar(text[0] as u32);
        let rest = text.drop_first();
        lemma_before_nul(rest);
        let cut_rest = before_nul(rest);
        assert(cut.drop_first() =~= cut_rest);
        assert(encode_utf8(cut) == head + encode_utf8(cut_rest));
        assert(whole == head + encode_utf8(rest));
        let k = encode_utf8(cut_rest).len() as int;
        assert(encode_utf8(rest).subrange(0, k) == encode_utf8(cut_rest));
        assert forall|i: int| 0 <= i < head.len() + k implies whole[i] == encode_utf8(cut)[i] by {
            if i >= head.len() {
                assert(whole[i] == encode_utf8(rest)[i - head.len()]);
                assert(encode_utf8(rest).subrange(0, k)[i - head.len()] == encode_utf8(rest)[i
                    - head.len()]);
            }
        }
        assert(whole.subrange(0, head.len() + k) =~= encode_utf8(cut));
        if encode_utf8(cut).len() < whole.len() {
            assert(whole[head.len() + k] == encode_utf8(rest)[k]);
        }
        if has_no_nul(text) {
            assert forall|i: int| 0 <= i < rest.len() implies rest[i] != '\0' by {
                assert(rest[i] == text[i + 1]);
            }
            assert(cut =~= text);
        }
        assert forall|i: int| 0 <= i < cut.len() implies cut[i] != '\0' by {
            if i > 0 {
                assert(cut[i] == cut_rest[i - 1]);
            }
        }
    }
}

/// Whatever text fills a buffer, what is read back from it is the text up
/// to its first U+0000: the terminator cannot be told from a NUL that the
/// text itself holds.
pub proof fn lemma_c_string_cut(text: Seq<char>, buffer: Seq<u8>)
    requires
        holds_c_string(buffer, text),
    ensures
        holds_c_string(buffer, before_nul(text)),
        transcoded(true, buffer) == Ok::<Seq<char>, ClipboardError>(before_nul(text)),
{
    lemma_before_nul(text);
    let whole = encode_utf8(text);
    let cut = encode_utf8(before_nul(text));
    let k = cut.len() as int;
    assert(buffer.subrange(0, k) =~= cut) by {
        assert forall|i: int| 0 <= i < k implies buffer[i] == cut[i] by {
            assert(buffer[i] == buffer.subrange(0, whole.len() as int)[i]);
            assert(whole.subrange(0, k)[i] == whole[i]);
        }
    }
    if k < whole.len() {
        assert(buffer[k] == buffer.subrange(0, whole.len() as int)[k]);
    }
    lemma_c_string_round_trip(before_nul(text), buffer);
}

} // verus!
