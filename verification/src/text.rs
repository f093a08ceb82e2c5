//! Text in fixed-capacity, NUL-terminated byte buffers.
//!
//! The SDK stores names as C strings inside a record: the text, one NUL, and
//! whatever fills the rest of the buffer.  On the host side a name is a
//! `String`.  A buffer without a NUL has no end and is refused; so is text
//! that would leave no room for the NUL.

use vstd::prelude::*;
use vstd::slice::*;
use vstd::utf8::*;
use crate::sentinel::{
    lemma_padded_of_used, lemma_used_len_exists, lemma_used_of_padded, padded, scan_bytes, used,
    used_len,
};

verus! {

/// The byte that ends a text.
pub const NUL: u8 = 0;

/// Why a buffer holds no text.
#[derive(Debug, Clone, Copy, PartialEq, Eq, Structural)]
pub enum TextError {
    /// No NUL within the buffer.
    Unterminated,
    /// The bytes before the NUL are not UTF-8.
    InvalidUtf8,
}

/// The text that a buffer holds: the bytes before the first NUL, read as
/// UTF-8.
pub open spec fn spec_chars_to_string(chars: Seq<u8>) -> Result<Seq<char>, TextError> {
    if used_len(chars, NUL) == chars.len() {
        Err(TextError::Unterminated)
    } else if !valid_utf8(used(chars, NUL)) {
        Err(TextError::InvalidUtf8)
    } else {
        Ok(decode_utf8(used(chars, NUL)))
    }
}

/// Whether `text` fits a buffer of `capacity` bytes with its NUL.
pub open spec fn spec_text_fits(text: Seq<char>, capacity: nat) -> bool {
    encode_utf8(text).len() < capacity
}

/// The buffer of `capacity` bytes that holds `text`: its UTF-8 bytes, then
/// zeros to the end.
pub open spec fn spec_string_to_chars(text: Seq<char>, capacity: nat) -> Seq<u8> {
    padded(encode_utf8(text), NUL, capacity)
}

/// Whether `text` is free of the character that would end it early in a
/// buffer.
pub open spec fn spec_nul_free(text: Seq<char>) -> bool {
    forall|i: int| 0 <= i < text.len() ==> text[i] != '\0'
}

/// `String::from_utf8` of the standard library.  It accepts exactly the byte
/// vectors that are UTF-8, and the string it returns consists of the bytes
/// it was given.
#[verifier::external_body]
fn string_from_utf8(bytes: Vec<u8>) -> (r: Option<String>)
    ensures
        r is Some <==> valid_utf8(bytes@),
        r matches Some(s) ==> encode_utf8(s@) == bytes@,
{
    match String::from_utf8(bytes) {
        Ok(text) => Some(text),
        Err(_) => None,
    }
}

/// Reads the text out of a NUL-terminated buffer.
pub fn chars_to_string(chars: &[u8]) -> (r: Result<String, TextError>)
    ensures
        match r {
            Ok(text) => spec_chars_to_string(chars@) == Ok::<Seq<char>, TextError>(text@)
                && spec_text_fits(text@, chars@.len()) && spec_nul_free(text@),
            Err(e) => spec_chars_to_string(chars@) == Err::<Seq<char>, TextError>(e),
        },
{
    proof {
        lemma_decoded_text_fits(chars@);
        lemma_decoded_text_nul_free(chars@);
    }
    let n = scan_bytes(chars, NUL);
    if n == chars.len() {
        return Err(TextError::Unterminated);
    }
    let bytes = slice_to_vec(slice_subrange(chars, 0, n));
    assert(bytes@ =~= used(chars@, NUL));
    match string_from_utf8(bytes) {
        Some(text) => {
            proof {
                encode_utf8_decode_utf8(text@);
            }
            Ok(text)
        },
        None => Err(TextError::InvalidUtf8),
    }
}

/// Whether `text` holds no NUL character.
pub fn is_nul_free(text: &str) -> (b: bool)
    ensures
        b == spec_nul_free(text@),
{
    let bytes = text.as_bytes();
    let n = scan_bytes(bytes, NUL);
    proof {
        if n == bytes@.len() {
            lemma_nul_free_text(text@);
        } else if spec_nul_free(text@) {
            lemma_nul_free_bytes(text@);
        }
    }
    n == bytes.len()
}

/// The C string of `text`: its UTF-8 bytes and one NUL behind them.
pub fn to_c_string(text: &str) -> (bytes: Vec<u8>)
    ensures
        bytes@ == encode_utf8(text@).push(NUL),
{
    let mut bytes = slice_to_vec(text.as_bytes());
    bytes.push(NUL);
    bytes
}

/// Whether `text` may be handed to `string_to_chars` for a buffer of
/// `capacity` bytes.
pub fn text_fits(text: &str, capacity: usize) -> (b: bool)
    ensures
        b == spec_text_fits(text@, capacity as nat),
{
    text.as_bytes().len() < capacity
}

/// Writes `text` into a zeroed buffer of `N` bytes.  Text that leaves no
/// room for the NUL is not accepted: nothing is ever cut off.
pub fn string_to_chars<const N: usize>(text: &str) -> (chars: [u8; N])
    requires
        spec_text_fits(text@, N as nat),
    ensures
        chars@ == spec_string_to_chars(text@, N as nat),
{
    let bytes = text.as_bytes();
    let mut chars = [NUL;N];
    let mut i: usize = 0;
    while i < bytes.len()
        invariant
            i <= bytes@.len() < N,
            bytes@ == encode_utf8(text@),
            forall|j: int| 0 <= j < i ==> chars@[j] == bytes@[j],
            forall|j: int| i <= j < N ==> chars@[j] == NUL,
        decreases bytes@.len() - i,
    {
        chars[i] = bytes[i];
        i = i + 1;
    }
    assert(chars@ =~= spec_string_to_chars(text@, N as nat));
    chars
}

/// Text read out of a buffer fits the same buffer again: it is shorter
/// than the buffer by at least the NUL that ended it.
pub proof fn lemma_decoded_text_fits(chars: Seq<u8>)
    ensures
        spec_chars_to_string(chars) matches Ok(text) ==> spec_text_fits(text, chars.len()),
{
    if let Ok(text) = spec_chars_to_string(chars) {
        lemma_used_len_exists(chars, NUL);
        decode_utf8_encode_utf8(used(chars, NUL));
    }
}

/// No byte of the UTF-8 encoding of a character other than NUL is zero.
proof fn lemma_scalar_has_no_nul(scalar: u32)
    requires
        scalar != 0,
    ensures
        forall|i: int| 0 <= i < encode_scalar(scalar).len() ==> encode_scalar(scalar)[i] != NUL,
{
    assert(scalar <= 0x7F ==> (scalar & 0x7F) as u8 != 0) by (bit_vector)
        requires
            scalar != 0,
    ;
    assert(forall|low: u8| 0xC0u8 | low != 0) by (bit_vector);
    assert(forall|low: u8| 0xE0u8 | low != 0) by (bit_vector);
    assert(forall|low: u8| 0xF0u8 | low != 0) by (bit_vector);
    assert(forall|low: u8| 0x80u8 | low != 0) by (bit_vector);
}

/// Text without a NUL character has no zero byte in its UTF-8 encoding.
pub proof fn lemma_nul_free_bytes(text: Seq<char>)
    requires
        spec_nul_free(text),
    ensures
        forall|i: int| 0 <= i < encode_utf8(text).len() ==> encode_utf8(text)[i] != NUL,
    decreases text.len(),
{
    if text.len() > 0 {
        let head = encode_scalar(text[0] as u32);
        let tail = encode_utf8(text.drop_first());
        assert(text[0] as u32 != 0) by {
            char_is_scalar(text[0]);
            if text[0] as u32 == 0 {
                char_u32_cast(text[0], 0u32);
                assert(text[0] == '\0');
            }
        }
        lemma_scalar_has_no_nul(text[0] as u32);
        assert forall|i: int| 0 <= i < text.drop_first().len() implies text.drop_first()[i]
            != '\0' by {
            assert(text.drop_first()[i] == text[i + 1]);
        }
        lemma_nul_free_bytes(text.drop_first());
        assert(encode_utf8(text) == head + tail);
        assert forall|i: int| 0 <= i < encode_utf8(text).len() implies encode_utf8(text)[i]
            != NUL by {
            if i < head.len() {
                assert(encode_utf8(text)[i] == head[i]);
            } else {
                assert(encode_utf8(text)[i] == tail[i - head.len()]);
            }
        }
    }
}

/// Text whose UTF-8 encoding has no zero byte holds no NUL character.
pub proof fn lemma_nul_free_text(text: Seq<char>)
    requires
        forall|i: int| 0 <= i < encode_utf8(text).len() ==> encode_utf8(text)[i] != NUL,
    ensures
        spec_nul_free(text),
    decreases text.len(),
{
    if text.len() > 0 {
        let head = encode_scalar(text[0] as u32);
        let tail = encode_utf8(text.drop_first());
        assert(encode_utf8(text) == head + tail);
        assert(head.len() > 0);
        assert(text[0] != '\0') by {
            if text[0] == '\0' {
                assert(0u32 & 0x7F == 0) by (bit_vector);
                assert(head[0] == NUL);
                assert(encode_utf8(text)[0] == head[0]);
            }
        }
        assert forall|i: int| 0 <= i < tail.len() implies tail[i] != NUL by {
            assert(encode_utf8(text)[head.len() + i] == tail[i]);
        }
        lemma_nul_free_text(text.drop_first());
        assert forall|i: int| 0 <= i < text.len() implies text[i] != '\0' by {
            if i > 0 {
                assert(text.drop_first()[i - 1] == text[i]);
            }
        }
    }
}

/// Text read out of a buffer holds no NUL character.
pub proof fn lemma_decoded_text_nul_free(chars: Seq<u8>)
    ensures
        spec_chars_to_string(chars) matches Ok(text) ==> spec_nul_free(text),
{
    if let Ok(text) = spec_chars_to_string(chars) {
        lemma_used_len_exists(chars, NUL);
        decode_utf8_encode_utf8(used(chars, NUL));
        lemma_nul_free_text(text);
    }
}

/// Text that fits a buffer and holds no NUL character is read back from
/// the buffer unchanged.  This holds up to the longest text that fits, one
/// byte short of the capacity.
pub proof fn lemma_text_round_trip(text: Seq<char>, capacity: nat)
    requires
        spec_text_fits(text, capacity),
        spec_nul_free(text),
    ensures
        spec_chars_to_string(spec_string_to_chars(text, capacity)) == Ok::<Seq<char>, TextError>(
            text,
        ),
{
    let bytes = encode_utf8(text);
    lemma_nul_free_bytes(text);
    lemma_used_of_padded(bytes, NUL, capacity);
    encode_utf8_valid_utf8(text);
    encode_utf8_decode_utf8(text);
}

/// A buffer that holds text and nothing but zeros behind it is written
/// again, byte for byte, from the text read out of it.
pub proof fn lemma_buffer_round_trip(chars: Seq<u8>)
    requires
        forall|i: int| used_len(chars, NUL) <= i < chars.len() ==> chars[i] == NUL,
    ensures
        spec_chars_to_string(chars) matches Ok(text) ==> spec_string_to_chars(text, chars.len())
            == chars,
{
    if let Ok(text) = spec_chars_to_string(chars) {
        decode_utf8_encode_utf8(used(chars, NUL));
        lemma_padded_of_used(chars, NUL);
    }
}

} // verus!
