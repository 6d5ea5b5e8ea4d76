//! Text on one side, C strings on the other.

use crate::error::{IntoStringError, Krb5Error, Krb5ErrorView};
use vstd::prelude::*;
use vstd::slice::slice_to_vec;
use vstd::utf8::{decode_utf8, encode_scalar, encode_utf8, valid_utf8};

verus! {

/// The string cannot be a C string: it holds the NUL character, which would
/// end it early.
pub open spec fn spec_has_nul(s: Seq<char>) -> bool {
    s.contains('\0')
}

/// The C string for a string: its UTF-8 encoding and the terminator.
pub open spec fn spec_c_string(s: Seq<char>) -> Seq<u8> {
    encode_utf8(s).push(0u8)
}

/// What a reader of C strings takes from a buffer: the bytes before the first zero.
pub open spec fn spec_c_string_content(buffer: Seq<u8>) -> Seq<u8>
    decreases buffer.len(),
{
    if buffer.len() == 0 || buffer[0] == 0u8 {
        Seq::empty()
    } else {
        seq![buffer[0]] + spec_c_string_content(buffer.drop_first())
    }
}

/// The result of reading a C string as text.
pub open spec fn spec_text_of(c: Option<Seq<u8>>) -> Result<Seq<char>, Krb5ErrorView> {
    match c {
        None => Err(Krb5ErrorView::NullPointerDereference),
        Some(bytes) => if valid_utf8(bytes) {
            Ok(decode_utf8(bytes))
        } else {
            Err(Krb5ErrorView::StringConversion { error: Some(bytes) })
        },
    }
}

/// `String::from_utf8`: the bytes become a string exactly when they are valid
/// UTF-8, and the string then holds the characters they encode.
#[verifier::external_body]
fn string_from_utf8(bytes: Vec<u8>) -> (text: Option<String>)
    ensures
        text is Some <==> valid_utf8(bytes@),
        text matches Some(s) ==> s@ == decode_utf8(bytes@),
{
    String::from_utf8(bytes).ok()
}

/// Marshals a string into a C string.
///
/// Fails, before anything is handed to the native library, when the string
/// holds the NUL character.
pub fn string_to_c_string(s: &str) -> (c: Result<Vec<u8>, Krb5Error>)
    ensures
        c is Ok <==> !spec_has_nul(s@),
        c matches Ok(buffer) ==> buffer@ == spec_c_string(s@),
        c matches Err(e) ==> e@ == (Krb5ErrorView::StringConversion { error: None }),
{
    let bytes = s.as_bytes();
    let mut i: usize = 0;
    while i < bytes.len()
        invariant
            i <= bytes@.len(),
            bytes@ == encode_utf8(s@),
            forall|j: int| 0 <= j < i ==> bytes@[j] != 0u8,
        decreases bytes@.len() - i,
    {
        if bytes[i] == 0 {
            proof {
                lemma_nul_char_iff_zero_byte(s@);
            }
            return Err(Krb5Error::StringConversion { error: None });
        }
        i += 1;
    }
    proof {
        lemma_nul_char_iff_zero_byte(s@);
    }
    let mut buffer = slice_to_vec(bytes);
    buffer.push(0);
    Ok(buffer)
}

/// Reads a C string from the native library as text.
///
/// `None` stands for the null pointer.
pub fn c_string_to_string(c: &Option<Vec<u8>>) -> (text: Result<String, Krb5Error>)
    ensures
        match spec_text_of(spec_bytes_of(*c)) {
            Ok(s) => text matches Ok(t) && t@ == s,
            Err(e) => text matches Err(f) && f@ == e,
        },
{
    match c {
        None => Err(Krb5Error::NullPointerDereference),
        Some(bytes) => bytes_to_string(bytes),
    }
}

/// Reads the bytes of a C string, without its terminator, as text.
pub(crate) fn bytes_to_string(bytes: &Vec<u8>) -> (text: Result<String, Krb5Error>)
    ensures
        match spec_text_of(Some(bytes@)) {
            Ok(s) => text matches Ok(t) && t@ == s,
            Err(e) => text matches Err(f) && f@ == e,
        },
{
    match string_from_utf8(slice_to_vec(bytes.as_slice())) {
        Some(s) => Ok(s),
        None => Err(
            Krb5Error::StringConversion {
                error: Some(IntoStringError { bytes: slice_to_vec(bytes.as_slice()) }),
            },
        ),
    }
}

/// The bytes of a C string from the native library, where it is not null.
pub open spec fn spec_bytes_of(c: Option<Vec<u8>>) -> Option<Seq<u8>> {
    match c {
        Some(bytes) => Some(bytes@),
        None => None,
    }
}

/// A reader of C strings takes from a marshalled string exactly its encoding.
pub proof fn lemma_c_string_content(s: Seq<char>)
    requires
        !spec_has_nul(s),
    ensures
        spec_c_string_content(spec_c_string(s)) == encode_utf8(s),
{
    lemma_nul_char_iff_zero_byte(s);
    lemma_content_before_terminator(encode_utf8(s));
}

/// Bytes without a zero are what a reader of C strings takes once the
/// terminator is appended.
proof fn lemma_content_before_terminator(bytes: Seq<u8>)
    requires
        !bytes.contains(0u8),
    ensures
        spec_c_string_content(bytes.push(0u8)) == bytes,
    decreases bytes.len(),
{
    let buffer = bytes.push(0u8);
    if bytes.len() == 0 {
        assert(spec_c_string_content(buffer) =~= bytes);
    } else {
        assert(bytes.contains(bytes[0]));
        assert(buffer[0] == bytes[0]);
        assert(buffer.drop_first() =~= bytes.drop_first().push(0u8));
        assert forall|b: u8| bytes.drop_first().contains(b) implies bytes.contains(b) by {
            let j = choose|j: int| 0 <= j < bytes.drop_first().len() && bytes.drop_first()[j] == b;
            assert(bytes[j + 1] == b);
        }
        lemma_content_before_terminator(bytes.drop_first());
        assert(spec_c_string_content(buffer) =~= bytes);
    }
}

/// A string holds the NUL character exactly when its encoding holds a zero byte.
pub proof fn lemma_nul_char_iff_zero_byte(s: Seq<char>)
    ensures
        spec_has_nul(s) <==> encode_utf8(s).contains(0u8),
    decreases s.len(),
{
    if s.len() > 0 {
        let head = encode_scalar(s[0] as u32);
        let tail = encode_utf8(s.drop_first());
        lemma_scalar_zero_byte(s[0]);
        lemma_nul_char_iff_zero_byte(s.drop_first());
        assert(encode_utf8(s) == head + tail);
        if head.contains(0u8) {
            let i = choose|i: int| 0 <= i < head.len() && head[i] == 0u8;
            assert((head + tail)[i] == 0u8);
            assert(s[0] == '\0');
        }
        if tail.contains(0u8) {
            let i = choose|i: int| 0 <= i < tail.len() && tail[i] == 0u8;
            assert((head + tail)[head.len() + i] == 0u8);
            let j = choose|j: int| 0 <= j < s.drop_first().len() && s.drop_first()[j] == '\0';
            assert(s[j + 1] == '\0');
        }
        if (head + tail).contains(0u8) {
            let i = choose|i: int| 0 <= i < (head + tail).len() && (head + tail)[i] == 0u8;
            if i < head.len() {
                assert(head[i] == 0u8);
            } else {
                assert(tail[i - head.len()] == 0u8);
            }
        }
        if s.contains('\0') {
            let j = choose|j: int| 0 <= j < s.len() && s[j] == '\0';
            if j > 0 {
                assert(s.drop_first()[j - 1] == '\0');
            }
        }
    }
}

/// The encoding of a character holds a zero byte exactly when the character is NUL.
proof fn lemma_scalar_zero_byte(c: char)
    ensures
        encode_scalar(c as u32).contains(0u8) <==> c == '\0',
{
    let v = c as u32;
    let bytes = encode_scalar(v);
    vstd::utf8::char_is_scalar(c);
    assert(v <= 0x7F ==> ((v & 0x7F) as u8 == 0u8 <==> v == 0)) by (bit_vector);
    assert(0xC0u8 | ((v >> 6) & 0x1F) as u8 != 0u8) by (bit_vector);
    assert(0xE0u8 | ((v >> 12) & 0x0F) as u8 != 0u8) by (bit_vector);
    assert(0xF0u8 | ((v >> 18) & 0x7) as u8 != 0u8) by (bit_vector);
    assert(0x80u8 | (v & 0x3F) as u8 != 0u8) by (bit_vector);
    assert(0x80u8 | ((v >> 6) & 0x3F) as u8 != 0u8) by (bit_vector);
    assert(0x80u8 | ((v >> 12) & 0x3F) as u8 != 0u8) by (bit_vector);
    if c == '\0' {
        assert(bytes[0] == 0u8);
    }
    if bytes.contains(0u8) {
        let i = choose|i: int| 0 <= i < bytes.len() && bytes[i] == 0u8;
        assert(c == '\0');
    }
}

/// Marshalling loses nothing: a string that can be a C string is read back,
/// from its C string, as itself.
pub proof fn lemma_c_string_round_trip(s: Seq<char>)
    requires
        !spec_has_nul(s),
    ensures
        spec_text_of(Some(spec_c_string_content(spec_c_string(s)))) == Ok::<
            Seq<char>,
            Krb5ErrorView,
        >(s),
{
    lemma_c_string_content(s);
    vstd::utf8::encode_utf8_valid_utf8(s);
    vstd::utf8::encode_utf8_decode_utf8(s);
}

} // verus!
