//! Helpers on UTF-8 text: character counts, equality, and conversion of
//! validated bytes into owned strings.
use vstd::prelude::*;
use vstd::utf8::*;
use vstd::string::*;
use crate::codec::utf8_width;

verus! {

/// Width of the UTF-8 encoding introduced by leading byte `b`, 0 when `b`
/// cannot start one.
pub fn utf8_width_of(b: u8) -> (w: usize)
    ensures
        w == utf8_width(b),
{
    if b <= 0x7f {
        1
    } else if 0xc0 <= b && b <= 0xdf {
        2
    } else if 0xe0 <= b && b <= 0xef {
        3
    } else if 0xf0 <= b && b <= 0xf7 {
        4
    } else {
        0
    }
}

/// Number of characters of `s`.
pub fn char_count(s: &str) -> (n: usize)
    ensures
        n == s@.len(),
{
    let bytes = s.as_bytes();
    let ghost chars = s@;
    let mut i: usize = 0;
    let mut count: usize = 0;
    assert(chars.skip(0) =~= chars);
    assert(bytes@.skip(0) =~= bytes@);
    while i < bytes.len()
        invariant
            bytes@ == encode_utf8(chars),
            count <= chars.len(),
            count <= i,
            i <= bytes@.len(),
            bytes@.skip(i as int) == encode_utf8(chars.skip(count as int)),
        decreases bytes@.len() - i,
    {
        let ghost tail = chars.skip(count as int);
        proof {
            if tail.len() == 0 {
                assert(encode_utf8(tail).len() == 0);
                assert(false);
            }
            encode_utf8_first_scalar(tail);
            assert(encode_utf8(tail) == encode_scalar(tail[0] as u32) + encode_utf8(tail.drop_first()));
            assert(bytes@.skip(i as int)[0] == bytes@[i as int]);
        }
        let w = utf8_width_of(bytes[i]);
        proof {
            let wi = encode_scalar(tail[0] as u32).len() as int;
            assert(w == wi);
            assert(wi >= 1);
            assert(i + wi <= bytes@.len());
            assert(bytes@.skip(i + w) =~= bytes@.skip(i as int).skip(wi));
            assert(bytes@.skip(i as int).skip(wi) =~= encode_utf8(tail.drop_first()));
            assert(tail.drop_first() =~= chars.skip(count + 1));
        }
        i = i + w;
        count = count + 1;
    }
    proof {
        let tail = chars.skip(count as int);
        if tail.len() > 0 {
            encode_utf8_first_scalar(tail);
            assert(encode_utf8(tail) == encode_scalar(tail[0] as u32) + encode_utf8(tail.drop_first()));
            assert(false);
        }
    }
    count
}

/// Byte-wise equality of two byte slices.
pub fn bytes_eq(a: &[u8], b: &[u8]) -> (r: bool)
    ensures
        r == (a@ == b@),
{
    if a.len() != b.len() {
        return false;
    }
    let mut i: usize = 0;
    while i < a.len()
        invariant
            a@.len() == b@.len(),
            i <= a@.len(),
            forall|j: int| 0 <= j < i ==> a@[j] == b@[j],
        decreases a@.len() - i,
    {
        if a[i] != b[i] {
            return false;
        }
        i = i + 1;
    }
    assert(a@ =~= b@);
    true
}

/// Equality of the characters of two strings.
pub fn str_eq(a: &str, b: &str) -> (r: bool)
    ensures
        r == (a@ == b@),
{
    let r = bytes_eq(a.as_bytes(), b.as_bytes());
    proof {
        encode_utf8_decode_utf8(a@);
        encode_utf8_decode_utf8(b@);
    }
    r
}

/// The string holding the characters that `bytes` encode in UTF-8, or `None`
/// when `bytes` are not valid UTF-8.
pub fn utf8_string(bytes: Vec<u8>) -> (r: Option<String>)
    ensures
        r is Some <==> valid_utf8(bytes@),
        r matches Some(s) ==> s@ == decode_utf8(bytes@),
{
    match std_string_from_utf8(bytes) {
        Ok(s) => Some(s),
        Err(_) => None,
    }
}

/// Calls `String::from_utf8`, which std documents to succeed exactly when the
/// bytes are valid UTF-8, returning the string those bytes encode. The claim
/// is that std's notion of valid UTF-8 is vstd's `valid_utf8` (no overlong
/// forms, no surrogates, nothing above U+10FFFF) and that the characters are
/// vstd's `decode_utf8` of the bytes.
#[verifier::external_body]
fn std_string_from_utf8(bytes: Vec<u8>) -> (r: Result<String, std::string::FromUtf8Error>)
    ensures
        r is Ok <==> valid_utf8(bytes@),
        r matches Ok(s) ==> s@ == decode_utf8(bytes@),
{
    String::from_utf8(bytes)
}

/// Declares std's UTF-8 conversion error, which only signals failure here.
#[verifier::external_type_specification]
#[verifier::external_body]
pub struct ExFromUtf8Error(std::string::FromUtf8Error);

/// An owned copy of a string slice.
pub fn owned(s: &str) -> (r: String)
    ensures
        r@ == s@,
{
    s.to_owned()
}

} // verus!
