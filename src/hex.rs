//! Reading 32-byte keys written in hexadecimal, with an optional `0x`.
use rustc_hex::{FromHex, FromHexError, ToHex};
use vstd::prelude::*;
use vstd::string::StringSliceAdditionalSpecFns;
use vstd::utf8::*;

verus! {

#[verifier::external_type_specification]
pub struct ExFromHexError(FromHexError);

/// An ASCII hexadecimal digit, either case.
pub open spec fn is_hex_digit(b: u8) -> bool {
    (0x30 <= b <= 0x39) || (0x41 <= b <= 0x46) || (0x61 <= b <= 0x66)
}

/// Whitespace that hexadecimal text may hold between digits.
pub open spec fn is_hex_space(b: u8) -> bool {
    b == 0x20 || b == 0x0d || b == 0x0a || b == 0x09
}

/// The digits of hexadecimal text, whitespace left out.
pub open spec fn hex_digits(text: Seq<u8>) -> Seq<u8> {
    text.filter(|b: u8| !is_hex_space(b))
}

/// Text that holds a byte that is neither a digit nor whitespace.
pub open spec fn has_foreign_byte(text: Seq<u8>) -> bool {
    exists|i: int| 0 <= i < text.len() && !is_hex_digit(#[trigger] text[i]) && !is_hex_space(text[i])
}

/// Text that decodes: digits and whitespace only, an even number of digits.
pub open spec fn is_hex_text(text: Seq<u8>) -> bool {
    &&& forall|i: int| 0 <= i < text.len() ==> is_hex_digit(#[trigger] text[i]) || is_hex_space(text[i])
    &&& hex_digits(text).len() % 2 == 0
}

/// Value of a hexadecimal digit.
pub open spec fn nibble(b: u8) -> u8 {
    if 0x30 <= b <= 0x39 {
        (b - 0x30) as u8
    } else if 0x41 <= b <= 0x46 {
        (b - 0x41 + 10) as u8
    } else {
        (b - 0x61 + 10) as u8
    }
}

/// The bytes that hexadecimal text stands for, high digit first.
pub open spec fn hex_decoded(text: Seq<u8>) -> Seq<u8> {
    let d = hex_digits(text);
    Seq::new(d.len() / 2, |i: int| (nibble(d[2 * i]) * 16 + nibble(d[2 * i + 1])) as u8)
}

/// The text of a key without its optional `0x` prefix.
pub open spec fn without_prefix(text: Seq<u8>) -> Seq<u8> {
    if text.len() >= 2 && text[0] == 0x30 && text[1] == 0x78 {
        text.subrange(2, text.len() as int)
    } else {
        text
    }
}

/// What reading a 32-byte key from `text` gives: 64 characters after the
/// optional prefix, decoding to 32 bytes.
pub open spec fn key_from_hex(text: Seq<u8>) -> Option<Seq<u8>> {
    let body = without_prefix(text);
    if body.len() == 64 && is_hex_text(body) && hex_decoded(body).len() == 32 {
        Some(hex_decoded(body))
    } else {
        None
    }
}

/// Relies on rustc_hex's `FromHex` for `str`: digits are read in pairs, high
/// digit first, whitespace is skipped; any other character is an
/// `InvalidHexCharacter` error, and otherwise an odd number of digits is an
/// `InvalidHexLength` error.
#[verifier::external_body]
pub(crate) fn decode_hex(text: &str) -> (r: Result<Vec<u8>, FromHexError>)
    ensures
        r is Ok <==> is_hex_text(text.spec_bytes()),
        r is Ok ==> r->Ok_0@ == hex_decoded(text.spec_bytes()),
        r is Err ==> (r->Err_0 is InvalidHexCharacter <==> has_foreign_byte(text.spec_bytes())),
{
    text.from_hex()
}

/// The lower-case digit for a value below 16.
pub open spec fn hex_char(n: u8) -> char {
    if n < 10 {
        ((0x30 + n) as u8) as char
    } else {
        ((0x61 + n - 10) as u8) as char
    }
}

/// Bytes written as hexadecimal text: two lower-case digits per byte, high
/// digit first.
pub open spec fn hex_encoded(bytes: Seq<u8>) -> Seq<char> {
    Seq::new(
        2 * bytes.len(),
        |i: int|
            if i % 2 == 0 {
                hex_char(bytes[i / 2] / 16)
            } else {
                hex_char(bytes[i / 2] % 16)
            },
    )
}

/// Relies on rustc_hex's `ToHex` for `[u8]`: two lower-case digits per byte,
/// high digit first.
#[verifier::external_body]
pub(crate) fn encode_hex(bytes: &[u8]) -> (r: String)
    ensures
        r@ == hex_encoded(bytes@),
{
    bytes.to_hex()
}

/// Copies 32 bytes into an array.
pub fn array32(bytes: &[u8]) -> (r: [u8; 32])
    requires
        bytes@.len() == 32,
    ensures
        r@ == bytes@,
{
    let mut out = [0u8; 32];
    let mut i: usize = 0;
    while i < 32
        invariant
            0 <= i <= 32,
            bytes@.len() == 32,
            forall|j: int| 0 <= j < i ==> out@[j] == bytes@[j],
        decreases 32 - i,
    {
        out[i] = bytes[i];
        i = i + 1;
    }
    assert(out@ =~= bytes@);
    out
}

/// The text after an optional `0x`.
pub(crate) fn strip_prefix(text: &str) -> (r: &str)
    ensures
        r.spec_bytes() == without_prefix(text.spec_bytes()),
{
    let bytes = text.as_bytes();
    if bytes.len() >= 2 && bytes[0] == 0x30 && bytes[1] == 0x78 {
        proof {
            let s = text.spec_bytes();
            broadcast use encode_utf8_valid_utf8;
            assert(valid_utf8(s));
            assert(valid_utf8(pop_first_scalar(s)));
            reveal_with_fuel(is_char_boundary, 3);
        }
        let (_, rest) = text.split_at(2);
        rest
    } else {
        text
    }
}

/// Reads a 32-byte key from 64 hexadecimal characters, optionally after `0x`.
pub fn parse_hex32(hex: &str) -> (r: Result<[u8; 32], FromHexError>)
    ensures
        match r {
            Ok(key) => key_from_hex(hex.spec_bytes()) == Some(key@),
            Err(_) => key_from_hex(hex.spec_bytes()) is None,
        },
        without_prefix(hex.spec_bytes()).len() != 64 ==> r == Err::<[u8; 32], FromHexError>(
            FromHexError::InvalidHexLength,
        ),
        without_prefix(hex.spec_bytes()).len() == 64 ==> (r is Err && r->Err_0 is InvalidHexCharacter
            <==> has_foreign_byte(without_prefix(hex.spec_bytes()))),
        r is Err && !(r->Err_0 is InvalidHexCharacter) ==> r->Err_0 is InvalidHexLength,
{
    let body = strip_prefix(hex);
    if body.as_bytes().len() != 64 {
        return Err(FromHexError::InvalidHexLength);
    }
    let decoded = match decode_hex(body) {
        Ok(v) => v,
        Err(e) => return Err(e),
    };
    if decoded.len() != 32 {
        return Err(FromHexError::InvalidHexLength);
    }
    Ok(array32(decoded.as_slice()))
}

} // verus!
