//! Hex encoding and decoding of blockhashes, at the boundary to the `hex`
//! crate.
//!
//! The remote chain hands blockhashes and raw blocks as hex strings; the
//! ledger stores raw bytes. Both directions are specified exactly, digit by
//! digit, so nothing about the wire form is left open.

use vstd::prelude::*;

verus! {

/// The lowercase ASCII hex digit for a value below sixteen.
pub open spec fn hex_digit_char(x: u8) -> char
    recommends
        x < 16,
{
    if x < 10 {
        ((48 + x) as u8) as char
    } else {
        ((87 + x) as u8) as char
    }
}

/// Whether a character is an ASCII hex digit, either case.
pub open spec fn is_hex_char(c: char) -> bool {
    (48 <= c as u32 && c as u32 <= 57) || (97 <= c as u32 && c as u32 <= 102) || (65 <= c as u32
        && c as u32 <= 70)
}

/// The value of an ASCII hex digit, either case.
pub open spec fn hex_char_val(c: char) -> u8
    recommends
        is_hex_char(c),
{
    if 48 <= c as u32 && c as u32 <= 57 {
        (c as u32 - 48) as u8
    } else if 97 <= c as u32 && c as u32 <= 102 {
        (c as u32 - 87) as u8
    } else {
        (c as u32 - 55) as u8
    }
}

/// A string is valid hex when its length is even and every character is a
/// hex digit.
pub open spec fn valid_hex(s: Seq<char>) -> bool {
    s.len() % 2 == 0 && forall|i: int| 0 <= i < s.len() ==> is_hex_char(#[trigger] s[i])
}

/// The bytes a valid hex string decodes to: one byte for each pair of digits.
pub open spec fn decoded_hex(s: Seq<char>, i: int) -> u8
    recommends
        0 <= i,
        2 * i + 1 < s.len(),
{
    (16 * hex_char_val(s[2 * i]) + hex_char_val(s[2 * i + 1])) as u8
}

/// Relies on hex::encode: the result has two lowercase hex digits for each
/// input byte, high nibble first.
#[verifier::external_body]
fn hex_encode(b: &Vec<u8>) -> (r: String)
    ensures
        r@.len() == 2 * b@.len(),
        forall|i: int|
            0 <= i < b@.len() ==> #[trigger] r@[2 * i] == hex_digit_char(b@[i] / 16) && r@[2 * i
                + 1] == hex_digit_char(b@[i] % 16),
{
    hex::encode(b)
}

/// Relies on hex::decode: it succeeds exactly on strings of even length made
/// of hex digits of either case, and each digit pair yields one byte, high
/// nibble first.
#[verifier::external_body]
fn hex_decode(s: &str) -> (r: Option<Vec<u8>>)
    ensures
        r is Some <==> valid_hex(s@),
        r matches Some(v) ==> v@.len() * 2 == s@.len() && forall|i: int|
            0 <= i < v@.len() ==> #[trigger] v@[i] == decoded_hex(s@, i),
{
    match hex::decode(s) {
        Ok(v) => Some(v),
        Err(_) => None,
    }
}

/// Encodes raw hash bytes as the hex string the remote chain's wire format
/// carries.
pub fn encode_hash_hex(b: &Vec<u8>) -> (r: String)
    ensures
        r@.len() == 2 * b@.len(),
        forall|i: int|
            0 <= i < b@.len() ==> #[trigger] r@[2 * i] == hex_digit_char(b@[i] / 16) && r@[2 * i
                + 1] == hex_digit_char(b@[i] % 16),
        valid_hex(r@),
    {
    let r = hex_encode(b);
    proof {
        assert forall|i: int| 0 <= i < r@.len() implies is_hex_char(#[trigger] r@[i]) by {
            let j = i / 2;
            assert(r@[2 * j] == hex_digit_char(b@[j] / 16));
            assert(r@[2 * j + 1] == hex_digit_char(b@[j] % 16));
            if i % 2 == 0 {
                assert(i == 2 * j);
            } else {
                assert(i == 2 * j + 1);
            }
        }
    }
    r
}

/// Decodes a hex field of a remote response into raw bytes; `None` exactly
/// when the field is not valid hex.
pub fn decode_hash_hex(s: &String) -> (r: Option<Vec<u8>>)
    ensures
        r is Some <==> valid_hex(s@),
        r matches Some(v) ==> v@.len() * 2 == s@.len() && forall|i: int|
            0 <= i < v@.len() ==> #[trigger] v@[i] == decoded_hex(s@, i),
{
    hex_decode(s.as_str())
}

} // verus!
