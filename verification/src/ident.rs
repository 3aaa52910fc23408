//! USB identities written as four hex digits.

use vstd::prelude::*;
use hex::FromHex;
use hex::FromHexError;

verus! {

#[verifier::external_type_specification]
#[verifier::external_body]
pub struct ExFromHexError(hex::FromHexError);

/// The value of a hex digit, upper or lower case; nothing for any other
/// byte.
pub open spec fn hex_digit(c: u8) -> Option<int> {
    if 0x30 <= c <= 0x39 {
        Some(c - 0x30)
    } else if 0x41 <= c <= 0x46 {
        Some(c - 0x41 + 10)
    } else if 0x61 <= c <= 0x66 {
        Some(c - 0x61 + 10)
    } else {
        None
    }
}

/// The two bytes that a text of exactly four hex digits stands for, the
/// first digit of each pair being the high one.
pub open spec fn hex_pair(text: Seq<u8>) -> Option<(u8, u8)> {
    if text.len() == 4 && hex_digit(text[0]) is Some && hex_digit(text[1]) is Some && hex_digit(
        text[2],
    ) is Some && hex_digit(text[3]) is Some {
        Some(
            (
                (16 * hex_digit(text[0])->0 + hex_digit(text[1])->0) as u8,
                (16 * hex_digit(text[2])->0 + hex_digit(text[3])->0) as u8,
            ),
        )
    } else {
        None
    }
}

/// The identity that a text of four hex digits stands for, read big
/// endian.
pub open spec fn hex_id(text: Seq<u8>) -> Option<u16> {
    match hex_pair(text) {
        Some((high, low)) => Some((high as int * 256 + low as int) as u16),
        None => None,
    }
}

/// Calls `<[u8; 2] as hex::FromHex>::from_hex`. It succeeds exactly on a
/// text of four hex digits, of either case, and each byte it gives is
/// sixteen times the first digit of its pair plus the second. Any other
/// text is an error, whose kind is not stated here.
#[verifier::external_body]
fn decode_hex_pair(text: &[u8]) -> (bytes: Result<[u8; 2], FromHexError>)
    ensures
        match bytes {
            Ok(pair) => hex_pair(text@) == Some((pair@[0], pair@[1])),
            Err(_) => hex_pair(text@) is None,
        },
{
    <[u8; 2]>::from_hex(text)
}

/// Reads a vendor or product identity from its four hex digits.
pub fn parse_id(text: &[u8]) -> (id: Option<u16>)
    ensures
        id == hex_id(text@),
        id is Some <==> hex_pair(text@) is Some,
{
    match decode_hex_pair(text) {
        Ok(pair) => {
            let high: u16 = pair[0] as u16;
            let low: u16 = pair[1] as u16;
            Some(high * 256 + low)
        },
        Err(_) => None,
    }
}

} // verus!
