//! Bytes and addresses that are given as hexadecimal text.

use vstd::prelude::*;
use crate::primitives::Address;

verus! {

/// Why the `hex` crate read no bytes from a text.
#[verifier::external_type_specification]
#[verifier::external_body]
pub struct ExHexError(hex::FromHexError);

/// Why alloy read no address from a text.
#[verifier::external_type_specification]
#[verifier::external_body]
pub struct ExAddressError(alloy::primitives::hex::FromHexError);

/// The value of a hexadecimal digit, in either case; `None` for any other
/// character.
pub open spec fn hex_digit(c: char) -> Option<nat> {
    if '0' <= c <= '9' {
        Some((c as nat - '0' as nat) as nat)
    } else if 'a' <= c <= 'f' {
        Some((c as nat - 'a' as nat + 10) as nat)
    } else if 'A' <= c <= 'F' {
        Some((c as nat - 'A' as nat + 10) as nat)
    } else {
        None
    }
}

/// Whether a text spells bytes: an even number of hexadecimal digits and
/// nothing else.
pub open spec fn is_hex_text(text: Seq<char>) -> bool {
    &&& text.len() % 2 == 0
    &&& forall|i: int| 0 <= i < text.len() ==> hex_digit(#[trigger] text[i]) is Some
}

/// The byte that the digits at `2 * i` and `2 * i + 1` spell.
pub open spec fn hex_byte(text: Seq<char>, i: int) -> nat {
    16 * hex_digit(text[2 * i])->Some_0 + hex_digit(text[2 * i + 1])->Some_0
}

/// Whether `bytes` is what the text spells, two digits to the byte.
pub open spec fn spells(text: Seq<char>, bytes: Seq<u8>) -> bool {
    &&& is_hex_text(text)
    &&& 2 * bytes.len() == text.len()
    &&& forall|i: int| 0 <= i < bytes.len() ==> #[trigger] bytes[i] as nat == hex_byte(text, i)
}

/// The address that a text spells, as alloy reads it, or `None` where alloy
/// reads no address from the text.
pub uninterp spec fn address_from_hex(text: Seq<char>) -> Option<Seq<u8>>;

/// `hex::decode`. The crate reads two digits to the byte, upper or lower
/// case, and refuses a text of odd length or with any other character in
/// it; it takes no `0x` before the digits.
#[verifier::external_body]
pub(crate) fn decode_hex(text: &str) -> (result: Result<Vec<u8>, hex::FromHexError>)
    ensures
        result is Ok <==> is_hex_text(text@),
        result matches Ok(bytes) ==> spells(text@, bytes@),
{
    hex::decode(text)
}

/// `Address::from_str`. alloy reads 40 hexadecimal digits, with or without
/// `0x` before them; what it makes of a text depends on the text alone.
#[verifier::external_body]
pub(crate) fn parse_address(text: &str) -> (result: Result<Address, alloy::primitives::hex::FromHexError>)
    ensures
        match result {
            Ok(address) => address_from_hex(text@) == Some(address@),
            Err(_) => address_from_hex(text@) is None,
        },
{
    match <alloy::primitives::Address as core::str::FromStr>::from_str(text) {
        Ok(address) => Ok(Address { bytes: address.into_array() }),
        Err(error) => Err(error),
    }
}

/// The bytes that a text spells in hexadecimal, two digits to the byte and
/// with no prefix, or `None` where the text spells none.
pub fn bytes_from_hex(text: &str) -> (bytes: Option<Vec<u8>>)
    ensures
        bytes is Some <==> is_hex_text(text@),
        bytes matches Some(b) ==> spells(text@, b@),
{
    match decode_hex(text) {
        Ok(bytes) => Some(bytes),
        Err(_) => None,
    }
}

} // verus!
