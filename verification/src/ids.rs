//! Identifiers that come from the `uuid` crate. Pane and workspace UUIDs are
//! held as their 128-bit value; the crate produces fresh ones and renders
//! them as text.
use vstd::prelude::*;

verus! {

/// The lower-case hexadecimal digit of `n` (`n` below 16).
pub open spec fn hex_digit(n: u128) -> char {
    if n < 10 {
        (n + 48) as char
    } else {
        (n + 87) as char
    }
}

/// The index, among the 32 hex digits, of the digit at position `i` of the
/// hyphenated form (positions 8, 13, 18 and 23 hold hyphens).
pub open spec fn uuid_digit_index(i: int) -> int {
    if i < 8 {
        i
    } else if i < 13 {
        i - 1
    } else if i < 18 {
        i - 2
    } else if i < 23 {
        i - 3
    } else {
        i - 4
    }
}

/// The hyphenated text of the UUID whose big-endian 128-bit value is
/// `value`: 32 lower-case hex digits, most significant first, in groups of
/// 8-4-4-4-12 joined by hyphens (e.g. "a1a2a3a4-b1b2-c1c2-d1d2-d3d4d5d6d7d8").
pub open spec fn uuid_text(value: u128) -> Seq<char> {
    Seq::new(
        36,
        |i: int|
            if i == 8 || i == 13 || i == 18 || i == 23 {
                '-'
            } else {
                hex_digit((value >> ((124 - 4 * uuid_digit_index(i)) as u128)) & 0xfu128)
            },
    )
}

/// The value of the nil UUID (`uuid::Uuid::nil()`, all bits zero).
pub open spec fn nil_uuid() -> u128 {
    0
}

/// Whether `value` is a random (version 4) UUID: its version field (bits
/// 76..80) holds 4 and its variant field (bits 62..64) holds the RFC 4122
/// pattern `10`.
pub open spec fn is_v4_uuid(value: u128) -> bool {
    &&& (value >> 76u128) & 0xfu128 == 4u128
    &&& (value >> 62u128) & 0x3u128 == 2u128
}

/// Calls `uuid::Uuid::new_v4()` and returns the new UUID as its 128-bit
/// value. The value is random; all that is claimed of it is what
/// `new_v4`'s source shows: the version field (bits 76..80) holds 4 and the
/// variant field (bits 62..64) holds the RFC 4122 pattern `10`.
#[verifier::external_body]
pub(crate) fn new_random_uuid() -> (value: u128)
    ensures
        is_v4_uuid(value),
{
    uuid::Uuid::new_v4().as_u128()
}

/// Calls `to_string()` (the `Display` impl) on `uuid::Uuid::from_u128(value)`.
/// Claimed, as the crate's source shows (`from_u128` stores the value
/// big-endian; `Display` writes the hyphenated lower-case form): the text is
/// `uuid_text(value)`.
#[verifier::external_body]
pub(crate) fn uuid_to_string(value: u128) -> (text: String)
    ensures
        text@ == uuid_text(value),
{
    uuid::Uuid::from_u128(value).to_string()
}

} // verus!
