//! Universally unique identifiers, held as their 128-bit value.
//!
//! Requests, sessions and actor systems are all named by a UUID. The library
//! keeps the 128-bit big-endian value and leaves parsing, printing and random
//! generation to the `uuid` crate.
use vstd::prelude::*;

verus! {

/// A UUID as its 128-bit big-endian value.
pub type Id = u128;

/// What `uuid::Uuid::parse_str` makes of a text: the 128-bit value of the
/// UUID it reads, or `None` where it rejects the text.
pub uninterp spec fn uuid_parse(text: Seq<char>) -> Option<u128>;

/// The hexadecimal digit, in lower case, for a value below sixteen.
pub open spec fn hex_digit(value: int) -> char {
    if value < 10 {
        (48 + value) as char
    } else {
        (87 + value) as char
    }
}

/// The value of the `k`-th of the 32 hexadecimal digits of `id`, the most
/// significant first.
pub open spec fn hex_value(id: u128, k: int) -> int {
    ((id >> ((124 - 4 * k) as u128)) & 0xf) as int
}

/// How many hyphens stand before the place `i` of the text of a UUID.
pub open spec fn hyphens_before(i: int) -> int {
    if i < 8 {
        0
    } else if i < 13 {
        1
    } else if i < 18 {
        2
    } else if i < 23 {
        3
    } else {
        4
    }
}

/// The text of a UUID: its 32 hexadecimal digits in lower case, in groups
/// of 8, 4, 4, 4 and 12 with a hyphen between one group and the next.
pub open spec fn uuid_text(id: u128) -> Seq<char> {
    Seq::new(
        36,
        |i: int|
            if i == 8 || i == 13 || i == 18 || i == 23 {
                '-'
            } else {
                hex_digit(hex_value(id, i - hyphens_before(i)))
            },
    )
}

/// The bits that every version 4 UUID of the RFC variant has in common.
pub open spec fn is_random_uuid(id: u128) -> bool {
    id & 0x0000_0000_0000_f000_c000_0000_0000_0000u128
        == 0x0000_0000_0000_4000_8000_0000_0000_0000u128
}

/// Calls `uuid::Uuid::parse_str` (through `FromStr`) and `Uuid::as_u128`.
/// The contract only names the outcome: the same text always parses to the
/// same value or is always rejected.
#[verifier::external_body]
pub(crate) fn parse_uuid(text: &str) -> (id: Option<u128>)
    ensures
        id == uuid_parse(text@),
{
    match text.parse::<uuid::Uuid>() {
        Ok(uuid) => Some(uuid.as_u128()),
        Err(_) => None,
    }
}

/// Calls `uuid::Uuid::from_u128` and the `Display` of the result, which
/// prints the value in the lower-case hyphenated form. `Uuid::parse_str`
/// accepts every form that the crate prints, and reads the value back from
/// it.
#[verifier::external_body]
pub(crate) fn format_uuid(id: u128) -> (text: String)
    ensures
        text@ == uuid_text(id),
        uuid_parse(text@) == Some(id),
{
    uuid::Uuid::from_u128(id).to_string()
}

/// Calls `uuid::Uuid::new_v4` and `Uuid::as_u128`. The value is random; the
/// crate fixes only its version and variant bits.
#[verifier::external_body]
pub(crate) fn random_uuid() -> (id: u128)
    ensures
        is_random_uuid(id),
{
    uuid::Uuid::new_v4().as_u128()
}

} // verus!
