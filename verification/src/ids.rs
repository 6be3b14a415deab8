//! Identifiers: UUIDs, held as their 128-bit value, read, made and written by
//! the `uuid` crate.
use uuid::Uuid;
use vstd::arithmetic::power::pow;
use vstd::prelude::*;

verus! {

/// What `uuid::Uuid::parse_str(text)` gives, as the UUID's 128-bit value.
pub uninterp spec fn uuid_from_str(text: Seq<char>) -> Option<u128>;

/// The lower-case hexadecimal digit for `n` (below 16).
pub open spec fn hex_digit(n: int) -> char {
    if n < 10 {
        (48 + n) as char
    } else {
        (87 + n) as char
    }
}

/// The `k`-th of the 32 hexadecimal digits of `id`, the most significant first.
pub open spec fn nibble(id: u128, k: int) -> int {
    (id as int / pow(16, (31 - k) as nat)) % 16
}

/// How many hyphens the hyphenated form has before position `p`.
pub open spec fn hyphens_before(p: int) -> int {
    if p < 8 {
        0
    } else if p < 13 {
        1
    } else if p < 18 {
        2
    } else if p < 23 {
        3
    } else {
        4
    }
}

/// A UUID's hyphenated, lower-case text: its 32 hexadecimal digits, most
/// significant first, in groups of 8, 4, 4, 4 and 12 joined by hyphens.
pub open spec fn uuid_text(id: u128) -> Seq<char> {
    Seq::new(36, |p: int| if p == 8 || p == 13 || p == 18 || p == 23 {
        '-'
    } else {
        hex_digit(nibble(id, p - hyphens_before(p)))
    })
}

/// The bits that mark a random (version 4, RFC 4122 variant) UUID.
pub open spec fn is_random_uuid(id: u128) -> bool {
    id & 0xF000_C000_0000_0000_0000u128 == 0x4000_8000_0000_0000_0000u128
}

/// Reads a UUID with `uuid::Uuid::parse_str` (which accepts the hyphenated,
/// simple, braced and URN forms) and converts a success with `as_u128`.
/// Claims only that the result is the named value for this text.
#[verifier::external_body]
pub(crate) fn parse_uuid(text: &str) -> (r: Option<u128>)
    ensures
        r == uuid_from_str(text@),
{
    match Uuid::parse_str(text) {
        Ok(id) => Some(id.as_u128()),
        Err(_) => None,
    }
}

/// Draws a fresh UUID with `uuid::Uuid::new_v4` and converts it with `as_u128`.
/// The value is random; the crate's source sets the version and variant bits,
/// which is all that is claimed.
#[verifier::external_body]
pub(crate) fn new_uuid() -> (id: u128)
    ensures
        is_random_uuid(id),
{
    Uuid::new_v4().as_u128()
}

/// Writes a UUID with `uuid::Uuid`'s `Display` (`from_u128`, then `to_string`),
/// which writes the hyphenated, lower-case form.
#[verifier::external_body]
pub(crate) fn uuid_to_text(id: u128) -> (text: String)
    ensures
        text@ == uuid_text(id),
{
    Uuid::from_u128(id).to_string()
}

} // verus!
