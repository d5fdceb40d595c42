//! Identifiers: UUIDs, read from text, written as text, and made anew.

use vstd::prelude::*;
use vstd::arithmetic::power::pow;

verus! {

/// The identifier that a text spells, or `None` where it spells none. The
/// accepted spellings are those of the `uuid` crate: 32 hexadecimal digits,
/// plain, hyphenated, in braces or as a URN.
pub uninterp spec fn parsed_uuid(text: Seq<char>) -> Option<u128>;

/// `Uuid::parse_str`, the identifier taken as its 128-bit value
/// (`Uuid::as_u128`): the result is a function of the text alone.
#[verifier::external_body]
pub(crate) fn uuid_from_text(text: &str) -> (id: Option<u128>)
    ensures
        id == parsed_uuid(text@),
{
    match uuid::Uuid::parse_str(text) {
        Ok(id) => Some(id.as_u128()),
        Err(_) => None,
    }
}

/// The lower-case hexadecimal digit for a value below 16.
pub open spec fn hex_digit(value: int) -> char {
    seq!['0', '1', '2', '3', '4', '5', '6', '7', '8', '9', 'a', 'b', 'c', 'd', 'e', 'f'][value]
}

/// The hexadecimal digit of `id` at `place`, counted from the most
/// significant of its 32 digits.
pub open spec fn digit_at(id: u128, place: int) -> int {
    (id as int / pow(16, (31 - place) as nat)) % 16
}

/// The hyphenated form of an identifier: its 32 lower-case hexadecimal
/// digits, most significant first, in groups of 8, 4, 4, 4 and 12.
pub open spec fn hyphenated(id: u128) -> Seq<char> {
    Seq::new(
        36,
        |i: int|
            if i == 8 || i == 13 || i == 18 || i == 23 {
                '-'
            } else if i < 8 {
                hex_digit(digit_at(id, i))
            } else if i < 13 {
                hex_digit(digit_at(id, i - 1))
            } else if i < 18 {
                hex_digit(digit_at(id, i - 2))
            } else if i < 23 {
                hex_digit(digit_at(id, i - 3))
            } else {
                hex_digit(digit_at(id, i - 4))
            },
    )
}

/// `Uuid::from_u128`, `Uuid::hyphenated` and the `to_string` of that form:
/// the 36 characters that the crate documents for it.
#[verifier::external_body]
pub(crate) fn uuid_to_text(id: u128) -> (text: String)
    ensures
        text@ == hyphenated(id),
{
    uuid::Uuid::from_u128(id).hyphenated().to_string()
}

/// Whether `id` is marked as a random identifier: version 4 in its 13th
/// hexadecimal digit, and the two highest bits of its 17th digit set to 1, 0.
pub open spec fn is_random_uuid(id: u128) -> bool {
    &&& digit_at(id, 12) == 4
    &&& 8 <= digit_at(id, 16) < 12
}

/// `Uuid::new_v4`, taken as its 128-bit value: random bits, but for the marks
/// of version and variant.
#[verifier::external_body]
pub(crate) fn uuid_at_random() -> (id: u128)
    ensures
        is_random_uuid(id),
{
    uuid::Uuid::new_v4().as_u128()
}

} // verus!
