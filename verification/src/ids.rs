//! Universally unique identifiers as 128-bit numbers.

use vstd::prelude::*;

verus! {

/// The hexadecimal digit of a number below sixteen, in lower case.
pub open spec fn hex_digit(n: int) -> char {
    if n < 10 {
        ('0' as int + n) as char
    } else {
        ('a' as int + n - 10) as char
    }
}

/// How many of the four hyphens stand before this place of the text.
pub open spec fn hyphens_before(place: int) -> int {
    if place <= 8 {
        0
    } else if place <= 13 {
        1
    } else if place <= 18 {
        2
    } else if place <= 23 {
        3
    } else {
        4
    }
}

/// The hyphenated text of an identifier: its thirty-two hexadecimal digits, the
/// highest first, in groups of eight, four, four, four and twelve.
#[verifier::opaque]
pub open spec fn id_text(id: u128) -> Seq<char> {
    Seq::new(
        36,
        |place: int|
            if place == 8 || place == 13 || place == 18 || place == 23 {
                '-'
            } else {
                let above = 31 - (place - hyphens_before(place));
                hex_digit((id as int / vstd::arithmetic::power::pow(16, above as nat)) % 16)
            },
    )
}

/// The identifier that the `uuid` crate reads from a text, if it reads one.
pub uninterp spec fn parsed_id(text: Seq<char>) -> Option<u128>;

/// Calls `to_string` on the `uuid::Uuid` with this number, which writes its
/// digits in lower case, hyphenated.
#[verifier::external_body]
pub(crate) fn text_of_id(id: u128) -> (r: String)
    ensures
        r@ == id_text(id),
{
    uuid::Uuid::from_u128(id).to_string()
}

/// Calls `uuid::Uuid::parse_str`. What it reads is named; the text that the
/// crate itself writes for an identifier is read back as that identifier.
#[verifier::external_body]
pub(crate) fn parse_id(text: &str) -> (r: Option<u128>)
    ensures
        r == parsed_id(text@),
        forall|id: u128| text@ == #[trigger] id_text(id) ==> r == Some(id),
{
    match uuid::Uuid::parse_str(text) {
        Ok(id) => Some(id.as_u128()),
        Err(_) => None,
    }
}

} // verus!
