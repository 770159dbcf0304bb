//! What the library takes from outside: identifiers read by the `uuid`
//! crate, numbers read by std. Verus takes the contracts in this file on
//! trust.

use vstd::prelude::*;

verus! {

/// The identifier that `uuid::Uuid::parse_str` reads from a text, as the
/// UUID's 128-bit value; `None` where it rejects the text.
pub uninterp spec fn identifier_of(text: Seq<char>) -> Option<u128>;

/// The number that `str::parse::<i64>` reads from a text; `None` where it
/// rejects the text.
pub uninterp spec fn number_of(text: Seq<char>) -> Option<i64>;

/// Calls `uuid::Uuid::parse_str` and hands out the UUID's value as
/// `Uuid::as_u128` gives it. The contract claims only that the outcome is
/// fixed by the text.
#[verifier::external_body]
pub(crate) fn parse_identifier(text: &str) -> (id: Option<u128>)
    ensures
        id == identifier_of(text@),
{
    match uuid::Uuid::parse_str(text) {
        Ok(uuid) => Some(uuid.as_u128()),
        Err(_) => None,
    }
}

/// Calls `str::parse::<i64>`. The contract claims only that the outcome is
/// fixed by the text.
#[verifier::external_body]
pub(crate) fn parse_number(text: &str) -> (number: Option<i64>)
    ensures
        number == number_of(text@),
{
    match text.parse::<i64>() {
        Ok(number) => Some(number),
        Err(_) => None,
    }
}

} // verus!
