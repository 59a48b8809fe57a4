//! Arbitrary-precision decimals, as the `bigdecimal` crate holds them.

use vstd::prelude::*;
use bigdecimal::BigDecimal;

verus! {

#[verifier::external_type_specification]
#[verifier::external_body]
pub struct ExBigDecimal(bigdecimal::BigDecimal);

/// What `BigDecimal`'s `FromStr` makes of a text: the decimal it denotes, or
/// nothing where the text denotes none.
pub uninterp spec fn parsed_decimal(text: Seq<char>) -> Option<BigDecimal>;

/// The `BigDecimal` that stands for a whole number.
pub uninterp spec fn decimal_of(number: int) -> BigDecimal;

/// `str::parse::<BigDecimal>`: the decimal that `text` denotes. The result is
/// a function of the text alone.
#[verifier::external_body]
pub(crate) fn parse_decimal(text: &str) -> (r: Option<BigDecimal>)
    ensures
        r == parsed_decimal(text@),
{
    text.parse().ok()
}

/// `BigDecimal::from` of an `i32`: the decimal with that value.
#[verifier::external_body]
pub(crate) fn decimal_from(number: i32) -> (r: BigDecimal)
    ensures
        r == decimal_of(number as int),
{
    BigDecimal::from(number)
}

/// The decimal that `text` denotes, and zero where it denotes none.
pub open spec fn lenient_decimal(text: Seq<char>) -> BigDecimal {
    match parsed_decimal(text) {
        Some(value) => value,
        None => decimal_of(0),
    }
}

/// Reads a decimal leniently: a text that denotes no decimal reads as zero.
pub fn decimal_or_zero(text: &str) -> (r: BigDecimal)
    ensures
        r == lenient_decimal(text@),
{
    match parse_decimal(text) {
        Some(value) => value,
        None => decimal_from(0),
    }
}

} // verus!
