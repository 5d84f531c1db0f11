//! Decimal amounts. Prices, sizes and balances are values of `rust_decimal::Decimal`, which the
//! library carries and never looks into.

use rust_decimal::Decimal;
use vstd::prelude::*;

verus! {

/// The decimal type of the `rust_decimal` crate, as an opaque value.
#[verifier::external_type_specification]
#[verifier::external_body]
pub struct ExDecimal(rust_decimal::Decimal);

/// The decimal `num / 10^scale`, in the form in which `Decimal::new` builds it.
pub uninterp spec fn decimal_of(num: i64, scale: u32) -> Decimal;

/// Calls `Decimal::new`, which builds the decimal `num / 10^scale` and panics on a scale above 28.
/// Believed of it: what it builds depends on its two arguments alone.
#[verifier::external_body]
pub(crate) fn new_decimal(num: i64, scale: u32) -> (decimal: Decimal)
    requires
        scale <= 28,
    ensures
        decimal == decimal_of(num, scale),
{
    Decimal::new(num, scale)
}

/// `Clone::clone` of `Decimal`, a plain copy of the value.
pub assume_specification[ <Decimal as Clone>::clone ](decimal: &Decimal) -> (copy: Decimal)
    ensures
        copy == *decimal,
;

/// The decimal zero.
pub open spec fn zero() -> Decimal {
    decimal_of(0, 0)
}

/// The decimal zero.
pub fn decimal_zero() -> (decimal: Decimal)
    ensures
        decimal == zero(),
{
    new_decimal(0, 0)
}

/// The decimal that a number was turned into, or zero where there is none.
pub fn decimal_or_zero(decimal: Option<Decimal>) -> (amount: Decimal)
    ensures
        amount == (match decimal {
            Some(decimal) => decimal,
            None => zero(),
        }),
{
    match decimal {
        Some(decimal) => decimal,
        None => decimal_zero(),
    }
}

} // verus!
