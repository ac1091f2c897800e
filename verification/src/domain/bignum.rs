//! Arbitrary-precision unsigned integers, from `num-bigint`.
//!
//! A `BigUint` is opaque to the verifier; what it holds is named by
//! `biguint_digits`, its base-2^32 digits, and the few operations the engine
//! needs are trusted wrappers whose contracts speak of the number those
//! digits denote.

use num_bigint::BigUint;
use vstd::prelude::*;

use crate::text::decimal;

verus! {

#[verifier::external_type_specification]
#[verifier::external_body]
pub struct ExBigUint(num_bigint::BigUint);

/// What a `BigUint` holds: its base-2^32 digits, least significant first
/// (the digits that `BigUint::to_u32_digits` hands out).
pub uninterp spec fn biguint_digits(x: BigUint) -> Seq<u32>;

/// The number that base-2^32 digits denote, least significant digit first.
pub open spec fn digits_value(d: Seq<u32>) -> nat
    decreases d.len(),
{
    if d.len() == 0 {
        0
    } else {
        (d[0] + 0x1_0000_0000 * digits_value(d.drop_first())) as nat
    }
}

/// The number that a `BigUint` denotes.
pub open spec fn big_value(x: BigUint) -> nat {
    digits_value(biguint_digits(x))
}

/// `<BigUint as num_traits::Zero>::zero`: the number zero.
#[verifier::external_body]
pub(crate) fn big_zero() -> (r: BigUint)
    ensures
        digits_value(biguint_digits(r)) == 0,
{
    <BigUint as num_traits::Zero>::zero()
}

/// `<BigUint as num_traits::One>::one`: the number one.
#[verifier::external_body]
pub(crate) fn big_one() -> (r: BigUint)
    ensures
        digits_value(biguint_digits(r)) == 1,
{
    <BigUint as num_traits::One>::one()
}

/// `&BigUint + &BigUint`: the exact sum, which never overflows.
#[verifier::external_body]
pub(crate) fn big_add(a: &BigUint, b: &BigUint) -> (r: BigUint)
    ensures
        digits_value(biguint_digits(r)) == digits_value(biguint_digits(*a)) + digits_value(
            biguint_digits(*b),
        ),
{
    a + b
}

/// `BigUint::to_str_radix` with radix 10: the decimal numeral of the number,
/// without leading zeros (`"0"` for zero).
#[verifier::external_body]
pub(crate) fn big_to_decimal(a: &BigUint) -> (r: String)
    ensures
        r@ == decimal(digits_value(biguint_digits(*a))),
{
    a.to_str_radix(10)
}

} // verus!
