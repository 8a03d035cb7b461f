//! Whole-number arithmetic behind the crop geometry: rounding a quotient to
//! the nearest pixel and narrowing the result to a pixel dimension.

use vstd::prelude::*;

verus! {

/// `numerator / denominator` rounded to the nearest whole number, a half
/// rounding upward. Meant for `numerator >= 0` and `denominator > 0`.
pub open spec fn rounded_quotient(numerator: int, denominator: int) -> int {
    (2 * numerator + denominator) / (2 * denominator)
}

/// The rounded quotient lies within half a unit of the exact quotient, and
/// it is the only whole number that does (with the half-way case resolved
/// upward).
pub proof fn lemma_rounded_quotient_is_nearest(numerator: int, denominator: int)
    requires
        0 <= numerator,
        0 < denominator,
    ensures
        0 <= rounded_quotient(numerator, denominator),
        2 * denominator * rounded_quotient(numerator, denominator) <= 2 * numerator + denominator,
        2 * numerator + denominator < 2 * denominator * rounded_quotient(numerator, denominator) + 2
            * denominator,
{
    let x = 2 * numerator + denominator;
    let d = 2 * denominator;
    vstd::arithmetic::div_mod::lemma_fundamental_div_mod(x, d);
    vstd::arithmetic::div_mod::lemma_mod_bound(x, d);
    vstd::arithmetic::div_mod::lemma_div_pos_is_pos(x, d);
    assert(d * (x / d) == 2 * denominator * rounded_quotient(numerator, denominator)) by (nonlinear_arith)
        requires
            d == 2 * denominator,
            x / d == rounded_quotient(numerator, denominator),
    ;
}

/// Any whole number within half a unit of the exact quotient (half-way
/// resolved upward) is the rounded quotient.
pub proof fn lemma_rounded_quotient_unique(numerator: int, denominator: int, q: int)
    requires
        0 < denominator,
        2 * denominator * q <= 2 * numerator + denominator,
        2 * numerator + denominator < 2 * denominator * q + 2 * denominator,
    ensures
        q == rounded_quotient(numerator, denominator),
{
    let x = 2 * numerator + denominator;
    let d = 2 * denominator;
    let r = x - d * q;
    assert(x == q * d + r) by (nonlinear_arith)
        requires
            r == x - d * q,
    ;
    vstd::arithmetic::div_mod::lemma_fundamental_div_mod_converse(x, d, q, r);
}

/// Narrows a computed length to a pixel dimension through
/// `num_traits::cast`. For an unsigned source the cast succeeds exactly when
/// the value lies in the range of the target type and then keeps the value.
#[verifier::external_body]
pub(crate) fn cast_dimension(value: u128) -> (dimension: Option<u32>)
    ensures
        dimension == if value <= u32::MAX {
            Some(value as u32)
        } else {
            None::<u32>
        },
{
    num_traits::cast::<u128, u32>(value)
}

/// Computes `rounded_quotient` for operands small enough that doubling the
/// numerator cannot overflow.
pub(crate) fn divide_rounded(numerator: u128, denominator: u64) -> (quotient: u128)
    requires
        denominator > 0,
        numerator <= 0x3fff_ffff_ffff_ffff_ffff_ffff_ffff_ffff,
    ensures
        quotient == rounded_quotient(numerator as int, denominator as int),
{
    let doubled: u128 = 2 * numerator + denominator as u128;
    let divisor: u128 = 2 * (denominator as u128);
    doubled / divisor
}

} // verus!
