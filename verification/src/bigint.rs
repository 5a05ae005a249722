//! Arbitrary-precision arithmetic, done by `num_bigint` on numbers written as big-endian bytes.
//!
//! The contracts here are not proved: each states the arithmetic that `num_bigint` documents for
//! the operation it calls. `BigUint::from_bytes_be` and `BigUint::to_bytes_be` carry the numbers
//! in and out; the first reads the empty string as zero.
use num_bigint::BigUint;
use num_traits::{One, ToPrimitive};
use vstd::arithmetic::power2::pow2;
use vstd::prelude::*;

use crate::bytes::be_nat;

verus! {

/// `One::one` shifted left with `<<`, which gives the power of two of that exponent.
#[verifier::external_body]
pub(crate) fn power_of_two(exponent: u32) -> (power: Vec<u8>)
    ensures
        be_nat(power@) == pow2(exponent as nat),
{
    (BigUint::one() << exponent).to_bytes_be()
}

/// `*` on `BigUint`: the product, of any size.
#[verifier::external_body]
pub(crate) fn product(left: &[u8], right: &[u8]) -> (result: Vec<u8>)
    ensures
        be_nat(result@) == be_nat(left@) * be_nat(right@),
{
    (BigUint::from_bytes_be(left) * BigUint::from_bytes_be(right)).to_bytes_be()
}

/// `/` on `BigUint`: the quotient rounded down. It panics on a zero divisor.
#[verifier::external_body]
pub(crate) fn quotient(dividend: &[u8], divisor: &[u8]) -> (result: Vec<u8>)
    requires
        be_nat(divisor@) != 0,
    ensures
        be_nat(result@) == be_nat(dividend@) / be_nat(divisor@),
{
    (BigUint::from_bytes_be(dividend) / BigUint::from_bytes_be(divisor)).to_bytes_be()
}

/// `%` on `BigUint`: the remainder of the rounded-down division. It panics on a zero divisor.
#[verifier::external_body]
pub(crate) fn remainder(dividend: &[u8], divisor: usize) -> (result: Vec<u8>)
    requires
        divisor != 0,
    ensures
        be_nat(result@) == be_nat(dividend@) % (divisor as nat),
{
    (BigUint::from_bytes_be(dividend) % BigUint::from(divisor)).to_bytes_be()
}

/// `ToPrimitive::to_u128` on `BigUint`: the same number, when it fits.
#[verifier::external_body]
pub(crate) fn to_u128(value: &[u8]) -> (result: Option<u128>)
    ensures
        be_nat(value@) <= u128::MAX ==> result == Some(be_nat(value@) as u128),
        be_nat(value@) > u128::MAX ==> result is None,
{
    BigUint::from_bytes_be(value).to_u128()
}

/// `TryFrom<BigUint>` of `u32`: the same number, when it fits.
#[verifier::external_body]
pub(crate) fn to_u32(value: &[u8]) -> (result: Option<u32>)
    ensures
        be_nat(value@) <= u32::MAX ==> result == Some(be_nat(value@) as u32),
        be_nat(value@) > u32::MAX ==> result is None,
{
    u32::try_from(BigUint::from_bytes_be(value)).ok()
}

} // verus!
