//! 256-bit arithmetic, done by `alloy_primitives` on limbs.
//!
//! Each function here hands its arguments to one function of that crate and
//! gives the limbs of the answer back. Their contracts are taken on trust.

use crate::decimal::{digits_value, is_numeral};
use crate::word::{limbs_signed_value, limbs_value, signed_max, unsigned_max};
use alloy_primitives::{I256, U256};
use vstd::arithmetic::power::pow;
use vstd::prelude::*;

verus! {

/// The message with which `U256::from_str_radix` turns a text down.
pub uninterp spec fn radix_parse_failure(text: Seq<char>, radix: u64) -> Seq<char>;

/// `U256::from_str_radix` in base ten. It accepts digits, skips underscores
/// and fails on any other character and on a number above `2^256 - 1`; the
/// message of a failure is that of its error.
#[verifier::external_body]
pub(crate) fn u256_from_str_radix(text: &str, radix: u64) -> (r: Result<[u64; 4], String>)
    requires
        radix == 10,
    ensures
        match r {
            Ok(limbs) => is_numeral(text@) && limbs_value(limbs) == digits_value(text@),
            Err(message) => message@ == radix_parse_failure(text@, radix) && !(is_numeral(text@)
                && digits_value(text@) <= unsigned_max()),
        },
{
    match U256::from_str_radix(text, radix) {
        Ok(value) => Ok(value.into_limbs()),
        Err(error) => Err(error.to_string()),
    }
}

/// `U256::checked_pow`: the power, unless it is above `2^256 - 1`.
#[verifier::external_body]
pub(crate) fn u256_checked_pow(base: [u64; 4], exp: [u64; 4]) -> (r: Option<[u64; 4]>)
    ensures
        r is Some <==> pow(limbs_value(base) as int, limbs_value(exp)) <= unsigned_max(),
        r matches Some(limbs) ==> limbs_value(limbs) == pow(
            limbs_value(base) as int,
            limbs_value(exp),
        ),
{
    U256::from_limbs(base).checked_pow(U256::from_limbs(exp)).map(U256::into_limbs)
}

/// `U256::checked_mul`: the product, unless it is above `2^256 - 1`.
#[verifier::external_body]
pub(crate) fn u256_checked_mul(a: [u64; 4], b: [u64; 4]) -> (r: Option<[u64; 4]>)
    ensures
        r is Some <==> limbs_value(a) * limbs_value(b) <= unsigned_max(),
        r matches Some(limbs) ==> limbs_value(limbs) == limbs_value(a) * limbs_value(b),
{
    U256::from_limbs(a).checked_mul(U256::from_limbs(b)).map(U256::into_limbs)
}

/// `U256::checked_add`: the sum, unless it is above `2^256 - 1`.
#[verifier::external_body]
pub(crate) fn u256_checked_add(a: [u64; 4], b: [u64; 4]) -> (r: Option<[u64; 4]>)
    ensures
        r is Some <==> limbs_value(a) + limbs_value(b) <= unsigned_max(),
        r matches Some(limbs) ==> limbs_value(limbs) == limbs_value(a) + limbs_value(b),
{
    U256::from_limbs(a).checked_add(U256::from_limbs(b)).map(U256::into_limbs)
}

/// `I256::try_from` on a `U256`: the same limbs, unless the number is above
/// `2^255 - 1`.
#[verifier::external_body]
pub(crate) fn i256_try_from_u256(a: [u64; 4]) -> (r: Option<[u64; 4]>)
    ensures
        r is Some <==> limbs_value(a) <= signed_max(),
        r matches Some(limbs) ==> limbs == a,
{
    I256::try_from(U256::from_limbs(a)).ok().map(I256::into_limbs)
}

/// `I256::checked_sub`: the difference of two two's-complement numbers,
/// unless it lies outside `-2^255 ..= 2^255 - 1`.
#[verifier::external_body]
pub(crate) fn i256_checked_sub(a: [u64; 4], b: [u64; 4]) -> (r: Option<[u64; 4]>)
    ensures
        r is Some <==> -signed_max() - 1 <= limbs_signed_value(a) - limbs_signed_value(b)
            <= signed_max(),
        r matches Some(limbs) ==> limbs_signed_value(limbs) == limbs_signed_value(a)
            - limbs_signed_value(b),
{
    I256::from_limbs(a).checked_sub(I256::from_limbs(b)).map(I256::into_limbs)
}

} // verus!
