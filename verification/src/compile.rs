//! Compiling a request: a literal, its decimal places and its sign.

use crate::amount::{Amount, Quantity};
use crate::arith::{i256_checked_sub, i256_try_from_u256};
use crate::diagnostic::{Anchor, Diagnostic, ErrorKind, Fault};
use crate::scale::{magnitude_of, overflow_fault, scale_literal};
use crate::token::{Sign, Token};
use crate::word::{limbs_from_u64, limbs_value, signed_max};
use vstd::prelude::*;

verus! {

/// What is to be compiled.
#[derive(Debug, PartialEq, Eq)]
pub struct Request<'a> {
    /// The tokens of the namespace that the result is to be built in. They
    /// are handed on as they are.
    pub namespace: &'a Vec<Token>,
    /// The number of decimal places of the unit.
    pub decimals: usize,
    /// The sign in front of the literal, if there is one. With a sign the
    /// result is a signed integer, without one an unsigned integer.
    pub sign: Option<Sign>,
    /// The text of the literal: digits, with or without one decimal point.
    pub literal: &'a str,
}

/// A compiled request: the amount, and the namespace whose constructor for
/// unsigned or for signed 256-bit integers is to build it from the limbs.
#[derive(Debug, PartialEq, Eq)]
pub struct Expansion<'a> {
    pub namespace: &'a Vec<Token>,
    pub amount: Amount,
}

/// The quantity that a magnitude becomes under a sign. Without a sign it is
/// the unsigned magnitude. With one, the magnitude has to be at most
/// `2^255 - 1`, and it is negated under a minus.
pub open spec fn quantity_of(magnitude: nat, sign: Option<Sign>) -> Result<Quantity, Fault> {
    match sign {
        None => Ok(Quantity { signed: false, value: magnitude as int }),
        Some(sign) => if magnitude > signed_max() {
            Err(overflow_fault())
        } else if sign == Sign::Minus {
            Ok(Quantity { signed: true, value: -(magnitude as int) })
        } else {
            Ok(Quantity { signed: true, value: magnitude as int })
        },
    }
}

/// The quantity that a literal compiles to, or the first failure.
pub open spec fn compiled(literal: Seq<char>, decimals: nat, sign: Option<Sign>) -> Result<
    Quantity,
    Fault,
> {
    match magnitude_of(literal, decimals) {
        Err(fault) => Err(fault),
        Ok(magnitude) => quantity_of(magnitude, sign),
    }
}

/// Puts a sign to an unsigned magnitude.
pub fn apply_sign(magnitude: [u64; 4], sign: Option<Sign>) -> (r: Result<Amount, Diagnostic>)
    ensures
        match r {
            Ok(amount) => quantity_of(limbs_value(magnitude), sign) == Ok::<Quantity, Fault>(
                amount@,
            ),
            Err(d) => quantity_of(limbs_value(magnitude), sign) == Err::<Quantity, Fault>(d@),
        },
{
    let sign = match sign {
        Some(sign) => sign,
        None => {
            return Ok(Amount::Unsigned(magnitude));
        },
    };
    let value = match i256_try_from_u256(magnitude) {
        Some(value) => value,
        None => {
            return Err(Diagnostic::new(ErrorKind::Overflow, Anchor::Literal, "overflow"));
        },
    };
    match sign {
        Sign::Plus => Ok(Amount::Signed(value)),
        Sign::Minus => match i256_checked_sub(limbs_from_u64(0), value) {
            Some(negated) => Ok(Amount::Signed(negated)),
            None => Err(Diagnostic::new(ErrorKind::Overflow, Anchor::Literal, "overflow")),
        },
    }
}

/// Compiles a request into a 256-bit integer: unsigned where the request
/// has no sign, signed where it has one.
pub fn compile<'a>(request: &Request<'a>) -> (r: Result<Expansion<'a>, Diagnostic>)
    ensures
        match r {
            Ok(expansion) => expansion.namespace == request.namespace && compiled(
                request.literal@,
                request.decimals as nat,
                request.sign,
            ) == Ok::<Quantity, Fault>(expansion.amount@),
            Err(d) => compiled(request.literal@, request.decimals as nat, request.sign) == Err::<
                Quantity,
                Fault,
            >(d@),
        },
{
    let magnitude = scale_literal(request.literal, request.decimals)?;
    let amount = apply_sign(magnitude, request.sign)?;
    Ok(Expansion { namespace: request.namespace, amount })
}

} // verus!
