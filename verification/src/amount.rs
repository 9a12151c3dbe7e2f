//! The compiled value: a 256-bit integer that is either unsigned or signed.

use crate::word::{limbs_signed_value, limbs_value};
use vstd::prelude::*;

verus! {

/// A compiled 256-bit integer as four limbs, least significant first.
#[derive(Clone, Copy, Debug, PartialEq, Eq)]
pub enum Amount {
    /// A number from `0` to `2^256 - 1`.
    Unsigned([u64; 4]),
    /// A number from `-2^255` to `2^255 - 1`, in two's complement.
    Signed([u64; 4]),
}

/// The number that an amount stands for, and whether it is a signed one.
pub struct Quantity {
    pub signed: bool,
    pub value: int,
}

impl View for Amount {
    type V = Quantity;

    open spec fn view(&self) -> Quantity {
        match *self {
            Amount::Unsigned(limbs) => Quantity { signed: false, value: limbs_value(limbs) as int },
            Amount::Signed(limbs) => Quantity { signed: true, value: limbs_signed_value(limbs) },
        }
    }
}

impl Amount {
    /// The limbs that the amount is held in.
    pub open spec fn word(self) -> [u64; 4] {
        match self {
            Amount::Unsigned(limbs) => limbs,
            Amount::Signed(limbs) => limbs,
        }
    }

    /// The four limbs, least significant first.
    pub fn limbs(&self) -> (limbs: [u64; 4])
        ensures
            limbs == self.word(),
    {
        match *self {
            Amount::Unsigned(limbs) => limbs,
            Amount::Signed(limbs) => limbs,
        }
    }

    /// Whether the amount is a signed integer.
    pub fn is_signed(&self) -> (signed: bool)
        ensures
            signed == self@.signed,
    {
        match *self {
            Amount::Unsigned(_) => false,
            Amount::Signed(_) => true,
        }
    }
}

} // verus!
