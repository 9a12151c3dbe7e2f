//! Reading the count of decimal places.

use crate::decimal::{digit_of, digit_value, is_digit};
use vstd::prelude::*;
use vstd::string::StrSliceExecFns;

verus! {

/// Why a text is no count of decimal places.
#[derive(Clone, Copy, Debug, PartialEq, Eq, Structural)]
pub enum PlacesFault {
    /// The text is empty.
    Empty,
    /// A character is no digit, or a sign stands alone.
    InvalidDigit,
    /// The number does not fit in `usize`.
    TooLarge,
}

/// Reads digits from the left and stops at the first character that is no
/// digit, or at the first digit with which the number leaves `usize`.
pub open spec fn scan_places(digits: Seq<char>) -> Result<nat, PlacesFault>
    decreases digits.len(),
{
    if digits.len() == 0 {
        Ok(0)
    } else {
        match scan_places(digits.drop_last()) {
            Err(fault) => Err(fault),
            Ok(n) => if !is_digit(digits.last()) {
                Err(PlacesFault::InvalidDigit)
            } else if n * 10 + digit_value(digits.last()) > usize::MAX {
                Err(PlacesFault::TooLarge)
            } else {
                Ok(n * 10 + digit_value(digits.last()))
            },
        }
    }
}

/// The count that a text writes: one or more digits, with or without a `+`
/// in front of them.
pub open spec fn places_of(text: Seq<char>) -> Result<nat, PlacesFault> {
    if text.len() == 0 {
        Err(PlacesFault::Empty)
    } else if text[0] == '+' {
        if text.len() == 1 {
            Err(PlacesFault::InvalidDigit)
        } else {
            scan_places(text.skip(1))
        }
    } else {
        scan_places(text)
    }
}

/// Reads a count of decimal places.
pub fn parse_places(text: &str) -> (r: Result<usize, PlacesFault>)
    ensures
        match r {
            Ok(n) => places_of(text@) == Ok::<nat, PlacesFault>(n as nat),
            Err(fault) => places_of(text@) == Err::<nat, PlacesFault>(fault),
        },
{
    let len = text.unicode_len();
    if len == 0 {
        return Err(PlacesFault::Empty);
    }
    let start: usize = if text.get_char(0) == '+' {
        1
    } else {
        0
    };
    if start == len {
        return Err(PlacesFault::InvalidDigit);
    }
    let ghost digits = text@.skip(start as int);
    let mut n: usize = 0;
    let mut i: usize = start;
    proof {
        assert(digits.subrange(0, 0) =~= Seq::<char>::empty());
        assert(start == 0 ==> digits =~= text@);
    }
    while i < len
        invariant
            start <= i <= len,
            len == text@.len(),
            digits == text@.skip(start as int),
            places_of(text@) == scan_places(digits),
            scan_places(digits.subrange(0, i - start)) == Ok::<nat, PlacesFault>(n as nat),
        decreases len - i,
    {
        let c = text.get_char(i);
        proof {
            let step = digits.subrange(0, i - start + 1);
            assert(step.drop_last() =~= digits.subrange(0, i - start));
            assert(step.last() == c);
            if scan_places(step) is Err {
                lemma_scan_places_fails_on(digits, i - start + 1);
            }
        }
        match digit_of(c) {
            None => {
                return Err(PlacesFault::InvalidDigit);
            },
            Some(d) => {
                if n > (usize::MAX - d as usize) / 10 {
                    return Err(PlacesFault::TooLarge);
                }
                n = n * 10 + d as usize;
            },
        }
        i += 1;
    }
    proof {
        assert(digits.subrange(0, len - start) =~= digits);
    }
    Ok(n)
}

/// A failure on a prefix is the failure on the whole.
pub proof fn lemma_scan_places_fails_on(digits: Seq<char>, k: int)
    requires
        0 <= k <= digits.len(),
        scan_places(digits.subrange(0, k)) is Err,
    ensures
        scan_places(digits) == scan_places(digits.subrange(0, k)),
    decreases digits.len() - k,
{
    if k < digits.len() {
        let next = digits.subrange(0, k + 1);
        assert(next.drop_last() =~= digits.subrange(0, k));
        lemma_scan_places_fails_on(digits, k + 1);
    } else {
        assert(digits.subrange(0, k) =~= digits);
    }
}

} // verus!
