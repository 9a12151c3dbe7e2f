//! From the text of a literal to its scaled 256-bit magnitude.

use crate::arith::{
    radix_parse_failure, u256_checked_add, u256_checked_mul, u256_checked_pow,
    u256_from_str_radix,
};
use crate::decimal::{digit_count, digit_of, digits_value, is_numeral, is_numeral_text};
use crate::diagnostic::{Anchor, Diagnostic, ErrorKind, Fault};
use crate::word::{lemma_limbs_value_bound, limbs_from_u64, limbs_value, unsigned_max};
use vstd::arithmetic::power::{lemma_pow_positive, pow};
use vstd::prelude::*;
use vstd::string::StrSliceExecFns;

verus! {

/// The pieces between the decimal points of a text, from left to right.
/// A text without a point is one piece.
pub open spec fn split_points(text: Seq<char>) -> Seq<Seq<char>>
    decreases text.len(),
{
    if text.len() == 0 {
        seq![Seq::<char>::empty()]
    } else {
        let before = split_points(text.drop_last());
        if text.last() == '.' {
            before.push(Seq::<char>::empty())
        } else {
            before.drop_last().push(before.last().push(text.last()))
        }
    }
}

/// `10^n`.
pub open spec fn power_of_ten(n: nat) -> nat {
    pow(10, n) as nat
}

/// A piece that reads as a number of at most 256 bits: digits and
/// underscores only.
pub open spec fn piece_parses(piece: Seq<char>) -> bool {
    is_numeral(piece) && digits_value(piece) <= unsigned_max()
}

/// The literal holds more than one decimal point.
pub open spec fn several_points_fault() -> Fault {
    Fault { kind: ErrorKind::Shape, anchor: Anchor::Literal, message: "expected literal"@ }
}

/// A piece of the literal was turned down with a message. A piece of digits
/// and underscores is turned down for its size alone, which is an overflow;
/// any other piece is no number.
pub open spec fn piece_fault(piece: Seq<char>, message: Seq<char>) -> Fault {
    Fault {
        kind: if is_numeral(piece) {
            ErrorKind::Overflow
        } else {
            ErrorKind::Parse
        },
        anchor: Anchor::Literal,
        message,
    }
}

/// A piece of the literal is no base-ten number of at most 256 bits. The
/// message is the parser's own.
pub open spec fn parse_fault(piece: Seq<char>) -> Fault {
    piece_fault(piece, radix_parse_failure(piece, 10))
}

/// The literal has more fractional digits than there are decimal places.
pub open spec fn precision_fault() -> Fault {
    Fault { kind: ErrorKind::Precision, anchor: Anchor::Literal, message: "too many decimals"@ }
}

/// The value leaves the 256-bit range.
pub open spec fn overflow_fault() -> Fault {
    Fault { kind: ErrorKind::Overflow, anchor: Anchor::Literal, message: "overflow"@ }
}

/// The integer part times `10^decimals`, plus the fractional digits moved
/// up to fill the decimal places.
pub open spec fn scaled_value(whole: Seq<char>, fraction: Seq<char>, decimals: nat) -> nat {
    digits_value(whole) * power_of_ten(decimals) + digits_value(fraction) * power_of_ten(
        (decimals - digit_count(fraction)) as nat,
    )
}

/// The unsigned magnitude of a literal at a number of decimal places, or
/// the first failure on the way to it: more than one point, an integer part
/// that does not parse, a fractional part that does not parse, too many
/// fractional digits, a value above `2^256 - 1`.
pub open spec fn magnitude_of(literal: Seq<char>, decimals: nat) -> Result<nat, Fault> {
    let pieces = split_points(literal);
    let whole = pieces[0];
    let fraction = if pieces.len() == 2 {
        pieces[1]
    } else {
        Seq::<char>::empty()
    };
    if pieces.len() > 2 {
        Err(several_points_fault())
    } else if !piece_parses(whole) {
        Err(parse_fault(whole))
    } else if !piece_parses(fraction) {
        Err(parse_fault(fraction))
    } else if digit_count(fraction) > decimals {
        Err(precision_fault())
    } else if scaled_value(whole, fraction, decimals) > unsigned_max() {
        Err(overflow_fault())
    } else {
        Ok(scaled_value(whole, fraction, decimals))
    }
}

/// Splits a literal at its decimal point. `None` when it has several.
pub fn split_literal<'a>(literal: &'a str) -> (r: Option<(&'a str, Option<&'a str>)>)
    ensures
        match r {
            None => split_points(literal@).len() > 2,
            Some((whole, None)) => split_points(literal@) == seq![whole@],
            Some((whole, Some(fraction))) => split_points(literal@) == seq![whole@, fraction@],
        },
{
    let len = literal.unicode_len();
    let mut first: usize = 0;
    let mut seen: u8 = 0;
    let mut i: usize = 0;
    proof {
        assert(literal@.subrange(0, 0) =~= Seq::<char>::empty());
    }
    while i < len
        invariant
            i <= len,
            len == literal@.len(),
            seen <= 2,
            seen == 0 ==> split_points(literal@.subrange(0, i as int)) == seq![
                literal@.subrange(0, i as int),
            ],
            seen == 1 ==> first < i && split_points(literal@.subrange(0, i as int)) == seq![
                literal@.subrange(0, first as int),
                literal@.subrange(first + 1, i as int),
            ],
            seen == 2 ==> split_points(literal@.subrange(0, i as int)).len() > 2,
        decreases len - i,
    {
        let c = literal.get_char(i);
        proof {
            let next = literal@.subrange(0, i + 1);
            let before = split_points(literal@.subrange(0, i as int));
            assert(next.drop_last() =~= literal@.subrange(0, i as int));
            assert(next.last() == c);
            if c == '.' {
                if seen == 0 {
                    assert(literal@.subrange(i + 1, i + 1) =~= Seq::<char>::empty());
                    assert(before.push(Seq::<char>::empty()) =~= seq![
                        literal@.subrange(0, i as int),
                        literal@.subrange(i + 1, i + 1),
                    ]);
                }
            } else if seen == 0 {
                assert(before.last().push(c) =~= next);
                assert(before.drop_last().push(next) =~= seq![next]);
            } else if seen == 1 {
                assert(before.last().push(c) =~= literal@.subrange(first + 1, i + 1));
                assert(before.drop_last().push(literal@.subrange(first + 1, i + 1)) =~= seq![
                    literal@.subrange(0, first as int),
                    literal@.subrange(first + 1, i + 1),
                ]);
            }
        }
        if c == '.' {
            if seen == 0 {
                first = i;
                seen = 1;
            } else {
                seen = 2;
            }
        }
        i += 1;
    }
    proof {
        assert(literal@.subrange(0, len as int) =~= literal@);
    }
    if seen == 0 {
        Some((literal, None))
    } else if seen == 1 {
        Some((literal.substring_char(0, first), Some(literal.substring_char(first + 1, len))))
    } else {
        None
    }
}

/// Counts the digits of a text.
pub fn count_digits(text: &str) -> (n: usize)
    ensures
        n == digit_count(text@),
{
    let len = text.unicode_len();
    let mut n: usize = 0;
    let mut i: usize = 0;
    proof {
        assert(text@.subrange(0, 0) =~= Seq::<char>::empty());
    }
    while i < len
        invariant
            i <= len,
            len == text@.len(),
            n <= i,
            n == digit_count(text@.subrange(0, i as int)),
        decreases len - i,
    {
        let c = text.get_char(i);
        proof {
            let next = text@.subrange(0, i + 1);
            assert(next.drop_last() =~= text@.subrange(0, i as int));
            assert(next.last() == c);
        }
        if digit_of(c).is_some() {
            n += 1;
        }
        i += 1;
    }
    proof {
        assert(text@.subrange(0, len as int) =~= text@);
    }
    n
}

/// Multiplies a 256-bit number by `10^exponent`. `None` when the product
/// is above `2^256 - 1`.
pub fn scale_by_power_of_ten(value: [u64; 4], exponent: usize) -> (r: Option<[u64; 4]>)
    ensures
        r is Some <==> limbs_value(value) * power_of_ten(exponent as nat) <= unsigned_max(),
        r matches Some(limbs) ==> limbs_value(limbs) == limbs_value(value) * power_of_ten(
            exponent as nat,
        ),
{
    let ten = limbs_from_u64(10);
    let places = limbs_from_u64(exponent as u64);
    proof {
        lemma_pow_positive(10, exponent as nat);
    }
    match u256_checked_pow(ten, places) {
        Some(power) => u256_checked_mul(value, power),
        None => {
            if value[0] == 0 && value[1] == 0 && value[2] == 0 && value[3] == 0 {
                assert(limbs_value(value) * power_of_ten(exponent as nat) == 0) by (nonlinear_arith)
                    requires
                        limbs_value(value) == 0,
                ;
                Some(value)
            } else {
                assert(limbs_value(value) * power_of_ten(exponent as nat) > unsigned_max())
                    by (nonlinear_arith)
                    requires
                        limbs_value(value) >= 1,
                        power_of_ten(exponent as nat) > unsigned_max(),
                ;
                None
            }
        },
    }
}

/// The diagnostic for a piece that the parser has turned down with a
/// message.
pub fn piece_failure(piece: &str, message: String) -> (d: Diagnostic)
    ensures
        d@ == piece_fault(piece@, message@),
{
    let kind = if is_numeral_text(piece) {
        ErrorKind::Overflow
    } else {
        ErrorKind::Parse
    };
    Diagnostic { kind, anchor: Anchor::Literal, message }
}

/// Reads one piece of a literal as a 256-bit number.
fn parse_piece(piece: &str) -> (r: Result<[u64; 4], Diagnostic>)
    ensures
        match r {
            Ok(limbs) => piece_parses(piece@) && limbs_value(limbs) == digits_value(piece@),
            Err(d) => !piece_parses(piece@) && d@ == parse_fault(piece@),
        },
{
    match u256_from_str_radix(piece, 10) {
        Ok(limbs) => {
            proof {
                lemma_limbs_value_bound(limbs);
            }
            Ok(limbs)
        },
        Err(message) => Err(piece_failure(piece, message)),
    }
}

/// Computes the unsigned magnitude of a literal at a number of decimal
/// places: the integer part times `10^decimals`, plus the fractional digits
/// moved up to fill the places. Nothing is rounded: a literal with more
/// fractional digits than places is turned down, and so is a value above
/// `2^256 - 1`.
pub fn scale_literal(literal: &str, decimals: usize) -> (r: Result<[u64; 4], Diagnostic>)
    ensures
        match r {
            Ok(limbs) => magnitude_of(literal@, decimals as nat) == Ok::<nat, Fault>(
                limbs_value(limbs),
            ),
            Err(d) => magnitude_of(literal@, decimals as nat) == Err::<nat, Fault>(d@),
        },
{
    let (whole, fraction) = match split_literal(literal) {
        Some(pieces) => pieces,
        None => {
            return Err(Diagnostic::new(ErrorKind::Shape, Anchor::Literal, "expected literal"));
        },
    };
    let upper = parse_piece(whole)?;
    let (lower, shift) = match fraction {
        Some(text) => (parse_piece(text)?, count_digits(text)),
        None => {
            proof {
                assert(piece_parses(Seq::<char>::empty()));
            }
            (limbs_from_u64(0), 0)
        },
    };
    if shift > decimals {
        return Err(Diagnostic::new(ErrorKind::Precision, Anchor::Literal, "too many decimals"));
    }
    let ghost high = limbs_value(upper) * power_of_ten(decimals as nat);
    let ghost low = limbs_value(lower) * power_of_ten((decimals - shift) as nat);
    proof {
        lemma_pow_positive(10, decimals as nat);
        lemma_pow_positive(10, (decimals - shift) as nat);
        assert(high >= 0 && low >= 0) by (nonlinear_arith)
            requires
                high == limbs_value(upper) * power_of_ten(decimals as nat),
                low == limbs_value(lower) * power_of_ten((decimals - shift) as nat),
        ;
    }
    let sum = match scale_by_power_of_ten(upper, decimals) {
        Some(upper) => match scale_by_power_of_ten(lower, decimals - shift) {
            Some(lower) => u256_checked_add(upper, lower),
            None => None,
        },
        None => None,
    };
    match sum {
        Some(limbs) => Ok(limbs),
        None => Err(Diagnostic::new(ErrorKind::Overflow, Anchor::Literal, "overflow")),
    }
}

} // verus!
