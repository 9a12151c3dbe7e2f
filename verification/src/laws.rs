//! What holds of every compilation.

use crate::amount::{Amount, Quantity};
use crate::compile::compiled;
use crate::decimal::{
    decimal_text, digit_count, digits_value, is_digit, is_numeral, is_plain_numeral,
    lemma_decimal_text,
    lemma_plain_numeral_is_numeral,
};
use crate::diagnostic::{ErrorKind, Fault};
use crate::scale::{
    magnitude_of, overflow_fault, piece_parses, power_of_ten, precision_fault, scaled_value,
    split_points,
};
use crate::token::Sign;
use crate::word::{
    lemma_limbs_signed_value_injective, lemma_limbs_value_bound, lemma_limbs_value_injective,
    signed_max, unsigned_max,
};
use vstd::arithmetic::power::lemma_pow_positive;
use vstd::prelude::*;

verus! {

/// Text without a decimal point.
pub open spec fn has_no_point(text: Seq<char>) -> bool {
    forall|i: int| 0 <= i < text.len() ==> #[trigger] text[i] != '.'
}

/// Text without a decimal point is one piece.
pub proof fn lemma_split_without_point(text: Seq<char>)
    requires
        has_no_point(text),
    ensures
        split_points(text) == seq![text],
    decreases text.len(),
{
    if text.len() == 0 {
        assert(text =~= Seq::<char>::empty());
    } else {
        lemma_split_without_point(text.drop_last());
        assert(text[text.len() - 1] != '.');
        assert(text.drop_last().push(text.last()) =~= text);
        assert(seq![text.drop_last()].drop_last().push(text) =~= seq![text]);
    }
}

/// Two texts without a decimal point, joined by one, are two pieces.
pub proof fn lemma_split_at_one_point(whole: Seq<char>, fraction: Seq<char>)
    requires
        has_no_point(whole),
        has_no_point(fraction),
    ensures
        split_points(whole.push('.') + fraction) == seq![whole, fraction],
    decreases fraction.len(),
{
    let text = whole.push('.') + fraction;
    if fraction.len() == 0 {
        lemma_split_without_point(whole);
        assert(text.drop_last() =~= whole);
        assert(fraction =~= Seq::<char>::empty());
        assert(seq![whole].push(Seq::<char>::empty()) =~= seq![whole, fraction]);
    } else {
        lemma_split_at_one_point(whole, fraction.drop_last());
        assert(text.drop_last() =~= whole.push('.') + fraction.drop_last());
        assert(text.last() == fraction[fraction.len() - 1]);
        assert(fraction.drop_last().push(text.last()) =~= fraction);
        assert(seq![whole, fraction.drop_last()].drop_last().push(fraction) =~= seq![
            whole,
            fraction,
        ]);
    }
}

/// Text made of digits only holds no decimal point.
pub proof fn lemma_plain_numeral_has_no_point(text: Seq<char>)
    requires
        is_plain_numeral(text),
    ensures
        has_no_point(text),
{
    assert forall|i: int| 0 <= i < text.len() implies #[trigger] text[i] != '.' by {
        assert(is_digit(text[i]));
    }
}

/// The literal of a whole number `n`, compiled without a sign at `decimals`
/// places, is exactly `n * 10^decimals` wherever that is a 256-bit number,
/// and a failure wherever it is not.
pub proof fn law_whole_number_scales(n: nat, decimals: nat)
    ensures
        n * power_of_ten(decimals) <= unsigned_max() ==> compiled(
            decimal_text(n),
            decimals,
            None,
        ) == Ok::<Quantity, Fault>(
            Quantity { signed: false, value: (n * power_of_ten(decimals)) as int },
        ),
        n * power_of_ten(decimals) > unsigned_max() ==> compiled(
            decimal_text(n),
            decimals,
            None,
        ) is Err,
{
    let text = decimal_text(n);
    lemma_decimal_text(n);
    lemma_plain_numeral_is_numeral(text);
    lemma_plain_numeral_has_no_point(text);
    lemma_split_without_point(text);
    lemma_pow_positive(10, decimals);
    assert(digits_value(Seq::<char>::empty()) == 0);
    assert(digit_count(Seq::<char>::empty()) == 0);
    assert(scaled_value(text, Seq::<char>::empty(), decimals) == n * power_of_ten(decimals))
        by (nonlinear_arith)
        requires
            scaled_value(text, Seq::<char>::empty(), decimals) == n * power_of_ten(decimals) + 0
                * power_of_ten(decimals),
    ;
    if n * power_of_ten(decimals) <= unsigned_max() {
        assert(n <= unsigned_max()) by (nonlinear_arith)
            requires
                n * power_of_ten(decimals) <= unsigned_max(),
                power_of_ten(decimals) >= 1,
        ;
    }
}

/// A literal `whole.fraction` of digits, with no more fractional digits
/// than decimal places, compiles without a sign to exactly
/// `whole * 10^decimals + fraction * 10^(decimals - len(fraction))`,
/// wherever that is a 256-bit number. Nothing is rounded.
pub proof fn law_fraction_scales(whole: Seq<char>, fraction: Seq<char>, decimals: nat)
    requires
        is_plain_numeral(whole),
        is_plain_numeral(fraction),
        fraction.len() <= decimals,
        digits_value(whole) * power_of_ten(decimals) + digits_value(fraction) * power_of_ten(
            (decimals - fraction.len()) as nat,
        ) <= unsigned_max(),
    ensures
        compiled(whole.push('.') + fraction, decimals, None) == Ok::<Quantity, Fault>(
            Quantity {
                signed: false,
                value: (digits_value(whole) * power_of_ten(decimals) + digits_value(fraction)
                    * power_of_ten((decimals - fraction.len()) as nat)) as int,
            },
        ),
{
    lemma_plain_numeral_is_numeral(whole);
    lemma_plain_numeral_is_numeral(fraction);
    lemma_plain_numeral_has_no_point(whole);
    lemma_plain_numeral_has_no_point(fraction);
    lemma_split_at_one_point(whole, fraction);
    lemma_pow_positive(10, decimals);
    lemma_pow_positive(10, (decimals - fraction.len()) as nat);
    let high = digits_value(whole) * power_of_ten(decimals);
    let low = digits_value(fraction) * power_of_ten((decimals - fraction.len()) as nat);
    assert(high >= digits_value(whole) && low >= digits_value(fraction)) by (nonlinear_arith)
        requires
            high == digits_value(whole) * power_of_ten(decimals),
            low == digits_value(fraction) * power_of_ten((decimals - fraction.len()) as nat),
            power_of_ten(decimals) >= 1,
            power_of_ten((decimals - fraction.len()) as nat) >= 1,
    ;
}

/// Under a plus sign a literal compiles to the signed integer of the same
/// magnitude as without a sign. It fails where the unsigned compilation
/// fails, with the same failure, and where the magnitude is above
/// `2^255 - 1`.
pub proof fn law_plus_keeps_magnitude(literal: Seq<char>, decimals: nat)
    ensures
        match compiled(literal, decimals, None) {
            Err(fault) => compiled(literal, decimals, Some(Sign::Plus)) == Err::<Quantity, Fault>(
                fault,
            ),
            Ok(unsigned) => compiled(literal, decimals, Some(Sign::Plus)) == (if unsigned.value
                <= signed_max() {
                Ok::<Quantity, Fault>(Quantity { signed: true, value: unsigned.value })
            } else {
                Err::<Quantity, Fault>(overflow_fault())
            }),
        },
{
}

/// Under a minus sign a literal compiles to the exact negation of what it
/// compiles to under a plus sign, and fails where that fails. Negating the
/// result gives the magnitude back.
pub proof fn law_minus_negates(literal: Seq<char>, decimals: nat)
    ensures
        match compiled(literal, decimals, Some(Sign::Plus)) {
            Err(fault) => compiled(literal, decimals, Some(Sign::Minus)) == Err::<Quantity, Fault>(
                fault,
            ),
            Ok(plus) => compiled(literal, decimals, Some(Sign::Minus)) == Ok::<Quantity, Fault>(
                Quantity { signed: true, value: -plus.value },
            ) && -(-plus.value) == plus.value && magnitude_of(literal, decimals) == Ok::<
                nat,
                Fault,
            >(plus.value as nat),
        },
{
}

/// A literal with more fractional digits than decimal places, whose two
/// pieces are numbers, fails for want of precision under every sign. It is
/// never cut short.
pub proof fn law_excess_digits_fail(
    literal: Seq<char>,
    whole: Seq<char>,
    fraction: Seq<char>,
    decimals: nat,
    sign: Option<Sign>,
)
    requires
        split_points(literal) == seq![whole, fraction],
        piece_parses(whole),
        piece_parses(fraction),
        digit_count(fraction) > decimals,
    ensures
        compiled(literal, decimals, sign) == Err::<Quantity, Fault>(precision_fault()),
{
}

/// A literal of digits and underscores, with no more fractional digits
/// than decimal places, whose scaled value is above `2^256 - 1` fails with
/// an overflow under every sign. Under a sign, one whose scaled value is
/// above `2^255 - 1` fails with an overflow too.
pub proof fn law_out_of_range_fails(
    literal: Seq<char>,
    whole: Seq<char>,
    fraction: Seq<char>,
    decimals: nat,
    sign: Option<Sign>,
)
    requires
        split_points(literal) == seq![whole, fraction] || (split_points(literal) == seq![whole]
            && fraction == Seq::<char>::empty()),
        is_numeral(whole),
        is_numeral(fraction),
        digit_count(fraction) <= decimals,
        scaled_value(whole, fraction, decimals) > unsigned_max() || (sign is Some && scaled_value(
            whole,
            fraction,
            decimals,
        ) > signed_max()),
    ensures
        compiled(literal, decimals, sign) matches Err(fault) && fault.kind == ErrorKind::Overflow,
        piece_parses(whole) && piece_parses(fraction) ==> compiled(literal, decimals, sign) == Err::<
            Quantity,
            Fault,
        >(overflow_fault()),
{
}

/// A signed amount has the limbs of the unsigned amount of the same value:
/// to put a plus sign to a literal is to read the same limbs as signed.
pub proof fn law_plus_keeps_limbs(unsigned: Amount, signed: Amount)
    requires
        !unsigned@.signed,
        signed@.signed,
        unsigned@.value == signed@.value,
    ensures
        unsigned.word() == signed.word(),
{
    lemma_limbs_value_bound(signed.word());
    lemma_limbs_value_injective(unsigned.word(), signed.word());
}

/// Two amounts that stand for the same quantity have the same limbs: what
/// a compilation returns is fixed by the quantity that its contract names.
pub proof fn law_quantity_fixes_amount(a: Amount, b: Amount)
    requires
        a@ == b@,
    ensures
        a == b,
{
    match (a, b) {
        (Amount::Unsigned(x), Amount::Unsigned(y)) => lemma_limbs_value_injective(x, y),
        (Amount::Signed(x), Amount::Signed(y)) => lemma_limbs_signed_value_injective(x, y),
        _ => {},
    }
}

} // verus!
