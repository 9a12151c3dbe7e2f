//! Base-ten numerals as runs of characters.

use vstd::prelude::*;
use vstd::string::StrSliceExecFns;

verus! {

/// The digits of a base-ten numeral: `0` to `9`.
pub open spec fn is_digit(c: char) -> bool {
    '0' <= c <= '9'
}

/// What a digit counts for.
pub open spec fn digit_value(c: char) -> nat {
    (c as nat - '0' as nat) as nat
}

/// The number that a run of characters writes in base ten, where every
/// character that is no digit is passed over.
pub open spec fn digits_value(text: Seq<char>) -> nat
    decreases text.len(),
{
    if text.len() == 0 {
        0
    } else if is_digit(text.last()) {
        digits_value(text.drop_last()) * 10 + digit_value(text.last())
    } else {
        digits_value(text.drop_last())
    }
}

/// How many digits a run of characters holds.
pub open spec fn digit_count(text: Seq<char>) -> nat
    decreases text.len(),
{
    if text.len() == 0 {
        0
    } else if is_digit(text.last()) {
        digit_count(text.drop_last()) + 1
    } else {
        digit_count(text.drop_last())
    }
}

/// Text made of digits and underscores only.
pub open spec fn is_numeral(text: Seq<char>) -> bool {
    forall|i: int| 0 <= i < text.len() ==> is_digit(#[trigger] text[i]) || text[i] == '_'
}

/// Text made of digits only.
pub open spec fn is_plain_numeral(text: Seq<char>) -> bool {
    forall|i: int| 0 <= i < text.len() ==> is_digit(#[trigger] text[i])
}

/// Whether a character is a digit, and which.
pub fn digit_of(c: char) -> (d: Option<u8>)
    ensures
        d is Some <==> is_digit(c),
        d matches Some(v) ==> v == digit_value(c) && v <= 9,
{
    if '0' <= c && c <= '9' {
        Some((c as u32 - '0' as u32) as u8)
    } else {
        None
    }
}

/// Whether a text is made of digits and underscores only.
pub fn is_numeral_text(text: &str) -> (b: bool)
    ensures
        b == is_numeral(text@),
{
    let len = text.unicode_len();
    let mut i: usize = 0;
    while i < len
        invariant
            i <= len,
            len == text@.len(),
            forall|j: int| 0 <= j < i ==> is_digit(#[trigger] text@[j]) || text@[j] == '_',
        decreases len - i,
    {
        let c = text.get_char(i);
        if digit_of(c).is_none() && c != '_' {
            return false;
        }
        i += 1;
    }
    true
}

/// The character that writes a digit.
pub open spec fn digit_char(d: nat) -> char
    recommends
        d <= 9,
{
    (('0' as nat + d) as u8) as char
}

/// The base-ten numeral of a number, without leading zeros.
pub open spec fn decimal_text(n: nat) -> Seq<char>
    decreases n,
{
    if n < 10 {
        seq![digit_char(n)]
    } else {
        decimal_text(n / 10).push(digit_char(n % 10))
    }
}

/// The character of a digit is a digit and counts for it.
pub proof fn lemma_digit_char(d: nat)
    requires
        d <= 9,
    ensures
        is_digit(digit_char(d)),
        digit_value(digit_char(d)) == d,
{
    let b = ('0' as nat + d) as u8;
    assert('0' as nat == 48);
    assert(b == 48 + d);
    assert((b as char) as nat == b as nat);
}

/// The numeral of a number is made of digits and writes that number.
pub proof fn lemma_decimal_text(n: nat)
    ensures
        is_plain_numeral(decimal_text(n)),
        digits_value(decimal_text(n)) == n,
        digit_count(decimal_text(n)) == decimal_text(n).len(),
    decreases n,
{
    let text = decimal_text(n);
    lemma_digit_char(n % 10);
    if n < 10 {
        assert(text.drop_last() =~= Seq::<char>::empty());
        assert(text.last() == digit_char(n));
        assert(digits_value(Seq::<char>::empty()) == 0);
        assert(digit_count(Seq::<char>::empty()) == 0);
    } else {
        lemma_decimal_text(n / 10);
        assert(text.drop_last() =~= decimal_text(n / 10));
        assert(text.last() == digit_char(n % 10));
    }
}

/// Text made of digits only is a numeral, and each of its characters
/// counts as a digit.
pub proof fn lemma_plain_numeral_is_numeral(text: Seq<char>)
    requires
        is_plain_numeral(text),
    ensures
        is_numeral(text),
        digit_count(text) == text.len(),
    decreases text.len(),
{
    if text.len() > 0 {
        assert(is_digit(text[text.len() - 1]));
        lemma_plain_numeral_is_numeral(text.drop_last());
    }
}

} // verus!
