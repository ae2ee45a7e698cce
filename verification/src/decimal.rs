//! Decimal numerals.

use vstd::prelude::*;
use crate::text::push_char;

verus! {

/// The character of a digit below ten.
pub open spec fn digit_char(d: int) -> char
    recommends
        0 <= d < 10,
{
    (d + 48) as u8 as char
}

/// Whether `c` is one of `0` to `9`.
pub open spec fn is_digit(c: char) -> bool {
    '0' <= c <= '9'
}

/// The numeral of `n`, without leading zeros.
pub open spec fn decimal_text(n: nat) -> Seq<char>
    decreases n,
{
    if n < 10 {
        seq![digit_char(n as int)]
    } else {
        decimal_text(n / 10).push(digit_char(n as int % 10))
    }
}

/// The number that a string of digits stands for.
pub open spec fn decimal_value(digits: Seq<char>) -> nat
    decreases digits.len(),
{
    if digits.len() == 0 {
        0
    } else {
        decimal_value(digits.drop_last()) * 10 + (digits.last() as nat - 48) as nat
    }
}

/// Whether every character of `text` is a digit.
pub open spec fn all_digits(text: Seq<char>) -> bool {
    forall|i: int| 0 <= i < text.len() ==> is_digit(#[trigger] text[i])
}

/// `text` without a leading `+`.
pub open spec fn without_sign(text: Seq<char>) -> Seq<char> {
    if text.len() > 0 && text[0] == '+' {
        text.skip(1)
    } else {
        text
    }
}

/// What a text means as an unsigned byte: an optional `+`, then at least one
/// digit, worth at most 255. Leading zeros count for nothing.
pub open spec fn parsed_u8(text: Seq<char>) -> Option<u8> {
    let digits = without_sign(text);
    if digits.len() > 0 && all_digits(digits) && decimal_value(digits) <= 255 {
        Some(decimal_value(digits) as u8)
    } else {
        None
    }
}

/// Appends the numeral of `n` to `out`.
pub fn write_decimal(n: usize, out: &mut String)
    ensures
        final(out)@ == old(out)@ + decimal_text(n as nat),
    decreases n,
{
    if n >= 10 {
        write_decimal(n / 10, out);
    }
    let d: u8 = (n % 10) as u8;
    push_char(out, (d + 48) as char);
    proof {
        if n >= 10 {
            assert(old(out)@ + decimal_text(n as nat) =~= (old(out)@ + decimal_text((n / 10) as nat)).push(
                digit_char(n as int % 10),
            ));
        } else {
            assert(old(out)@ + decimal_text(n as nat) =~= old(out)@.push(digit_char(n as int)));
        }
    }
}

/// Reads an unsigned byte as `str::parse::<u8>` does.
pub fn parse_u8(text: &str) -> (value: Option<u8>)
    ensures
        value == parsed_u8(text@),
{
    let ghost whole = text@;
    let ghost digits = without_sign(whole);
    let ghost mut seen: int = 0;
    let mut value: u16 = 0;
    let mut any = false;
    let mut first = true;
    for c in it: text.chars()
        invariant
            it.seq() == whole,
            whole == text@,
            digits == without_sign(whole),
            first <==> it.index() == 0,
            first ==> seen == 0,
            !first ==> seen == it.index() - (whole.len() - digits.len()),
            0 <= seen <= digits.len(),
            any <==> seen > 0,
            all_digits(digits.take(seen)),
            value as nat == decimal_value(digits.take(seen)),
            value <= 255,
    {
        if first && c == '+' {
            first = false;
        } else {
            first = false;
            if !('0' <= c && c <= '9') {
                assert(!is_digit(digits[seen]));
                return None;
            }
            let d: u16 = (c as u8 - 48) as u16;
            let next: u16 = value * 10 + d;
            proof {
                let upto = digits.take(seen + 1);
                assert(upto.drop_last() =~= digits.take(seen));
                assert(upto.last() == c);
                assert(decimal_value(upto) == next);
                if next > 255 {
                    lemma_value_grows(digits, seen + 1);
                }
            }
            if next > 255 {
                return None;
            }
            value = next;
            any = true;
            proof {
                seen = seen + 1;
            }
        }
    }
    proof {
        assert(digits.take(seen) =~= digits);
    }
    if any {
        Some(value as u8)
    } else {
        None
    }
}

/// The numeral of a number is made of digits and stands for that number; read
/// as an unsigned byte it gives the number back, if the number is one.
pub proof fn lemma_decimal_round_trip(n: nat)
    ensures
        decimal_text(n).len() > 0,
        all_digits(decimal_text(n)),
        decimal_value(decimal_text(n)) == n,
        n <= 255 ==> parsed_u8(decimal_text(n)) == Some(n as u8),
    decreases n,
{
    let text = decimal_text(n);
    if n >= 10 {
        lemma_decimal_round_trip(n / 10);
        let front = decimal_text(n / 10);
        assert(text.drop_last() =~= front);
        assert(text.last() == digit_char(n as int % 10));
        assert forall|i: int| 0 <= i < text.len() implies is_digit(#[trigger] text[i]) by {
            if i < front.len() {
                assert(text[i] == front[i]);
            }
        }
    } else {
        assert(text.drop_last() =~= Seq::<char>::empty());
        assert(decimal_value(text.drop_last()) == 0);
    }
    assert(is_digit(text[0]));
    assert(without_sign(text) == text);
}

/// A numeral is worth at least as much as any of its prefixes.
proof fn lemma_value_grows(digits: Seq<char>, k: int)
    requires
        0 <= k <= digits.len(),
    ensures
        decimal_value(digits.take(k)) <= decimal_value(digits),
    decreases digits.len() - k,
{
    if k < digits.len() {
        lemma_value_grows(digits, k + 1);
        assert(digits.take(k + 1).drop_last() =~= digits.take(k));
    } else {
        assert(digits.take(k) =~= digits);
    }
}

} // verus!
