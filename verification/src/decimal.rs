//! Whole numbers as decimal text, and decimal text as whole numbers.

use vstd::prelude::*;
use vstd::string::StringExecFns;

verus! {

/// The value of a decimal digit, if the character is one.
pub open spec fn spec_digit_value(c: char) -> Option<nat> {
    if c == '0' {
        Some(0)
    } else if c == '1' {
        Some(1)
    } else if c == '2' {
        Some(2)
    } else if c == '3' {
        Some(3)
    } else if c == '4' {
        Some(4)
    } else if c == '5' {
        Some(5)
    } else if c == '6' {
        Some(6)
    } else if c == '7' {
        Some(7)
    } else if c == '8' {
        Some(8)
    } else if c == '9' {
        Some(9)
    } else {
        None
    }
}

/// The digit that stands for a number below ten.
pub open spec fn spec_digit_char(d: nat) -> char {
    if d == 0 {
        '0'
    } else if d == 1 {
        '1'
    } else if d == 2 {
        '2'
    } else if d == 3 {
        '3'
    } else if d == 4 {
        '4'
    } else if d == 5 {
        '5'
    } else if d == 6 {
        '6'
    } else if d == 7 {
        '7'
    } else if d == 8 {
        '8'
    } else {
        '9'
    }
}

/// Whether every character is a decimal digit.
pub open spec fn spec_all_digits(text: Seq<char>) -> bool {
    forall|i: int| 0 <= i < text.len() ==> (#[trigger] spec_digit_value(text[i])) is Some
}

/// The number that a run of decimal digits stands for, the first digit
/// counting most.
pub open spec fn spec_digits_value(digits: Seq<char>) -> nat
    decreases digits.len(),
{
    if digits.len() == 0 {
        0
    } else {
        spec_digits_value(digits.drop_last()) * 10 + match spec_digit_value(digits.last()) {
            Some(d) => d,
            None => 0,
        }
    }
}

/// The text without a plus sign in front of it.
pub open spec fn spec_without_sign(text: Seq<char>) -> Seq<char> {
    if text.len() > 0 && text[0] == '+' {
        text.subrange(1, text.len() as int)
    } else {
        text
    }
}

/// The number that a text stands for: an optional plus sign and then one or
/// more decimal digits, nothing before, between or after them.
pub open spec fn spec_parse_unsigned(text: Seq<char>) -> Option<nat> {
    let digits = spec_without_sign(text);
    if digits.len() > 0 && spec_all_digits(digits) {
        Some(spec_digits_value(digits))
    } else {
        None
    }
}

/// The number that a text stands for, if a `usize` can hold it.
pub open spec fn spec_parse_usize(text: Seq<char>) -> Option<usize> {
    match spec_parse_unsigned(text) {
        Some(value) => if value <= usize::MAX {
            Some(value as usize)
        } else {
            None
        },
        None => None,
    }
}

/// The decimal digits of a number, without leading zeros.
pub open spec fn spec_decimal_text(n: nat) -> Seq<char>
    decreases n,
{
    if n < 10 {
        seq![spec_digit_char(n)]
    } else {
        spec_decimal_text(n / 10).push(spec_digit_char(n % 10))
    }
}

/// A run of digits does not stand for less than any of its beginnings.
pub proof fn lemma_digits_value_grows(digits: Seq<char>, k: int)
    requires
        0 <= k <= digits.len(),
    ensures
        spec_digits_value(digits.subrange(0, k)) <= spec_digits_value(digits),
    decreases digits.len(),
{
    if k == digits.len() {
        assert(digits.subrange(0, k) =~= digits);
    } else {
        lemma_digits_value_grows(digits.drop_last(), k);
        assert(digits.drop_last().subrange(0, k) =~= digits.subrange(0, k));
    }
}

/// The decimal text of a number is made of digits, begins with one, and
/// stands for that number: reading what was written gives the number back.
pub proof fn lemma_decimal_text_round_trip(n: nat)
    ensures
        spec_decimal_text(n).len() > 0,
        spec_all_digits(spec_decimal_text(n)),
        spec_digits_value(spec_decimal_text(n)) == n,
        spec_parse_unsigned(spec_decimal_text(n)) == Some(n),
    decreases n,
{
    let text = spec_decimal_text(n);
    if n < 10 {
        assert(text.drop_last() =~= Seq::<char>::empty());
        assert(spec_digits_value(text.drop_last()) == 0);
        assert(text.last() == spec_digit_char(n));
    } else {
        lemma_decimal_text_round_trip(n / 10);
        assert(text.drop_last() =~= spec_decimal_text(n / 10));
        assert(text.last() == spec_digit_char(n % 10));
        assert(text[0] == spec_decimal_text(n / 10)[0]);
    }
    assert(spec_digit_value(text[0]) is Some);
    assert(text[0] != '+');
    assert(spec_without_sign(text) == text);
}

/// The value of a decimal digit, if the character is one.
fn digit_value(c: char) -> (value: Option<u8>)
    ensures
        match value {
            Some(d) => spec_digit_value(c) == Some(d as nat) && d < 10,
            None => spec_digit_value(c) is None,
        },
{
    if c == '0' {
        Some(0)
    } else if c == '1' {
        Some(1)
    } else if c == '2' {
        Some(2)
    } else if c == '3' {
        Some(3)
    } else if c == '4' {
        Some(4)
    } else if c == '5' {
        Some(5)
    } else if c == '6' {
        Some(6)
    } else if c == '7' {
        Some(7)
    } else if c == '8' {
        Some(8)
    } else if c == '9' {
        Some(9)
    } else {
        None
    }
}

/// Reads a whole number from a text, as `str::parse::<usize>` does: an
/// optional plus sign, then one or more decimal digits and nothing else.
/// Returns `None` for any other text, and for a number that no `usize` holds.
pub fn parse_usize(text: &str) -> (parsed: Option<usize>)
    ensures
        parsed == spec_parse_usize(text@),
{
    let length = text.unicode_len();
    let mut start: usize = 0;
    if length > 0 && text.get_char(0) == '+' {
        start = 1;
    }
    let ghost digits = spec_without_sign(text@);
    assert(digits =~= text@.subrange(start as int, length as int));
    if start == length {
        return None;
    }
    let mut value: usize = 0;
    let mut i: usize = start;
    while i < length
        invariant
            start <= i <= length,
            length == text@.len(),
            digits == text@.subrange(start as int, length as int),
            digits == spec_without_sign(text@),
            spec_all_digits(digits.subrange(0, i - start)),
            value == spec_digits_value(digits.subrange(0, i - start)),
        decreases length - i,
    {
        let c = text.get_char(i);
        let ghost before = digits.subrange(0, i - start);
        let ghost after = digits.subrange(0, i - start + 1);
        assert(after.drop_last() =~= before);
        assert(after.last() == c);
        assert(digits[i - start] == c);
        match digit_value(c) {
            None => {
                assert(spec_digit_value(digits[i - start]) is None);
                return None;
            },
            Some(d) => {
                if value > (usize::MAX - d as usize) / 10 {
                    proof {
                        lemma_digits_value_grows(digits, i - start + 1);
                        assert(spec_digits_value(after) == value * 10 + d);
                        assert(spec_digits_value(digits) > usize::MAX);
                    }
                    return None;
                }
                value = value * 10 + d as usize;
                assert forall|j: int| 0 <= j < after.len() implies (#[trigger] spec_digit_value(
                    after[j],
                )) is Some by {
                    if j < before.len() {
                        assert(after[j] == before[j]);
                    }
                }
            },
        }
        i += 1;
    }
    assert(digits.subrange(0, length - start) =~= digits);
    Some(value)
}

/// The text of one decimal digit.
fn digit_text(d: u8) -> (text: &'static str)
    requires
        d < 10,
    ensures
        text@ == seq![spec_digit_char(d as nat)],
{
    proof {
        reveal_strlit("0");
        reveal_strlit("1");
        reveal_strlit("2");
        reveal_strlit("3");
        reveal_strlit("4");
        reveal_strlit("5");
        reveal_strlit("6");
        reveal_strlit("7");
        reveal_strlit("8");
        reveal_strlit("9");
    }
    let text = if d == 0 {
        "0"
    } else if d == 1 {
        "1"
    } else if d == 2 {
        "2"
    } else if d == 3 {
        "3"
    } else if d == 4 {
        "4"
    } else if d == 5 {
        "5"
    } else if d == 6 {
        "6"
    } else if d == 7 {
        "7"
    } else if d == 8 {
        "8"
    } else {
        "9"
    };
    assert(text@ =~= seq![spec_digit_char(d as nat)]);
    text
}

/// Writes the decimal digits of a number at the end of a text.
pub fn append_decimal(text: &mut String, n: u64)
    ensures
        final(text)@ == old(text)@ + spec_decimal_text(n as nat),
    decreases n,
{
    if n >= 10 {
        append_decimal(text, n / 10);
    }
    text.append(digit_text((n % 10) as u8));
    assert(text@ =~= old(text)@ + spec_decimal_text(n as nat));
}

/// The decimal digits of a number, as `to_string` gives them.
pub fn usize_to_text(n: usize) -> (text: String)
    ensures
        text@ == spec_decimal_text(n as nat),
{
    let mut text = String::new();
    append_decimal(&mut text, n as u64);
    assert(text@ =~= spec_decimal_text(n as nat));
    text
}

} // verus!
