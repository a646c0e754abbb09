//! Decimal text of integers, as header values carry it.

use vstd::prelude::*;

verus! {

/// The character of a decimal digit.
pub open spec fn digit_char(digit: nat) -> char {
    if digit == 0 {
        '0'
    } else if digit == 1 {
        '1'
    } else if digit == 2 {
        '2'
    } else if digit == 3 {
        '3'
    } else if digit == 4 {
        '4'
    } else if digit == 5 {
        '5'
    } else if digit == 6 {
        '6'
    } else if digit == 7 {
        '7'
    } else if digit == 8 {
        '8'
    } else {
        '9'
    }
}

/// The decimal text of a natural number: its digits from the most
/// significant one on, with no leading zero but for zero itself.
pub open spec fn decimal_digits(n: nat) -> Seq<char>
    decreases n,
{
    if n < 10 {
        seq![digit_char(n)]
    } else {
        decimal_digits(n / 10).push(digit_char(n % 10))
    }
}

/// The decimal text of an integer: that of its magnitude, after a minus
/// sign where the integer is negative.
pub open spec fn signed_decimal_digits(n: int) -> Seq<char> {
    if n < 0 {
        seq!['-'] + decimal_digits((-n) as nat)
    } else {
        decimal_digits(n as nat)
    }
}

/// Whether every character is a decimal digit or a minus sign.
pub open spec fn is_numeric_text(text: Seq<char>) -> bool {
    forall|i: int| 0 <= i < text.len() ==> is_numeric_char(#[trigger] text[i])
}

/// Whether a character is a decimal digit or a minus sign.
pub open spec fn is_numeric_char(c: char) -> bool {
    c == '-' || ('0' <= c && c <= '9')
}

/// Decimal text is never empty and holds digits only.
pub proof fn lemma_decimal_digits_numeric(n: nat)
    ensures
        decimal_digits(n).len() >= 1,
        is_numeric_text(decimal_digits(n)),
    decreases n,
{
    if n >= 10 {
        lemma_decimal_digits_numeric(n / 10);
    }
}

/// Signed decimal text is never empty and holds digits and a sign only.
pub proof fn lemma_signed_decimal_digits_numeric(n: int)
    ensures
        signed_decimal_digits(n).len() >= 1,
        is_numeric_text(signed_decimal_digits(n)),
{
    if n < 0 {
        lemma_decimal_digits_numeric((-n) as nat);
    } else {
        lemma_decimal_digits_numeric(n as nat);
    }
}

/// The text of one decimal digit.
fn digit_text(digit: u8) -> (text: &'static str)
    requires
        digit < 10,
    ensures
        text@ == seq![digit_char(digit as nat)],
{
    proof {
        reveal_strlit("0");
        reveal_strlit("1");
        reveal_strlit("2");
        reveal_strlit("3");
        reveal_strlit("4");
        reveal_strlit("5");
        reveal_strlit("6");
        reveal_strlit("7");
        reveal_strlit("8");
        reveal_strlit("9");
    }
    let text = if digit == 0 {
        "0"
    } else if digit == 1 {
        "1"
    } else if digit == 2 {
        "2"
    } else if digit == 3 {
        "3"
    } else if digit == 4 {
        "4"
    } else if digit == 5 {
        "5"
    } else if digit == 6 {
        "6"
    } else if digit == 7 {
        "7"
    } else if digit == 8 {
        "8"
    } else {
        "9"
    };
    assert(text@ =~= seq![digit_char(digit as nat)]);
    text
}

/// Writes a natural number in decimal.
pub fn decimal_string(n: u64) -> (text: String)
    ensures
        text@ == decimal_digits(n as nat),
    decreases n,
{
    let last = digit_text((n % 10) as u8);
    if n < 10 {
        let text = String::from_str(last);
        text
    } else {
        let mut text = decimal_string(n / 10);
        text.append(last);
        text
    }
}

/// Writes an integer in decimal, with a minus sign where it is negative.
pub fn signed_decimal_string(n: i64) -> (text: String)
    ensures
        text@ == signed_decimal_digits(n as int),
{
    if n < 0 {
        let magnitude: u64 = ((-(n + 1)) as u64) + 1;
        let digits = decimal_string(magnitude);
        let mut text = String::from_str("-");
        proof {
            reveal_strlit("-");
        }
        text.append(digits.as_str());
        assert(text@ =~= seq!['-'] + decimal_digits((-n) as nat));
        text
    } else {
        decimal_string(n as u64)
    }
}

} // verus!
