//! The two lines of text that tell how many days are left.

use vstd::prelude::*;

verus! {

/// The digit that stands for `value`, for a value from 0 to 9.
pub open spec fn digit_char(value: int) -> char {
    seq!['0', '1', '2', '3', '4', '5', '6', '7', '8', '9'][value]
}

/// The decimal digits of `n`, the highest first, without leading zeros.
pub open spec fn decimal_digits(n: nat) -> Seq<char>
    decreases n,
{
    if n < 10 {
        seq![digit_char(n as int)]
    } else {
        decimal_digits(n / 10).push(digit_char((n % 10) as int))
    }
}

/// `n` written in decimal, with a minus sign before a negative number.
pub open spec fn decimal(n: int) -> Seq<char> {
    if n < 0 {
        seq!['-'] + decimal_digits((-n) as nat)
    } else {
        decimal_digits(n as nat)
    }
}

/// The large line: the word for the target day itself, else the number of
/// days that are left, with the unit in the singular for one day.
pub open spec fn headline(days: int) -> Seq<char> {
    if days == 0 {
        "TODAY"@
    } else if days == 1 {
        "1 DAY"@
    } else {
        decimal(days) + " DAYS"@
    }
}

/// The small line under the headline.
pub open spec fn caption(days: int) -> Seq<char> {
    if days == 0 {
        "is Halloween!"@
    } else {
        "Until Halloween"@
    }
}

/// The text of one decimal digit.
fn digit_text(value: u64) -> (text: &'static str)
    requires
        value < 10,
    ensures
        text@ == seq![digit_char(value as int)],
{
    proof {
        reveal_strlit("0");
        reveal_strlit("1");
        reveal_strlit("2");
        reveal_strlit("3");
        reveal_strlit("4");
        reveal_strlit("5");
        reveal_strlit("6");
        reveal_strlit("7");
        reveal_strlit("8");
        reveal_strlit("9");
    }
    match value {
        0 => "0",
        1 => "1",
        2 => "2",
        3 => "3",
        4 => "4",
        5 => "5",
        6 => "6",
        7 => "7",
        8 => "8",
        _ => "9",
    }
}

/// Writes the decimal digits of `n` at the end of `out`.
fn append_decimal_digits(out: &mut String, n: u64)
    ensures
        final(out)@ == old(out)@ + decimal_digits(n as nat),
    decreases n,
{
    if n >= 10 {
        append_decimal_digits(out, n / 10);
    }
    out.append(digit_text(n % 10));
}

/// `n` written in decimal.
pub fn decimal_text(n: i64) -> (text: String)
    ensures
        text@ == decimal(n as int),
{
    let mut text = String::new();
    if n < 0 {
        proof {
            reveal_strlit("-");
        }
        text.append("-");
        let magnitude: u64 = if n == i64::MIN {
            9223372036854775808u64
        } else {
            (-n) as u64
        };
        append_decimal_digits(&mut text, magnitude);
    } else {
        append_decimal_digits(&mut text, n as u64);
    }
    text
}

/// The large line for a number of days that are left.
pub fn headline_text(days: i64) -> (text: String)
    ensures
        text@ == headline(days as int),
{
    if days == 0 {
        "TODAY".to_string()
    } else if days == 1 {
        "1 DAY".to_string()
    } else {
        let mut text = decimal_text(days);
        text.append(" DAYS");
        text
    }
}

/// The small line for a number of days that are left.
pub fn caption_text(days: i64) -> (text: String)
    ensures
        text@ == caption(days as int),
{
    if days == 0 {
        "is Halloween!".to_string()
    } else {
        "Until Halloween".to_string()
    }
}

} // verus!
