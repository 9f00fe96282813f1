//! Decimal notation for integers.

use vstd::prelude::*;
use vstd::string::StringExecFns;

verus! {

/// The character for the digit `d`, for `0 <= d <= 9`.
pub open spec fn digit_char(d: int) -> char
    recommends
        0 <= d <= 9,
{
    if d == 0 {
        '0'
    } else if d == 1 {
        '1'
    } else if d == 2 {
        '2'
    } else if d == 3 {
        '3'
    } else if d == 4 {
        '4'
    } else if d == 5 {
        '5'
    } else if d == 6 {
        '6'
    } else if d == 7 {
        '7'
    } else if d == 8 {
        '8'
    } else {
        '9'
    }
}

/// The decimal digits of `n`, most significant first, without leading zeros.
pub open spec fn digits(n: nat) -> Seq<char>
    decreases n,
{
    if n < 10 {
        seq![digit_char(n as int)]
    } else {
        digits(n / 10).push(digit_char((n % 10) as int))
    }
}

/// The decimal notation of `value`: its digits, after a minus sign where it
/// is negative.
pub open spec fn decimal(value: int) -> Seq<char> {
    if value < 0 {
        seq!['-'] + digits((-value) as nat)
    } else {
        digits(value as nat)
    }
}

/// The digit that the character `c` stands for; for another character, 0.
pub open spec fn digit_value(c: char) -> int {
    if c == '1' {
        1
    } else if c == '2' {
        2
    } else if c == '3' {
        3
    } else if c == '4' {
        4
    } else if c == '5' {
        5
    } else if c == '6' {
        6
    } else if c == '7' {
        7
    } else if c == '8' {
        8
    } else if c == '9' {
        9
    } else {
        0
    }
}

/// Whether `c` is one of the ten digits.
pub open spec fn is_digit(c: char) -> bool {
    c == '0' || digit_value(c) != 0
}

/// The number that the digits of `text` denote, read as decimal notation.
pub open spec fn number_of(text: Seq<char>) -> int
    decreases text.len(),
{
    if text.len() == 0 {
        0
    } else {
        number_of(text.drop_last()) * 10 + digit_value(text.last())
    }
}

/// The digits of a number denote that number, and are its shortest
/// notation: at least one digit, and no zero in front of another digit.
pub proof fn lemma_digits_denote(n: nat)
    ensures
        number_of(digits(n)) == n,
        digits(n).len() >= 1,
        forall|i: int| 0 <= i < digits(n).len() ==> is_digit(#[trigger] digits(n)[i]),
        digits(n)[0] == '0' ==> n == 0,
    decreases n,
{
    if n < 10 {
        assert(number_of(digits(n).drop_last()) == 0);
    } else {
        lemma_digits_denote(n / 10);
        assert(digits(n).drop_last() =~= digits(n / 10));
    }
}

/// The integer that `text` denotes, read as decimal notation with a minus
/// sign in front of the digits of a negative number.
pub open spec fn integer_of(text: Seq<char>) -> int {
    if text.len() > 0 && text[0] == '-' {
        -number_of(text.drop_first())
    } else {
        number_of(text)
    }
}

/// The decimal notation of an integer denotes that integer.
pub proof fn lemma_decimal_denotes(value: int)
    ensures
        integer_of(decimal(value)) == value,
{
    if value < 0 {
        lemma_digits_denote((-value) as nat);
        assert(decimal(value).drop_first() =~= digits((-value) as nat));
    } else {
        lemma_digits_denote(value as nat);
    }
}

/// Two integers with the same decimal notation are one.
pub proof fn lemma_decimal_determines(a: int, b: int)
    requires
        decimal(a) == decimal(b),
    ensures
        a == b,
{
    lemma_decimal_denotes(a);
    lemma_decimal_denotes(b);
}

/// The digit `d` as a text of one character.
fn digit_str(d: u32) -> (s: &'static str)
    requires
        d < 10,
    ensures
        s@ == seq![digit_char(d as int)],
{
    proof {
        reveal_strlit("0");
        reveal_strlit("1");
        reveal_strlit("2");
        reveal_strlit("3");
        reveal_strlit("4");
        reveal_strlit("5");
        reveal_strlit("6");
        reveal_strlit("7");
        reveal_strlit("8");
        reveal_strlit("9");
    }
    match d {
        0 => "0",
        1 => "1",
        2 => "2",
        3 => "3",
        4 => "4",
        5 => "5",
        6 => "6",
        7 => "7",
        8 => "8",
        _ => "9",
    }
}

/// Appends the decimal digits of `n` to `out`.
fn append_digits(n: u32, out: &mut String)
    ensures
        final(out)@ == old(out)@ + digits(n as nat),
    decreases n,
{
    if n >= 10 {
        append_digits(n / 10, out);
    }
    out.append(digit_str(n % 10));
}

/// The decimal notation of `value`.
pub fn int_to_decimal(value: i32) -> (s: String)
    ensures
        s@ == decimal(value as int),
{
    let mut s = String::new();
    if value < 0 {
        s.append("-");
        proof {
            reveal_strlit("-");
        }
        append_digits((-(value as i64)) as u32, &mut s);
    } else {
        append_digits(value as u32, &mut s);
    }
    s
}

} // verus!
