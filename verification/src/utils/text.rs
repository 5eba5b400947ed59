//! Decimal text of unsigned integers.

use vstd::prelude::*;
use vstd::string::StringExecFns;

verus! {

/// The character of a decimal digit.
pub open spec fn digit_char(digit: nat) -> char
    recommends
        digit < 10,
{
    if digit == 0 {
        '0'
    } else if digit == 1 {
        '1'
    } else if digit == 2 {
        '2'
    } else if digit == 3 {
        '3'
    } else if digit == 4 {
        '4'
    } else if digit == 5 {
        '5'
    } else if digit == 6 {
        '6'
    } else if digit == 7 {
        '7'
    } else if digit == 8 {
        '8'
    } else {
        '9'
    }
}

/// The decimal digits of `n`, most significant first, without leading zeros;
/// zero is the single digit `0`.
pub open spec fn decimal_spec(n: nat) -> Seq<char>
    decreases n,
{
    if n < 10 {
        seq![digit_char(n)]
    } else {
        decimal_spec(n / 10).push(digit_char(n % 10))
    }
}

fn digit_text(digit: u64) -> (text: &'static str)
    requires
        digit < 10,
    ensures
        text@ == seq![digit_char(digit as nat)],
{
    proof {
        reveal_strlit("0");
        reveal_strlit("1");
        reveal_strlit("2");
        reveal_strlit("3");
        reveal_strlit("4");
        reveal_strlit("5");
        reveal_strlit("6");
        reveal_strlit("7");
        reveal_strlit("8");
        reveal_strlit("9");
    }
    let text = if digit == 0 {
        "0"
    } else if digit == 1 {
        "1"
    } else if digit == 2 {
        "2"
    } else if digit == 3 {
        "3"
    } else if digit == 4 {
        "4"
    } else if digit == 5 {
        "5"
    } else if digit == 6 {
        "6"
    } else if digit == 7 {
        "7"
    } else if digit == 8 {
        "8"
    } else {
        "9"
    };
    assert(text@ =~= seq![digit_char(digit as nat)]);
    text
}

/// Writes `n` in decimal.
pub fn decimal(n: u64) -> (text: String)
    ensures
        text@ == decimal_spec(n as nat),
    decreases n,
{
    if n < 10 {
        String::from_str(digit_text(n))
    } else {
        let mut text = decimal(n / 10);
        text.append(digit_text(n % 10));
        assert(text@ =~= decimal_spec(n as nat));
        text
    }
}

/// A number has at least one decimal digit.
pub proof fn lemma_decimal_nonempty(n: nat)
    ensures
        decimal_spec(n).len() >= 1,
    decreases n,
{
    if n >= 10 {
        lemma_decimal_nonempty(n / 10);
    }
}

} // verus!
