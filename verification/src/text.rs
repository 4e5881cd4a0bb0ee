//! Decimal numerals.

use vstd::prelude::*;

verus! {

/// The character that stands for the digit `n`.
pub open spec fn digit(n: int) -> char {
    (n + 48) as char
}

/// `c` is one of the ten decimal digits.
pub open spec fn is_digit(c: char) -> bool {
    48 <= c as int <= 57
}

/// The decimal numeral of `n`, without leading zeros.
pub open spec fn decimal(n: nat) -> Seq<char>
    decreases n,
{
    if n < 10 {
        seq![digit(n as int)]
    } else {
        decimal(n / 10) + seq![digit((n % 10) as int)]
    }
}

/// The numeral of a number below 1000, digit by digit.
pub proof fn lemma_decimal_short(n: nat)
    requires
        n < 1000,
    ensures
        n < 10 ==> decimal(n) == seq![digit(n as int)],
        10 <= n < 100 ==> decimal(n) == seq![digit(n as int / 10), digit(n as int % 10)],
        100 <= n ==> decimal(n) == seq![
            digit(n as int / 100),
            digit((n as int / 10) % 10),
            digit(n as int % 10),
        ],
{
    reveal_with_fuel(decimal, 3);
    if 10 <= n < 100 {
        assert(decimal(n) =~= seq![digit(n as int / 10), digit(n as int % 10)]);
    }
    if 100 <= n {
        assert((n / 10) / 10 == n / 100);
        assert(decimal(n) =~= seq![
            digit(n as int / 100),
            digit((n as int / 10) % 10),
            digit(n as int % 10),
        ]);
    }
}

fn digit_text(d: u8) -> (text: &'static str)
    requires
        d < 10,
    ensures
        text@ == seq![digit(d as int)],
{
    proof {
        reveal_strlit("0");
        reveal_strlit("1");
        reveal_strlit("2");
        reveal_strlit("3");
        reveal_strlit("4");
        reveal_strlit("5");
        reveal_strlit("6");
        reveal_strlit("7");
        reveal_strlit("8");
        reveal_strlit("9");
    }
    let text = if d == 0 {
        "0"
    } else if d == 1 {
        "1"
    } else if d == 2 {
        "2"
    } else if d == 3 {
        "3"
    } else if d == 4 {
        "4"
    } else if d == 5 {
        "5"
    } else if d == 6 {
        "6"
    } else if d == 7 {
        "7"
    } else if d == 8 {
        "8"
    } else {
        "9"
    };
    assert(text@ =~= seq![digit(d as int)]);
    text
}

/// Writes the decimal numeral of `n` behind `text`.
pub fn push_decimal(text: &mut String, n: u64)
    ensures
        final(text)@ == old(text)@ + decimal(n as nat),
    decreases n,
{
    if n >= 10 {
        push_decimal(text, n / 10);
    }
    text.append(digit_text((n % 10) as u8));
    assert(text@ =~= old(text)@ + decimal(n as nat));
}

} // verus!
