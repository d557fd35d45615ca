//! Numbers as the wallet prints them.

use crate::constants::LAMPORTS_PER_SOL;
use vstd::prelude::*;
use vstd::string::StringExecFns;

verus! {

/// The character of a decimal digit.
pub open spec fn digit_char(digit: int) -> char {
    if digit == 0 {
        '0'
    } else if digit == 1 {
        '1'
    } else if digit == 2 {
        '2'
    } else if digit == 3 {
        '3'
    } else if digit == 4 {
        '4'
    } else if digit == 5 {
        '5'
    } else if digit == 6 {
        '6'
    } else if digit == 7 {
        '7'
    } else if digit == 8 {
        '8'
    } else {
        '9'
    }
}

/// The decimal digits of a number, most significant first, without leading zeros.
pub open spec fn decimal(n: nat) -> Seq<char>
    decreases n,
{
    if n < 10 {
        seq![digit_char(n as int)]
    } else {
        decimal(n / 10).push(digit_char((n % 10) as int))
    }
}

/// The decimal digits of an integer, after a minus sign where it is negative.
pub open spec fn signed_decimal(n: int) -> Seq<char> {
    if n < 0 {
        seq!['-'] + decimal((-n) as nat)
    } else {
        decimal(n as nat)
    }
}

/// Ten to the power `exponent`.
pub open spec fn pow10(exponent: nat) -> nat
    decreases exponent,
{
    if exponent == 0 {
        1
    } else {
        10 * pow10((exponent - 1) as nat)
    }
}

/// The digits of `fraction / 10^places` behind the decimal point, up to the
/// last one that is not zero.
pub open spec fn fraction_digits(fraction: nat, places: nat) -> Seq<char>
    decreases places,
{
    if places == 0 || fraction == 0 {
        Seq::empty()
    } else {
        let unit = pow10((places - 1) as nat);
        seq![digit_char((fraction / unit) as int)] + fraction_digits(
            fraction % unit,
            (places - 1) as nat,
        )
    }
}

/// An amount of lamports written in SOL: the whole SOL, then, where the amount
/// is not a whole number of SOL, a point and the exact fraction.
pub open spec fn sol_text(lamports: nat) -> Seq<char> {
    let whole = lamports / (LAMPORTS_PER_SOL as nat);
    let fraction = lamports % (LAMPORTS_PER_SOL as nat);
    if fraction == 0 {
        decimal(whole)
    } else {
        decimal(whole) + seq!['.'] + fraction_digits(fraction, 9)
    }
}

fn digit_str(digit: u64) -> (text: &'static str)
    requires
        digit < 10,
    ensures
        text@ == seq![digit_char(digit as int)],
{
    proof {
        reveal_strlit("0");
        reveal_strlit("1");
        reveal_strlit("2");
        reveal_strlit("3");
        reveal_strlit("4");
        reveal_strlit("5");
        reveal_strlit("6");
        reveal_strlit("7");
        reveal_strlit("8");
        reveal_strlit("9");
    }
    let text = match digit {
        0 => "0",
        1 => "1",
        2 => "2",
        3 => "3",
        4 => "4",
        5 => "5",
        6 => "6",
        7 => "7",
        8 => "8",
        _ => "9",
    };
    assert(text@ =~= seq![digit_char(digit as int)]);
    text
}

fn append_decimal(text: &mut String, n: u64)
    ensures
        final(text)@ == old(text)@ + decimal(n as nat),
    decreases n,
{
    if n >= 10 {
        append_decimal(text, n / 10);
    }
    text.append(digit_str(n % 10));
    assert(text@ =~= old(text)@ + decimal(n as nat));
}

fn append_fraction(text: &mut String, fraction: u64)
    requires
        fraction < LAMPORTS_PER_SOL,
    ensures
        final(text)@ == old(text)@ + fraction_digits(fraction as nat, 9),
{
    let mut rest: u64 = fraction;
    let mut unit: u64 = 100_000_000;
    let ghost mut places: nat = 9;
    assert(pow10(9) == 1_000_000_000 && pow10(8) == 100_000_000) by {
        reveal_with_fuel(pow10, 10);
    }
    while rest != 0
        invariant
            rest < pow10(places),
            places > 0 ==> unit == pow10((places - 1) as nat),
            text@ + fraction_digits(rest as nat, places) == old(text)@ + fraction_digits(
                fraction as nat,
                9,
            ),
        decreases places,
    {
        assert(places > 0);
        assert(unit > 0) by {
            lemma_pow10_positive((places - 1) as nat);
        }
        let digit = rest / unit;
        assert(rest < 10 * unit) by {
            assert(pow10(places) == 10 * pow10((places - 1) as nat));
        }
        assert(digit < 10) by (nonlinear_arith)
            requires
                digit == rest / unit,
                rest < 10 * unit,
                unit > 0,
        ;
        let ghost before = text@;
        text.append(digit_str(digit));
        proof {
            assert(before + fraction_digits(rest as nat, places) =~= text@ + fraction_digits(
                (rest % unit) as nat,
                (places - 1) as nat,
            ));
            if places > 1 {
                assert(pow10((places - 1) as nat) == 10 * pow10((places - 2) as nat));
            }
            places = (places - 1) as nat;
        }
        rest = rest % unit;
        unit = unit / 10;
    }
    assert(text@ =~= text@ + fraction_digits(0, places));
}

proof fn lemma_pow10_positive(exponent: nat)
    ensures
        pow10(exponent) > 0,
    decreases exponent,
{
    if exponent > 0 {
        lemma_pow10_positive((exponent - 1) as nat);
    }
}

/// Writes a number in decimal.
pub fn decimal_text(n: u64) -> (text: String)
    ensures
        text@ == decimal(n as nat),
{
    let mut text = String::new();
    append_decimal(&mut text, n);
    assert(text@ =~= decimal(n as nat));
    text
}

/// Writes an integer in decimal, with a minus sign where it is negative.
pub fn signed_decimal_text(n: i64) -> (text: String)
    ensures
        text@ == signed_decimal(n as int),
{
    let mut text = String::new();
    if n < 0 {
        proof {
            reveal_strlit("-");
        }
        text.append("-");
        let magnitude: u64 = if n == i64::MIN {
            9_223_372_036_854_775_808
        } else {
            (-n) as u64
        };
        append_decimal(&mut text, magnitude);
        assert(text@ =~= signed_decimal(n as int));
    } else {
        append_decimal(&mut text, n as u64);
        assert(text@ =~= signed_decimal(n as int));
    }
    text
}

/// Writes an amount of lamports in SOL, exactly: `1500000000` is `1.5`, one
/// lamport is `0.000000001`, and a whole number of SOL has no point.
pub fn lamports_to_sol(lamports: u64) -> (text: String)
    ensures
        text@ == sol_text(lamports as nat),
{
    let whole = lamports / LAMPORTS_PER_SOL;
    let fraction = lamports % LAMPORTS_PER_SOL;
    let mut text = String::new();
    append_decimal(&mut text, whole);
    if fraction != 0 {
        proof {
            reveal_strlit(".");
        }
        text.append(".");
        append_fraction(&mut text, fraction);
    }
    assert(text@ =~= sol_text(lamports as nat));
    text
}

} // verus!
