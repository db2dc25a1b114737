//! Decimal text of natural numbers, and division rounded to the nearest
//! integer.

use vstd::prelude::*;

verus! {

/// The character that denotes the decimal digit `d`.
pub open spec fn digit_char(d: int) -> char
    recommends
        0 <= d <= 9,
{
    if d == 0 {
        '0'
    } else if d == 1 {
        '1'
    } else if d == 2 {
        '2'
    } else if d == 3 {
        '3'
    } else if d == 4 {
        '4'
    } else if d == 5 {
        '5'
    } else if d == 6 {
        '6'
    } else if d == 7 {
        '7'
    } else if d == 8 {
        '8'
    } else {
        '9'
    }
}

/// The decimal digits of `n`, most significant first, without leading zeros
/// (zero itself is the single digit `0`).
pub open spec fn decimal(n: nat) -> Seq<char>
    decreases n,
{
    if n < 10 {
        seq![digit_char(n as int)]
    } else {
        decimal(n / 10).push(digit_char((n % 10) as int))
    }
}

/// `n` written with exactly three digits, padded with zeros on the left.
pub open spec fn three_digits(n: nat) -> Seq<char>
    recommends
        n < 1000,
{
    seq![digit_char((n / 100) as int), digit_char((n / 10 % 10) as int), digit_char((n % 10) as int)]
}

/// `numerator / denominator` rounded to the nearest integer; a quotient that
/// lies exactly halfway between two integers goes to the even one.
pub open spec fn round_half_even(numerator: nat, denominator: nat) -> nat
    recommends
        denominator > 0,
{
    let quotient = numerator / denominator;
    let remainder = numerator % denominator;
    if 2 * remainder > denominator || (2 * remainder == denominator && quotient % 2 == 1) {
        quotient + 1
    } else {
        quotient
    }
}

/// No integer is closer to `numerator / denominator` than the rounded
/// quotient, and where two integers are equally close the rounded quotient is
/// the even one.
pub proof fn lemma_round_half_even_is_nearest(numerator: nat, denominator: nat)
    requires
        denominator > 0,
    ensures
        ({
            let rounded = round_half_even(numerator, denominator);
            let error = rounded * denominator - numerator;
            &&& -(denominator as int) <= 2 * error <= denominator
            &&& (2 * error == denominator || 2 * error == -(denominator as int)) ==> rounded % 2 == 0
        }),
{
    let quotient = numerator / denominator;
    let remainder = numerator % denominator;
    assert(numerator == quotient * denominator + remainder && 0 <= remainder < denominator) by {
        vstd::arithmetic::div_mod::lemma_fundamental_div_mod(numerator as int, denominator as int);
        vstd::arithmetic::div_mod::lemma_mod_bound(numerator as int, denominator as int);
        vstd::arithmetic::mul::lemma_mul_is_commutative(quotient as int, denominator as int);
    }
    assert((quotient + 1) * denominator == quotient * denominator + denominator) by (nonlinear_arith);
}

/// The one-character text of the decimal digit `d`.
fn digit_text(d: u8) -> (text: &'static str)
    requires
        d <= 9,
    ensures
        text@ == seq![digit_char(d as int)],
{
    proof {
        reveal_strlit("0");
        reveal_strlit("1");
        reveal_strlit("2");
        reveal_strlit("3");
        reveal_strlit("4");
        reveal_strlit("5");
        reveal_strlit("6");
        reveal_strlit("7");
        reveal_strlit("8");
        reveal_strlit("9");
    }
    let text = match d {
        0 => "0",
        1 => "1",
        2 => "2",
        3 => "3",
        4 => "4",
        5 => "5",
        6 => "6",
        7 => "7",
        8 => "8",
        _ => "9",
    };
    assert(text@ =~= seq![digit_char(d as int)]);
    text
}

/// Appends the decimal digits of `n` to `out`.
pub(crate) fn push_decimal(out: &mut String, n: u128)
    ensures
        final(out)@ == old(out)@ + decimal(n as nat),
    decreases n,
{
    if n >= 10 {
        push_decimal(out, n / 10);
    }
    out.append(digit_text((n % 10) as u8));
}

/// Appends `n`, written with exactly three digits, to `out`.
pub(crate) fn push_three_digits(out: &mut String, n: u16)
    requires
        n < 1000,
    ensures
        final(out)@ == old(out)@ + three_digits(n as nat),
{
    out.append(digit_text((n / 100) as u8));
    out.append(digit_text((n / 10 % 10) as u8));
    out.append(digit_text((n % 10) as u8));
}

/// `numerator / denominator` rounded to the nearest integer, ties to even.
pub(crate) fn div_round_half_even(numerator: u128, denominator: u128) -> (rounded: u128)
    requires
        denominator > 0,
    ensures
        rounded == round_half_even(numerator as nat, denominator as nat),
{
    let quotient: u128 = numerator / denominator;
    let remainder: u128 = numerator % denominator;
    let rest: u128 = denominator - remainder;
    if remainder > rest || (remainder == rest && quotient % 2 == 1) {
        assert(quotient < u128::MAX) by {
            vstd::arithmetic::div_mod::lemma_fundamental_div_mod(
                numerator as int,
                denominator as int,
            );
            assert(remainder > 0 && denominator >= 2);
            assert(2 * quotient <= denominator * quotient) by (nonlinear_arith)
                requires
                    denominator >= 2,
                    quotient >= 0,
            ;
        }
        quotient + 1
    } else {
        quotient
    }
}

} // verus!
