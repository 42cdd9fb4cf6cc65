//! Fixed-point amounts as decimal text with two fractional digits.
//!
//! A raw quantity `q` with scaling exponent `e` stands for `q / 10^e`. It is
//! rendered to hundredths, rounded to the nearest hundredth, a tie going to
//! the even one. A quantity is a 256-bit number in four limbs, and every
//! step here works on the limbs: nothing is cut to a narrower type.

use crate::monitors::types::limbs_value;
use vstd::arithmetic::div_mod::{
    lemma_breakdown, lemma_div_denominator, lemma_fundamental_div_mod,
    lemma_fundamental_div_mod_converse, lemma_mod_bound,
};
use vstd::prelude::*;
use vstd::string::*;

verus! {

/// Ten to the power `e`.
pub open spec fn pow10(e: nat) -> nat
    decreases e,
{
    if e == 0 {
        1
    } else {
        10 * pow10((e - 1) as nat)
    }
}

/// The quotient `numerator / denominator`, rounded to the nearest integer, a
/// tie going to the even one.
pub open spec fn round_half_even(numerator: nat, denominator: nat) -> nat {
    let floor = numerator / denominator;
    let rest = numerator % denominator;
    if 2 * rest > denominator || (2 * rest == denominator && floor % 2 == 1) {
        floor + 1
    } else {
        floor
    }
}

/// `quantity / 10^exponent` in hundredths, rounded half to even.
pub open spec fn hundredths(quantity: nat, exponent: nat) -> nat {
    round_half_even(100 * quantity, pow10(exponent))
}

/// The character of one decimal digit.
pub open spec fn digit_char(d: nat) -> char {
    if d == 0 {
        '0'
    } else if d == 1 {
        '1'
    } else if d == 2 {
        '2'
    } else if d == 3 {
        '3'
    } else if d == 4 {
        '4'
    } else if d == 5 {
        '5'
    } else if d == 6 {
        '6'
    } else if d == 7 {
        '7'
    } else if d == 8 {
        '8'
    } else {
        '9'
    }
}

/// The decimal digits of `n`, most significant first, without leading zeros.
pub open spec fn decimal_digits(n: nat) -> Seq<char>
    decreases n,
{
    if n < 10 {
        seq![digit_char(n)]
    } else {
        decimal_digits(n / 10).push(digit_char(n % 10))
    }
}

/// The text of an amount: the whole part, a point, and two fractional digits.
pub open spec fn amount_text(quantity: nat, exponent: nat) -> Seq<char> {
    let h = hundredths(quantity, exponent);
    decimal_digits(h / 100).push('.').push(digit_char((h / 10) % 10)).push(digit_char(h % 10))
}

/// Every power of ten is positive.
pub proof fn lemma_pow10_positive(e: nat)
    ensures
        0 < pow10(e),
    decreases e,
{
    if e > 0 {
        lemma_pow10_positive((e - 1) as nat);
    }
}

/// With at most two fractional digits nothing is rounded away.
pub proof fn lemma_hundredths_exact(quantity: nat, exponent: nat)
    requires
        exponent <= 2,
    ensures
        hundredths(quantity, exponent) == quantity * pow10((2 - exponent) as nat),
{
    reveal_with_fuel(pow10, 3);
    let whole = 100 * quantity;
    let scale = pow10((2 - exponent) as nat);
    let unit = pow10(exponent);
    assert(unit * scale == 100) by {
        assert(pow10(0) == 1 && pow10(1) == 10 && pow10(2) == 100);
        if exponent == 0 {
            assert(unit * scale == 1 * 100);
        } else if exponent == 1 {
            assert(unit * scale == 10 * 10);
        } else {
            assert(unit * scale == 100 * 1);
        }
    }
    assert(whole == (quantity * scale) * unit + 0) by (nonlinear_arith)
        requires
            whole == 100 * quantity,
            unit * scale == 100,
    ;
    lemma_fundamental_div_mod_converse(whole as int, unit as int, (quantity * scale) as int, 0);
}

/// With two fractional digits or more, the hundredths are the quantity
/// divided by the unit of the digits beyond the second, and rounded.
pub proof fn lemma_hundredths_by_unit(quantity: nat, exponent: nat)
    requires
        exponent >= 2,
    ensures
        hundredths(quantity, exponent) == round_half_even(
            quantity,
            pow10((exponent - 2) as nat),
        ),
{
    let unit = pow10((exponent - 2) as nat);
    let floor = quantity / unit;
    let rest = quantity % unit;
    lemma_pow10_positive((exponent - 2) as nat);
    assert(pow10(exponent) == 100 * unit) by {
        reveal_with_fuel(pow10, 3);
    }
    lemma_fundamental_div_mod(quantity as int, unit as int);
    assert(100 * quantity == floor * (100 * unit) + 100 * rest) by (nonlinear_arith)
        requires
            quantity == unit * floor + rest,
    ;
    lemma_fundamental_div_mod_converse(
        (100 * quantity) as int,
        (100 * unit) as int,
        floor as int,
        (100 * rest) as int,
    );
}

/// One more digit of the quantity taken off: how quotient and remainder by
/// the next power of ten come from those by this one.
pub proof fn lemma_next_digit(quantity: nat, e: nat)
    ensures
        0 < pow10(e),
        pow10(e + 1) == 10 * pow10(e),
        quantity % pow10(e) < pow10(e),
        quantity / pow10(e + 1) == (quantity / pow10(e)) / 10,
        quantity % pow10(e + 1) == pow10(e) * ((quantity / pow10(e)) % 10) + quantity % pow10(e),
{
    let unit = pow10(e);
    lemma_pow10_positive(e);
    assert(pow10(e + 1) == 10 * unit) by {
        reveal_with_fuel(pow10, 2);
    }
    lemma_mod_bound(quantity as int, unit as int);
    lemma_div_denominator(quantity as int, unit as int, 10);
    lemma_breakdown(quantity as int, unit as int, 10);
    assert(unit * 10 == 10 * unit);
}

/// How a remainder stands to half its unit once one more digit is put in
/// front of it.
pub proof fn lemma_half_with_digit(unit: nat, rest: nat, digit: nat)
    requires
        0 < unit,
        rest < unit,
        digit < 10,
    ensures
        2 * (unit * digit + rest) > 10 * unit <==> digit > 5 || (digit == 5 && rest != 0),
        2 * (unit * digit + rest) == 10 * unit <==> digit == 5 && rest == 0,
        unit * digit + rest != 0 <==> digit != 0 || rest != 0,
{
    if digit <= 4 {
        assert(unit * digit <= unit * 4) by (nonlinear_arith)
            requires
                digit <= 4,
        ;
    } else if digit == 5 {
        assert(unit * digit == unit * 5);
    } else {
        assert(unit * digit >= unit * 6) by (nonlinear_arith)
            requires
                digit >= 6,
        ;
    }
    if digit == 0 {
        assert(unit * digit == 0);
    } else {
        assert(unit * digit >= unit) by (nonlinear_arith)
            requires
                digit >= 1,
        ;
    }
}

/// A 256-bit number divided by ten: the quotient and the remainder.
pub fn div_ten(limbs: &[u64; 4]) -> (parts: ([u64; 4], u8))
    ensures
        limbs_value(parts.0@) == limbs_value(limbs@) / 10,
        parts.1 == limbs_value(limbs@) % 10,
{
    let base: u128 = 0x1_0000_0000_0000_0000;
    let top: u128 = limbs[3] as u128;
    let q3: u128 = top / 10;
    let r3: u128 = top % 10;
    let upper: u128 = r3 * base + limbs[2] as u128;
    let q2: u128 = upper / 10;
    let r2: u128 = upper % 10;
    let lower: u128 = r2 * base + limbs[1] as u128;
    let q1: u128 = lower / 10;
    let r1: u128 = lower % 10;
    let last: u128 = r1 * base + limbs[0] as u128;
    let q0: u128 = last / 10;
    let r0: u128 = last % 10;
    let quotient: [u64; 4] = [q0 as u64, q1 as u64, q2 as u64, q3 as u64];
    proof {
        assert(limbs_value(limbs@) == 10 * limbs_value(quotient@) + r0);
        lemma_fundamental_div_mod_converse(
            limbs_value(limbs@) as int,
            10,
            limbs_value(quotient@) as int,
            r0 as int,
        );
    }
    (quotient, r0 as u8)
}

/// Whether a 256-bit number is zero.
pub fn is_zero(limbs: &[u64; 4]) -> (zero: bool)
    ensures
        zero == (limbs_value(limbs@) == 0),
{
    limbs[0] == 0 && limbs[1] == 0 && limbs[2] == 0 && limbs[3] == 0
}

/// Whether a 256-bit number is odd.
pub fn is_odd(limbs: &[u64; 4]) -> (odd: bool)
    ensures
        odd == (limbs_value(limbs@) % 2 == 1),
{
    proof {
        let rest = (limbs[1] as nat) * 0x8000_0000_0000_0000 + (limbs[2] as nat)
            * 0x8000_0000_0000_0000_0000_0000_0000_0000 + (limbs[3] as nat)
            * 0x8000_0000_0000_0000_0000_0000_0000_0000_0000_0000_0000_0000;
        assert(limbs_value(limbs@) == (limbs[0] as nat) + 2 * rest);
    }
    limbs[0] % 2 == 1
}

/// A 256-bit number and one more.
pub fn increment(limbs: &[u64; 4]) -> (next: [u64; 4])
    requires
        limbs_value(limbs@) + 1
            < 0x1_0000_0000_0000_0000_0000_0000_0000_0000_0000_0000_0000_0000_0000_0000_0000_0000,
    ensures
        limbs_value(next@) == limbs_value(limbs@) + 1,
{
    if limbs[0] < u64::MAX {
        [limbs[0] + 1, limbs[1], limbs[2], limbs[3]]
    } else if limbs[1] < u64::MAX {
        [0, limbs[1] + 1, limbs[2], limbs[3]]
    } else if limbs[2] < u64::MAX {
        [0, 0, limbs[2] + 1, limbs[3]]
    } else {
        assert(limbs[3] < u64::MAX) by {
            assert(limbs[0] == u64::MAX && limbs[1] == u64::MAX && limbs[2] == u64::MAX);
            assert(limbs_value(limbs@) == 0x1_0000_0000_0000_0000_0000_0000_0000_0000_0000_0000_0000_0000
                - 1 + (limbs[3] as nat)
                * 0x1_0000_0000_0000_0000_0000_0000_0000_0000_0000_0000_0000_0000);
        }
        [0, 0, 0, limbs[3] + 1]
    }
}

/// An amount with two fractional digits or more, in hundredths.
pub fn round_to_hundredths(quantity: &[u64; 4], exponent: u8) -> (rounded: [u64; 4])
    requires
        exponent >= 2,
    ensures
        limbs_value(rounded@) == hundredths(limbs_value(quantity@), exponent as nat),
{
    let ghost whole = limbs_value(quantity@);
    let beyond: u8 = exponent - 2;
    let mut floor: [u64; 4] = *quantity;
    let mut above: bool = false;
    let mut half: bool = false;
    let mut nonzero: bool = false;
    let mut taken: u8 = 0;
    assert(pow10(0) == 1);
    while taken < beyond
        invariant
            taken <= beyond,
            limbs_value(floor@) == whole / pow10(taken as nat),
            above == (2 * (whole % pow10(taken as nat)) > pow10(taken as nat)),
            half == (2 * (whole % pow10(taken as nat)) == pow10(taken as nat)),
            nonzero == (whole % pow10(taken as nat) != 0),
        decreases beyond - taken,
    {
        let (next, digit) = div_ten(&floor);
        proof {
            lemma_next_digit(whole, taken as nat);
            lemma_half_with_digit(
                pow10(taken as nat),
                whole % pow10(taken as nat),
                digit as nat,
            );
        }
        above = digit > 5 || (digit == 5 && nonzero);
        half = digit == 5 && !nonzero;
        nonzero = nonzero || digit != 0;
        floor = next;
        taken = taken + 1;
    }
    proof {
        lemma_hundredths_by_unit(whole, exponent as nat);
    }
    let odd = is_odd(&floor);
    if above || (half && odd) {
        proof {
            lemma_next_digit(whole, (beyond - 1) as nat);
            lemma_fundamental_div_mod(whole as int, pow10(beyond as nat) as int);
            assert(pow10(beyond as nat) * limbs_value(floor@) >= 10 * limbs_value(floor@))
                by (nonlinear_arith)
                requires
                    pow10(beyond as nat) >= 10,
            ;
        }
        increment(&floor)
    } else {
        floor
    }
}

/// One decimal digit as text.
pub fn digit_text(d: u8) -> (text: &'static str)
    requires
        d < 10,
    ensures
        text@ == seq![digit_char(d as nat)],
{
    proof {
        reveal_strlit("0");
        reveal_strlit("1");
        reveal_strlit("2");
        reveal_strlit("3");
        reveal_strlit("4");
        reveal_strlit("5");
        reveal_strlit("6");
        reveal_strlit("7");
        reveal_strlit("8");
        reveal_strlit("9");
    }
    let text: &'static str = if d == 0 {
        "0"
    } else if d == 1 {
        "1"
    } else if d == 2 {
        "2"
    } else if d == 3 {
        "3"
    } else if d == 4 {
        "4"
    } else if d == 5 {
        "5"
    } else if d == 6 {
        "6"
    } else if d == 7 {
        "7"
    } else if d == 8 {
        "8"
    } else {
        "9"
    };
    assert(text@ =~= seq![digit_char(d as nat)]);
    text
}

/// Appends the decimal digits of `n` to `text`.
pub fn push_decimal(text: &mut String, n: &[u64; 4])
    ensures
        final(text)@ == old(text)@ + decimal_digits(limbs_value(n@)),
    decreases limbs_value(n@),
{
    let (rest, last) = div_ten(n);
    if !is_zero(&rest) {
        push_decimal(text, &rest);
    }
    text.append(digit_text(last));
    assert(final(text)@ =~= old(text)@ + decimal_digits(limbs_value(n@)));
}

/// Appends the amount `quantity / 10^exponent`, with two fractional digits, to
/// `text`.
pub fn push_amount(text: &mut String, quantity: &[u64; 4], exponent: u8)
    ensures
        final(text)@ == old(text)@ + amount_text(limbs_value(quantity@), exponent as nat),
{
    let ghost h = hundredths(limbs_value(quantity@), exponent as nat);
    proof {
        reveal_strlit(".");
        reveal_with_fuel(pow10, 3);
    }
    if exponent == 0 {
        proof {
            lemma_hundredths_exact(limbs_value(quantity@), 0);
        }
        push_decimal(text, quantity);
        text.append(".");
        text.append(digit_text(0));
        text.append(digit_text(0));
    } else if exponent == 1 {
        proof {
            lemma_hundredths_exact(limbs_value(quantity@), 1);
        }
        let (whole, tenths) = div_ten(quantity);
        push_decimal(text, &whole);
        text.append(".");
        text.append(digit_text(tenths));
        text.append(digit_text(0));
    } else {
        let rounded = round_to_hundredths(quantity, exponent);
        let (tenths, last) = div_ten(&rounded);
        let (whole, first) = div_ten(&tenths);
        push_decimal(text, &whole);
        text.append(".");
        text.append(digit_text(first));
        text.append(digit_text(last));
    }
    assert(final(text)@ =~= old(text)@ + amount_text(limbs_value(quantity@), exponent as nat));
}

} // verus!
