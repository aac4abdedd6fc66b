//! Decimal text of unsigned numbers: plain integers and fixed-point numbers
//! with a given number of digits behind the point.

use vstd::prelude::*;

verus! {

/// The character that separates the whole part from the fraction.
pub const POINT: char = '.';

/// The character of a single decimal digit.
pub open spec fn digit_char(d: int) -> char {
    if d == 0 {
        '0'
    } else if d == 1 {
        '1'
    } else if d == 2 {
        '2'
    } else if d == 3 {
        '3'
    } else if d == 4 {
        '4'
    } else if d == 5 {
        '5'
    } else if d == 6 {
        '6'
    } else if d == 7 {
        '7'
    } else if d == 8 {
        '8'
    } else {
        '9'
    }
}

/// Whether a character is one of the ten decimal digits.
pub open spec fn is_digit(c: char) -> bool {
    c == '0' || c == '1' || c == '2' || c == '3' || c == '4' || c == '5' || c == '6' || c == '7'
        || c == '8' || c == '9'
}

/// The number that a decimal digit stands for.
pub open spec fn digit_value(c: char) -> nat {
    if c == '1' {
        1
    } else if c == '2' {
        2
    } else if c == '3' {
        3
    } else if c == '4' {
        4
    } else if c == '5' {
        5
    } else if c == '6' {
        6
    } else if c == '7' {
        7
    } else if c == '8' {
        8
    } else if c == '9' {
        9
    } else {
        0
    }
}

/// The number that a run of decimal digits stands for, most significant
/// digit first. The empty run stands for zero.
pub open spec fn digits_value(digits: Seq<char>) -> nat
    decreases digits.len(),
{
    if digits.len() == 0 {
        0
    } else {
        10 * digits_value(digits.drop_last()) + digit_value(digits.last())
    }
}

/// Ten to the power `e`.
pub open spec fn pow10(e: nat) -> nat
    decreases e,
{
    if e == 0 {
        1
    } else {
        10 * pow10((e - 1) as nat)
    }
}

/// The decimal digits of `n`, most significant first, without leading
/// zeros; zero is the single digit `0`.
pub open spec fn decimal(n: nat) -> Seq<char>
    decreases n,
{
    if n < 10 {
        seq![digit_char(n as int)]
    } else {
        decimal(n / 10).push(digit_char((n % 10) as int))
    }
}

/// The `places` least significant decimal digits of `n`, most significant
/// first, with leading zeros where `n` has fewer digits.
pub open spec fn low_digits(n: nat, places: nat) -> Seq<char>
    decreases places,
{
    if places == 0 {
        Seq::empty()
    } else {
        low_digits(n / 10, (places - 1) as nat).push(digit_char((n % 10) as int))
    }
}

/// The text of the number `scaled / 10^places` with exactly `places` digits
/// behind the point. The point is written even where `places` is zero.
pub open spec fn fixed_point(scaled: nat, places: nat) -> Seq<char> {
    decimal(scaled / pow10(places)).push(POINT) + low_digits(scaled, places)
}

fn digit(d: u8) -> (c: char)
    requires
        d < 10,
    ensures
        c == digit_char(d as int),
{
    if d == 0 {
        '0'
    } else if d == 1 {
        '1'
    } else if d == 2 {
        '2'
    } else if d == 3 {
        '3'
    } else if d == 4 {
        '4'
    } else if d == 5 {
        '5'
    } else if d == 6 {
        '6'
    } else if d == 7 {
        '7'
    } else if d == 8 {
        '8'
    } else {
        '9'
    }
}

/// Appends the decimal digits of `n` to `out`.
pub fn push_decimal(out: &mut String, n: u128)
    ensures
        final(out)@ == old(out)@ + decimal(n as nat),
    decreases n,
{
    if n >= 10 {
        push_decimal(out, n / 10);
    }
    out.push(digit((n % 10) as u8));
}

/// Appends the `places` least significant decimal digits of `n` to `out`.
pub fn push_low_digits(out: &mut String, n: u128, places: u8)
    ensures
        final(out)@ == old(out)@ + low_digits(n as nat, places as nat),
    decreases places,
{
    if places > 0 {
        push_low_digits(out, n / 10, places - 1);
        out.push(digit((n % 10) as u8));
    }
}

/// `scaled` without its `places` least significant decimal digits.
pub fn whole_part(scaled: u128, places: u8) -> (whole: u128)
    ensures
        whole == scaled as nat / pow10(places as nat),
{
    let mut whole: u128 = scaled;
    let mut dropped: u8 = 0;
    assert(pow10(0) == 1);
    while dropped < places
        invariant
            dropped <= places,
            whole == scaled as nat / pow10(dropped as nat),
        decreases places - dropped,
    {
        proof {
            lemma_pow10_positive(dropped as nat);
            vstd::arithmetic::div_mod::lemma_div_denominator(
                scaled as int,
                pow10(dropped as nat) as int,
                10,
            );
            assert(pow10(dropped as nat) * 10 == pow10((dropped + 1) as nat));
        }
        whole = whole / 10;
        dropped += 1;
    }
    whole
}

/// Appends to `out` the text of `scaled / 10^places` with exactly `places`
/// digits behind the point.
pub fn push_fixed_point(out: &mut String, scaled: u128, places: u8)
    ensures
        final(out)@ == old(out)@ + fixed_point(scaled as nat, places as nat),
{
    push_decimal(out, whole_part(scaled, places));
    out.push(POINT);
    push_low_digits(out, scaled, places);
}

/// Powers of ten are positive.
pub proof fn lemma_pow10_positive(e: nat)
    ensures
        pow10(e) > 0,
    decreases e,
{
    if e > 0 {
        lemma_pow10_positive((e - 1) as nat);
    }
}

/// Appending one digit multiplies the value by ten and adds the digit.
pub proof fn lemma_value_push(digits: Seq<char>, c: char)
    ensures
        digits_value(digits.push(c)) == 10 * digits_value(digits) + digit_value(c),
{
    assert(digits.push(c).drop_last() =~= digits);
}

/// The value of two runs of digits written one after the other: the first
/// run is shifted left by the length of the second.
pub proof fn lemma_value_concat(high: Seq<char>, low: Seq<char>)
    ensures
        digits_value(high + low) == digits_value(high) * pow10(low.len()) + digits_value(low),
    decreases low.len(),
{
    if low.len() == 0 {
        assert(high + low =~= high);
        assert(pow10(0) == 1);
    } else {
        let rest = low.drop_last();
        let h = digits_value(high);
        let p = pow10(rest.len());
        lemma_value_concat(high, rest);
        assert((high + low).drop_last() =~= high + rest);
        assert((high + low).last() == low.last());
        assert(pow10(low.len()) == 10 * p);
        assert(digits_value(high + low) == 10 * (h * p + digits_value(rest)) + digit_value(
            low.last(),
        ));
        assert(h * (10 * p) == 10 * (h * p)) by (nonlinear_arith);
    }
}

/// The text of a number is made of digits only, is never empty, starts with
/// a zero only for zero itself, and stands for the number.
pub proof fn lemma_decimal(n: nat)
    ensures
        decimal(n).len() >= 1,
        forall|i: int| 0 <= i < decimal(n).len() ==> is_digit(#[trigger] decimal(n)[i]),
        n > 0 ==> decimal(n)[0] != '0',
        digits_value(decimal(n)) == n,
    decreases n,
{
    if n < 10 {
        lemma_value_push(Seq::empty(), digit_char(n as int));
        assert(decimal(n) =~= Seq::<char>::empty().push(digit_char(n as int)));
    } else {
        lemma_decimal(n / 10);
        lemma_value_push(decimal(n / 10), digit_char((n % 10) as int));
    }
}

/// The low digits of a number are exactly as many as asked for, are digits
/// only, and stand for the number modulo the matching power of ten.
pub proof fn lemma_low_digits(n: nat, places: nat)
    ensures
        low_digits(n, places).len() == places,
        forall|i: int| 0 <= i < places ==> is_digit(#[trigger] low_digits(n, places)[i]),
        digits_value(low_digits(n, places)) == n % pow10(places),
    decreases places,
{
    if places > 0 {
        let rest = (places - 1) as nat;
        lemma_low_digits(n / 10, rest);
        lemma_value_push(low_digits(n / 10, rest), digit_char((n % 10) as int));
        lemma_pow10_positive(rest);
        vstd::arithmetic::div_mod::lemma_breakdown(n as int, 10, pow10(rest) as int);
    }
}

/// Where the point stands in the text of a fixed-point number: behind the
/// digits of the whole part.
pub open spec fn point_index(scaled: nat, places: nat) -> int {
    decimal(scaled / pow10(places)).len() as int
}

/// Whether `text` has the shape of a number with exactly `places` digits
/// behind the point: at least one digit, one point, `places` digits, and
/// nothing else.
pub open spec fn is_fixed_point(text: Seq<char>, places: nat) -> bool {
    &&& text.len() >= places + 2
    &&& text[text.len() - places - 1] == POINT
    &&& forall|i: int|
        0 <= i < text.len() && i != text.len() - places - 1 ==> is_digit(#[trigger] text[i])
}

/// The text of a fixed-point number has the shape of one, with its point
/// behind the digits of the whole part.
pub proof fn lemma_fixed_point_shape(scaled: nat, places: nat)
    ensures
        is_fixed_point(fixed_point(scaled, places), places),
        fixed_point(scaled, places).len() == point_index(scaled, places) + 1 + places,
{
    lemma_decimal(scaled / pow10(places));
    lemma_low_digits(scaled, places);
}

/// What a fixed-point text stands for: the digits before the point are the
/// whole part of `scaled / 10^places`, the digits behind it the remainder,
/// and the text without its point reads as `scaled` itself.
pub proof fn lemma_fixed_point_value(scaled: nat, places: nat)
    ensures
        digits_value(fixed_point(scaled, places).take(point_index(scaled, places))) == scaled
            / pow10(places),
        digits_value(fixed_point(scaled, places).skip(point_index(scaled, places) + 1)) == scaled
            % pow10(places),
        digits_value(fixed_point(scaled, places).remove(point_index(scaled, places))) == scaled,
{
    let whole = decimal(scaled / pow10(places));
    let low = low_digits(scaled, places);
    let text = fixed_point(scaled, places);
    lemma_decimal(scaled / pow10(places));
    lemma_low_digits(scaled, places);
    lemma_pow10_positive(places);
    assert(text.take(whole.len() as int) =~= whole);
    assert(text.skip(whole.len() as int + 1) =~= low);
    assert(text.remove(whole.len() as int) =~= whole + low);
    lemma_value_concat(whole, low);
    vstd::arithmetic::div_mod::lemma_fundamental_div_mod(scaled as int, pow10(places) as int);
    assert((scaled / pow10(places)) * pow10(places) == pow10(places) * (scaled / pow10(places)))
        by (nonlinear_arith);
}

} // verus!
