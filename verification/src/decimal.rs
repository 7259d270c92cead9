//! Decimal text for unsigned integers, plain and with a fixed number of
//! places after the point, and the rounded quotient that the gauges use.
use vstd::prelude::*;
use vstd::string::*;
use vstd::arithmetic::div_mod::lemma_div_denominator;

verus! {

/// The character of a single decimal digit.
pub open spec fn digit_char(d: nat) -> char {
    if d == 0 {
        '0'
    } else if d == 1 {
        '1'
    } else if d == 2 {
        '2'
    } else if d == 3 {
        '3'
    } else if d == 4 {
        '4'
    } else if d == 5 {
        '5'
    } else if d == 6 {
        '6'
    } else if d == 7 {
        '7'
    } else if d == 8 {
        '8'
    } else {
        '9'
    }
}

/// `n` in decimal, without leading zeros.
pub open spec fn decimal(n: nat) -> Seq<char>
    decreases n,
{
    if n < 10 {
        seq![digit_char(n)]
    } else {
        decimal(n / 10).push(digit_char(n % 10))
    }
}

/// The last `width` decimal digits of `n`, with zeros in front where `n`
/// has fewer.
pub open spec fn last_digits(n: nat, width: nat) -> Seq<char>
    decreases width,
{
    if width == 0 {
        Seq::empty()
    } else {
        last_digits(n / 10, (width - 1) as nat).push(digit_char(n % 10))
    }
}

/// Ten to the power `e`.
pub open spec fn pow10(e: nat) -> nat
    decreases e,
{
    if e == 0 {
        1
    } else {
        10 * pow10((e - 1) as nat)
    }
}

/// `n` divided by ten to the power `places`, written with exactly `places`
/// digits after the point and nothing rounded away.
pub open spec fn fixed_point(n: nat, places: nat) -> Seq<char> {
    decimal(n / pow10(places)) + seq!['.'] + last_digits(n, places)
}

/// The integer nearest to `n / d`; where two are equally near, the even
/// one. With nothing to divide by, the ratio counts as 0.
pub open spec fn rounded_ratio(n: nat, d: nat) -> nat {
    if d == 0 {
        0
    } else {
        let q = n / d;
        let r = n % d;
        if 2 * r > d || (2 * r == d && q % 2 == 1) {
            q + 1
        } else {
            q
        }
    }
}

/// The text of one decimal digit.
fn digit_text(d: u8) -> (r: &'static str)
    requires
        d < 10,
    ensures
        r@ == seq![digit_char(d as nat)],
{
    proof {
        reveal_strlit("0");
        reveal_strlit("1");
        reveal_strlit("2");
        reveal_strlit("3");
        reveal_strlit("4");
        reveal_strlit("5");
        reveal_strlit("6");
        reveal_strlit("7");
        reveal_strlit("8");
        reveal_strlit("9");
    }
    let r = if d == 0 {
        "0"
    } else if d == 1 {
        "1"
    } else if d == 2 {
        "2"
    } else if d == 3 {
        "3"
    } else if d == 4 {
        "4"
    } else if d == 5 {
        "5"
    } else if d == 6 {
        "6"
    } else if d == 7 {
        "7"
    } else if d == 8 {
        "8"
    } else {
        "9"
    };
    r
}

/// Appends `n` in decimal to `out`.
pub fn push_decimal(out: &mut String, n: u128)
    ensures
        final(out)@ == old(out)@ + decimal(n as nat),
    decreases n,
{
    if n >= 10 {
        push_decimal(out, n / 10);
    }
    out.append(digit_text((n % 10) as u8));
}

/// Appends the last `width` decimal digits of `n` to `out`.
pub fn push_last_digits(out: &mut String, n: u128, width: u32)
    ensures
        final(out)@ == old(out)@ + last_digits(n as nat, width as nat),
    decreases width,
{
    if width > 0 {
        push_last_digits(out, n / 10, width - 1);
        out.append(digit_text((n % 10) as u8));
    }
}

/// `n` without its last `places` decimal digits.
pub fn drop_last_digits(n: u128, places: u32) -> (q: u128)
    ensures
        q == n as nat / pow10(places as nat),
{
    let mut q: u128 = n;
    let mut done: u32 = 0;
    assert(pow10(0) == 1);
    while done < places
        invariant
            done <= places,
            q == n as nat / pow10(done as nat),
            pow10(done as nat) > 0,
        decreases places - done,
    {
        proof {
            lemma_div_denominator(n as int, pow10(done as nat) as int, 10);
        }
        q = q / 10;
        done = done + 1;
    }
    q
}

/// Appends `n` divided by ten to the power `places`, with exactly `places`
/// digits after the point.
pub fn push_fixed_point(out: &mut String, n: u128, places: u32)
    ensures
        final(out)@ == old(out)@ + fixed_point(n as nat, places as nat),
{
    push_decimal(out, drop_last_digits(n, places));
    out.append(".");
    proof {
        reveal_strlit(".");
    }
    push_last_digits(out, n, places);
}

/// `n` in decimal.
pub fn format_decimal(n: u128) -> (text: String)
    ensures
        text@ == decimal(n as nat),
{
    let mut text = String::new();
    push_decimal(&mut text, n);
    text
}

/// `n` divided by ten to the power `places`, with exactly `places` digits
/// after the point.
pub fn format_fixed_point(n: u128, places: u32) -> (text: String)
    ensures
        text@ == fixed_point(n as nat, places as nat),
{
    let mut text = String::new();
    push_fixed_point(&mut text, n, places);
    text
}

/// The integer nearest to `n / d`, the even one of two that are equally
/// near; 0 where `d` is 0.
pub fn round_ratio(n: u128, d: u64) -> (q: u128)
    ensures
        q == rounded_ratio(n as nat, d as nat),
{
    if d == 0 {
        return 0;
    }
    let divisor: u128 = d as u128;
    let quotient: u128 = n / divisor;
    let rest: u128 = n % divisor;
    assert(divisor >= 2 ==> quotient <= n / 2) by (nonlinear_arith)
        requires
            quotient == n / divisor,
            divisor > 0,
    ;
    if 2 * rest > divisor || (2 * rest == divisor && quotient % 2 == 1) {
        quotient + 1
    } else {
        quotient
    }
}

} // verus!
