//! Numbers written out in decimal, as they appear in the attributes of a
//! response.

use vstd::prelude::*;
use vstd::string::*;

verus! {

/// The character of a decimal digit.
pub open spec fn digit_char(d: nat) -> char {
    if d == 0 {
        '0'
    } else if d == 1 {
        '1'
    } else if d == 2 {
        '2'
    } else if d == 3 {
        '3'
    } else if d == 4 {
        '4'
    } else if d == 5 {
        '5'
    } else if d == 6 {
        '6'
    } else if d == 7 {
        '7'
    } else if d == 8 {
        '8'
    } else {
        '9'
    }
}

/// The decimal digits of `n`, most significant first, without leading zeros;
/// zero is written as one digit.
pub open spec fn decimal_text(n: nat) -> Seq<char>
    decreases n,
{
    if n < 10 {
        seq![digit_char(n)]
    } else {
        decimal_text(n / 10).push(digit_char(n % 10))
    }
}

/// The last `width` decimal digits of `n`, with leading zeros.
pub open spec fn padded_text(n: nat, width: nat) -> Seq<char>
    decreases width,
{
    if width == 0 {
        Seq::empty()
    } else {
        padded_text(n / 10, (width - 1) as nat).push(digit_char(n % 10))
    }
}

/// The last `width` decimal digits of `n`, with leading zeros and without
/// trailing ones.
pub open spec fn fraction_text(n: nat, width: nat) -> Seq<char>
    decreases width,
{
    if width == 0 {
        Seq::empty()
    } else if n % 10 == 0 {
        fraction_text(n / 10, (width - 1) as nat)
    } else {
        padded_text(n, width)
    }
}

/// A fixed-point number of 18 fractional digits, given by its atomic units,
/// written out: the whole part, and where the fraction is not zero, a point
/// and the fraction without trailing zeros.
pub open spec fn rate_text(atomics: nat) -> Seq<char> {
    let whole = atomics / 1_000_000_000_000_000_000;
    let fraction = atomics % 1_000_000_000_000_000_000;
    if fraction == 0 {
        decimal_text(whole)
    } else {
        decimal_text(whole) + seq!['.'] + fraction_text(fraction, 18)
    }
}

/// `true` or `false`, written out.
pub open spec fn bool_text(b: bool) -> Seq<char> {
    if b {
        "true"@
    } else {
        "false"@
    }
}

fn digit_str(d: u128) -> (s: &'static str)
    requires
        d < 10,
    ensures
        s@ == seq![digit_char(d as nat)],
{
    proof {
        reveal_strlit("0");
        reveal_strlit("1");
        reveal_strlit("2");
        reveal_strlit("3");
        reveal_strlit("4");
        reveal_strlit("5");
        reveal_strlit("6");
        reveal_strlit("7");
        reveal_strlit("8");
        reveal_strlit("9");
    }
    let s: &'static str = if d == 0 {
        "0"
    } else if d == 1 {
        "1"
    } else if d == 2 {
        "2"
    } else if d == 3 {
        "3"
    } else if d == 4 {
        "4"
    } else if d == 5 {
        "5"
    } else if d == 6 {
        "6"
    } else if d == 7 {
        "7"
    } else if d == 8 {
        "8"
    } else {
        "9"
    };
    s
}

/// Ten to the power `k`.
pub open spec fn pow10(k: nat) -> nat
    decreases k,
{
    if k == 0 {
        1
    } else {
        10 * pow10((k - 1) as nat)
    }
}

/// `n` written out in decimal.
pub fn u128_to_string(n: u128) -> (s: String)
    ensures
        s@ == decimal_text(n as nat),
{
    // The power of ten of the leading digit.
    let mut div: u128 = 1;
    let ghost mut k: nat = 0;
    while n / div >= 10
        invariant
            1 <= div <= n || (div == 1 && n == 0),
            div == pow10(k),
        decreases n - div,
    {
        assert(div * 10 <= n) by (nonlinear_arith)
            requires
                n / div >= 10,
                div >= 1,
        ;
        div = div * 10;
        proof {
            k = k + 1;
        }
    }
    assert(n / div >= 1 || n == 0) by (nonlinear_arith)
        requires
            1 <= div <= n || (div == 1 && n == 0),
    ;
    let mut s: String = String::new();
    s.append(digit_str(n / div));
    while div > 1
        invariant
            1 <= div <= n || (div == 1 && n == 0),
            div == pow10(k),
            s@ == decimal_text((n / div) as nat),
            n / div >= 1 || n == 0,
        decreases div,
    {
        let next: u128 = div / 10;
        proof {
            k = (k - 1) as nat;
            vstd::arithmetic::div_mod::lemma_div_denominator(n as int, next as int, 10);
        }
        s.append(digit_str((n / next) % 10));
        div = next;
    }
    s
}

/// Appends to `s` the last `width` decimal digits of `n`, with leading zeros.
fn append_padded(s: &mut String, n: u128, width: usize)
    ensures
        final(s)@ == old(s)@ + padded_text(n as nat, width as nat),
    decreases width,
{
    if width > 0 {
        append_padded(s, n / 10, width - 1);
        s.append(digit_str(n % 10));
    }
}

/// A fixed-point number of 18 fractional digits, given by its atomic units,
/// written out.
pub fn rate_to_string(atomics: u128) -> (s: String)
    ensures
        s@ == rate_text(atomics as nat),
{
    let whole: u128 = atomics / 1_000_000_000_000_000_000;
    let mut fraction: u128 = atomics % 1_000_000_000_000_000_000;
    let mut s = u128_to_string(whole);
    if fraction == 0 {
        return s;
    }
    s.append(".");
    proof {
        reveal_strlit(".");
    }
    let ghost head = s@;
    let mut width: usize = 18;
    while width > 0 && fraction % 10 == 0
        invariant
            width <= 18,
            s@ == head,
            fraction_text((atomics % 1_000_000_000_000_000_000) as nat, 18) == fraction_text(
                fraction as nat,
                width as nat,
            ),
        decreases width,
    {
        fraction = fraction / 10;
        width = width - 1;
    }
    append_padded(&mut s, fraction, width);
    s
}

/// `n` written out in decimal.
pub fn u64_to_string(n: u64) -> (s: String)
    ensures
        s@ == decimal_text(n as nat),
{
    u128_to_string(n as u128)
}

/// `true` or `false`, written out.
pub fn bool_to_string(b: bool) -> (s: String)
    ensures
        s@ == bool_text(b),
{
    if b {
        String::from_str("true")
    } else {
        String::from_str("false")
    }
}

} // verus!
