//! Decimal text for the values published on the bus.
//!
//! Everything the bus carries is text; this module renders unsigned and
//! signed integers and fixed-point decimal values as decimal strings,
//! against a mathematical definition of the digit sequence.

use vstd::prelude::*;

verus! {

/// The character for one decimal digit.
pub open spec fn digit_char(d: int) -> char {
    if d == 0 {
        '0'
    } else if d == 1 {
        '1'
    } else if d == 2 {
        '2'
    } else if d == 3 {
        '3'
    } else if d == 4 {
        '4'
    } else if d == 5 {
        '5'
    } else if d == 6 {
        '6'
    } else if d == 7 {
        '7'
    } else if d == 8 {
        '8'
    } else {
        '9'
    }
}

/// The decimal digits of `n`, most significant first, with no leading
/// zeros (`0` itself is the single digit `0`).
pub open spec fn nat_digits(n: nat) -> Seq<char>
    decreases n,
{
    if n < 10 {
        seq![digit_char(n as int)]
    } else {
        nat_digits(n / 10) + seq![digit_char((n % 10) as int)]
    }
}

/// The decimal text of a signed integer: a minus sign for negative
/// values, then the digits of the magnitude.
pub open spec fn int_text(m: int) -> Seq<char> {
    if m < 0 {
        seq!['-'] + nat_digits((-m) as nat)
    } else {
        nat_digits(m as nat)
    }
}

/// Ten to the power `e`.
pub open spec fn pow10(e: nat) -> nat
    decreases e,
{
    if e == 0 {
        1
    } else {
        10 * pow10((e - 1) as nat)
    }
}

/// Exactly `w` decimal digits of `n`, most significant first, with
/// leading zeros kept.
pub open spec fn pad_digits(n: nat, w: nat) -> Seq<char>
    decreases w,
{
    if w == 0 {
        Seq::<char>::empty()
    } else {
        pad_digits(n / 10, (w - 1) as nat) + seq![digit_char((n % 10) as int)]
    }
}

/// The `w`-digit rendering of a fraction numerator `f`, with trailing
/// zeros removed.
pub open spec fn frac_digits(f: nat, w: nat) -> Seq<char>
    decreases w,
{
    if w == 0 {
        Seq::<char>::empty()
    } else if f % 10 == 0 {
        frac_digits(f / 10, (w - 1) as nat)
    } else {
        pad_digits(f, w)
    }
}

/// The decimal text of the fixed-point value `m / 10^e`: the sign, the
/// integer part, and, when it is not zero, the fractional part with
/// trailing zeros removed.
pub open spec fn decimal_text(m: int, e: nat) -> Seq<char> {
    let a = if m < 0 {
        (-m) as nat
    } else {
        m as nat
    };
    let sign = if m < 0 {
        seq!['-']
    } else {
        Seq::<char>::empty()
    };
    let whole = nat_digits(a / pow10(e));
    let frac = if a % pow10(e) == 0 {
        Seq::<char>::empty()
    } else {
        seq!['.'] + frac_digits(a % pow10(e), e)
    };
    sign + whole + frac
}

/// The digits collected least significant first while dividing down,
/// read back most significant first.
pub open spec fn rev_digit_chars(ds: Seq<u64>) -> Seq<char>
    decreases ds.len(),
{
    if ds.len() == 0 {
        Seq::<char>::empty()
    } else {
        seq![digit_char((ds.last() % 10) as int)] + rev_digit_chars(ds.drop_last())
    }
}

fn digit_str(d: u64) -> (s: &'static str)
    requires
        d < 10,
    ensures
        s@ =~= seq![digit_char(d as int)],
{
    proof {
        reveal_strlit("0");
        reveal_strlit("1");
        reveal_strlit("2");
        reveal_strlit("3");
        reveal_strlit("4");
        reveal_strlit("5");
        reveal_strlit("6");
        reveal_strlit("7");
        reveal_strlit("8");
        reveal_strlit("9");
    }
    match d {
        0 => "0",
        1 => "1",
        2 => "2",
        3 => "3",
        4 => "4",
        5 => "5",
        6 => "6",
        7 => "7",
        8 => "8",
        _ => "9",
    }
}

/// Turns digits collected least significant first into their text,
/// most significant first.
fn digits_to_text(ds: &mut Vec<u64>) -> (s: String)
    ensures
        s@ =~= rev_digit_chars(old(ds)@),
{
    let mut s = String::new();
    while ds.len() > 0
        invariant
            s@ + rev_digit_chars(ds@) =~= rev_digit_chars(old(ds)@),
        decreases ds.len(),
    {
        let ghost prev = ds@;
        let ghost stext = s@;
        let d = ds.pop().unwrap();
        s.append(digit_str(d % 10));
        proof {
            assert(prev.drop_last() =~= ds@);
            assert(s@ =~= stext + seq![digit_char((d % 10) as int)]);
            assert(s@ + rev_digit_chars(ds@) =~= stext + rev_digit_chars(prev));
        }
    }
    assert(s@ =~= s@ + rev_digit_chars(ds@));
    s
}

/// The decimal text of `n`.
pub fn u64_text(n: u64) -> (s: String)
    ensures
        s@ =~= nat_digits(n as nat),
{
    let mut ds: Vec<u64> = Vec::new();
    if n == 0 {
        ds.push(0);
        proof {
            assert(ds@.drop_last() =~= Seq::<u64>::empty());
            assert(rev_digit_chars(Seq::<u64>::empty()) =~= Seq::<char>::empty());
            assert(rev_digit_chars(ds@) =~= seq![digit_char(0)]);
        }
    } else {
        let mut m = n;
        while m > 0
            invariant
                m > 0 ==> nat_digits(n as nat) =~= nat_digits(m as nat) + rev_digit_chars(ds@),
                m == 0 ==> nat_digits(n as nat) =~= rev_digit_chars(ds@),
            decreases m,
        {
            let ghost prev = ds@;
            let ghost m0 = m;
            ds.push(m % 10);
            proof {
                assert(ds@.drop_last() =~= prev);
                assert(rev_digit_chars(ds@) =~= seq![digit_char((m0 % 10) as int)]
                    + rev_digit_chars(prev));
            }
            m = m / 10;
            proof {
                if m == 0 {
                    assert(nat_digits(m0 as nat) =~= seq![digit_char((m0 % 10) as int)]);
                    assert(nat_digits(n as nat) =~= rev_digit_chars(ds@));
                } else {
                    assert(nat_digits(m0 as nat) =~= nat_digits(m as nat) + seq![
                        digit_char((m0 % 10) as int),
                    ]);
                    assert(nat_digits(n as nat) =~= nat_digits(m as nat) + rev_digit_chars(ds@));
                }
            }
        }
    }
    digits_to_text(&mut ds)
}

/// The decimal text of a signed 64-bit integer.
pub fn i64_text(m: i64) -> (s: String)
    ensures
        s@ =~= int_text(m as int),
{
    if m >= 0 {
        u64_text(m as u64)
    } else {
        let wide: i128 = m as i128;
        let mag: u64 = (-wide) as u64;
        proof {
            reveal_strlit("-");
        }
        let mut s = String::from_str("-");
        let digits = u64_text(mag);
        s.append(digits.as_str());
        proof {
            assert(mag as nat == (-(m as int)) as nat);
            assert(s@ =~= seq!['-'] + nat_digits((-(m as int)) as nat));
        }
        s
    }
}

pub proof fn lemma_pow10_pos(e: nat)
    ensures
        pow10(e) >= 1,
    decreases e,
{
    if e > 0 {
        lemma_pow10_pos((e - 1) as nat);
    }
}

pub proof fn lemma_pow10_monotone(a: nat, b: nat)
    requires
        a <= b,
    ensures
        pow10(a) <= pow10(b),
    decreases b,
{
    if a < b {
        lemma_pow10_monotone(a, (b - 1) as nat);
        lemma_pow10_pos((b - 1) as nat);
    }
}

pub proof fn lemma_pow10_18()
    ensures
        pow10(18) == 1000000000000000000,
{
    assert(pow10(0) == 1);
    assert(pow10(1) == 10);
    assert(pow10(2) == 100);
    assert(pow10(3) == 1000);
    assert(pow10(4) == 10000);
    assert(pow10(5) == 100000);
    assert(pow10(6) == 1000000);
    assert(pow10(7) == 10000000);
    assert(pow10(8) == 100000000);
    assert(pow10(9) == 1000000000);
    assert(pow10(10) == 10000000000);
    assert(pow10(11) == 100000000000);
    assert(pow10(12) == 1000000000000);
    assert(pow10(13) == 10000000000000);
    assert(pow10(14) == 100000000000000);
    assert(pow10(15) == 1000000000000000);
    assert(pow10(16) == 10000000000000000);
    assert(pow10(17) == 100000000000000000);
    assert(pow10(18) == 1000000000000000000);
}

/// Ten to the power `e`, as a machine integer.
pub fn pow10_u64(e: u32) -> (p: u64)
    requires
        e <= 18,
    ensures
        p as nat == pow10(e as nat),
{
    proof {
        lemma_pow10_18();
    }
    let mut acc: u64 = 1;
    let mut i: u32 = 0;
    while i < e
        invariant
            i <= e <= 18,
            acc as nat == pow10(i as nat),
            pow10(18) == 1000000000000000000,
        decreases e - i,
    {
        proof {
            lemma_pow10_monotone((i + 1) as nat, 18);
        }
        acc = acc * 10;
        i = i + 1;
    }
    acc
}

/// Exactly `w` digits of `n`, most significant first, leading zeros
/// kept.
pub fn pad_text(n: u64, w: u32) -> (s: String)
    ensures
        s@ =~= pad_digits(n as nat, w as nat),
{
    let mut ds: Vec<u64> = Vec::new();
    let mut m = n;
    let mut k: u32 = 0;
    while k < w
        invariant
            k <= w,
            pad_digits(n as nat, w as nat) =~= pad_digits(m as nat, (w - k) as nat)
                + rev_digit_chars(ds@),
        decreases w - k,
    {
        let ghost prev = ds@;
        let ghost m0 = m;
        ds.push(m % 10);
        proof {
            assert(ds@.drop_last() =~= prev);
            assert(rev_digit_chars(ds@) =~= seq![digit_char((m0 % 10) as int)] + rev_digit_chars(
                prev,
            ));
        }
        m = m / 10;
        k = k + 1;
        proof {
            assert(pad_digits(m0 as nat, (w - k + 1) as nat) =~= pad_digits(
                m as nat,
                (w - k) as nat,
            ) + seq![digit_char((m0 % 10) as int)]);
            assert(pad_digits(n as nat, w as nat) =~= pad_digits(m as nat, (w - k) as nat)
                + rev_digit_chars(ds@));
        }
    }
    digits_to_text(&mut ds)
}

/// The fraction digits of `f` over `w` decimal places, with trailing
/// zeros removed.
pub fn frac_text(f: u64, w: u32) -> (s: String)
    ensures
        s@ =~= frac_digits(f as nat, w as nat),
{
    let mut g = f;
    let mut v = w;
    while v > 0 && g % 10 == 0
        invariant
            frac_digits(f as nat, w as nat) =~= frac_digits(g as nat, v as nat),
        decreases v,
    {
        g = g / 10;
        v = v - 1;
    }
    if v == 0 {
        String::new()
    } else {
        assert(frac_digits(g as nat, v as nat) =~= pad_digits(g as nat, v as nat));
        pad_text(g, v)
    }
}

} // verus!
