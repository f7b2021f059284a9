//! Six-decimal fixed-point amounts and their text form.
use vstd::prelude::*;

verus! {

/// One unit of collateral in its smallest on-chain unit (6 decimals).
pub const UNIT: u128 = 1_000_000;

/// The character of a decimal digit.
pub open spec fn digit_char(d: nat) -> char {
    if d == 0 {
        '0'
    } else if d == 1 {
        '1'
    } else if d == 2 {
        '2'
    } else if d == 3 {
        '3'
    } else if d == 4 {
        '4'
    } else if d == 5 {
        '5'
    } else if d == 6 {
        '6'
    } else if d == 7 {
        '7'
    } else if d == 8 {
        '8'
    } else {
        '9'
    }
}

/// The decimal digits of `n`, without leading zeros ("0" for zero).
pub open spec fn decimal(n: nat) -> Seq<char>
    decreases n,
{
    if n < 10 {
        seq![digit_char(n)]
    } else {
        decimal(n / 10).push(digit_char(n % 10))
    }
}

/// The last `width` decimal digits of `n`, padded with leading zeros.
pub open spec fn padded(n: nat, width: nat) -> Seq<char>
    decreases width,
{
    if width == 0 {
        Seq::empty()
    } else {
        padded(n / 10, (width - 1) as nat).push(digit_char(n % 10))
    }
}

/// The text of a count of millionths with exactly six decimal places:
/// `1500000` reads `1.500000`.
pub open spec fn fixed6(v: nat) -> Seq<char> {
    decimal(v / 1_000_000) + seq!['.'] + padded(v % 1_000_000, 6)
}

/// `num / den` in millionths, rounded to the nearest millionth, halves away
/// from zero.
pub open spec fn scaled_ratio(num: nat, den: nat) -> nat
    recommends
        den > 0,
{
    ((2 * num * 1_000_000 + den) / (2 * den)) as nat
}

fn digit_str(d: u128) -> (r: &'static str)
    requires
        d < 10,
    ensures
        r@ == seq![digit_char(d as nat)],
{
    proof {
        reveal_strlit("0");
        reveal_strlit("1");
        reveal_strlit("2");
        reveal_strlit("3");
        reveal_strlit("4");
        reveal_strlit("5");
        reveal_strlit("6");
        reveal_strlit("7");
        reveal_strlit("8");
        reveal_strlit("9");
    }
    if d == 0 {
        "0"
    } else if d == 1 {
        "1"
    } else if d == 2 {
        "2"
    } else if d == 3 {
        "3"
    } else if d == 4 {
        "4"
    } else if d == 5 {
        "5"
    } else if d == 6 {
        "6"
    } else if d == 7 {
        "7"
    } else if d == 8 {
        "8"
    } else {
        "9"
    }
}

fn append_decimal(s: &mut String, n: u128)
    ensures
        final(s)@ == old(s)@ + decimal(n as nat),
    decreases n,
{
    if n >= 10 {
        append_decimal(s, n / 10);
    }
    s.append(digit_str(n % 10));
    assert(final(s)@ == old(s)@ + decimal(n as nat));
}

fn append_padded(s: &mut String, n: u128, width: usize)
    ensures
        final(s)@ == old(s)@ + padded(n as nat, width as nat),
    decreases width,
{
    if width > 0 {
        append_padded(s, n / 10, width - 1);
        s.append(digit_str(n % 10));
    }
    assert(final(s)@ == old(s)@ + padded(n as nat, width as nat));
}

/// The six-decimal text of `whole + frac / 10^6`.
pub fn fixed6_text(whole: u128, frac: u128) -> (r: String)
    requires
        frac < UNIT,
    ensures
        r@ == fixed6((whole * 1_000_000 + frac) as nat),
{
    let mut s = String::new();
    append_decimal(&mut s, whole);
    s.append(".");
    append_padded(&mut s, frac, 6);
    proof {
        reveal_strlit(".");
        let v = whole * 1_000_000 + frac;
        vstd::arithmetic::div_mod::lemma_fundamental_div_mod_converse(
            v as int,
            1_000_000,
            whole as int,
            frac as int,
        );
        assert(s@ =~= fixed6(v as nat));
    }
    s
}

/// The text of an amount given in millionths: `100000` reads `0.100000`.
pub fn amount_text(amount: u128) -> (r: String)
    ensures
        r@ == fixed6(amount as nat),
{
    proof {
        vstd::arithmetic::div_mod::lemma_fundamental_div_mod(amount as int, 1_000_000);
    }
    fixed6_text(amount / UNIT, amount % UNIT)
}

/// Splits `10 * r` by `den` without computing `10 * r`, which may not fit.
fn times_ten_divmod(r: u128, den: u128) -> (res: (u128, u128))
    requires
        r < den,
    ensures
        res.0 < 10,
        res.1 < den,
        res.0 * den + res.1 == 10 * r,
{
    let mut acc: u128 = 0;
    let mut count: u128 = 0;
    let mut i: u128 = 0;
    while i < 10
        invariant
            r < den,
            i <= 10,
            acc < den,
            count <= i,
            acc + count * den == i * r,
        decreases 10 - i,
    {
        let ghost before: int = acc + count * den;
        if r >= den - acc {
            acc = r - (den - acc);
            count = count + 1;
            proof {
                assert(count * den == (count - 1) * den + den) by (nonlinear_arith);
            }
        } else {
            acc = acc + r;
        }
        proof {
            assert(acc + count * den == before + r);
            assert((i + 1) * r == i * r + r) by (nonlinear_arith);
        }
        i = i + 1;
    }
    proof {
        assert(count < 10) by (nonlinear_arith)
            requires
                acc + count * den == 10 * r,
                r < den,
                acc >= 0,
        {
        }
    }
    (count, acc)
}

/// The text of `num / den` rounded to six decimals, halves away from zero:
/// `150000 / 100000` reads `1.500000`.
pub fn ratio_text(num: u128, den: u128) -> (r: String)
    requires
        den > 0,
    ensures
        r@ == fixed6(scaled_ratio(num as nat, den as nat)),
{
    let whole = num / den;
    let rest = num % den;
    let mut frac: u128 = 0;
    let mut rem: u128 = rest;
    let mut k: usize = 0;
    let ghost mut scale: int = 1;
    while k < 6
        invariant
            den > 0,
            rest < den,
            k <= 6,
            rem < den,
            0 <= frac < scale,
            k == 0 ==> scale == 1,
            k == 1 ==> scale == 10,
            k == 2 ==> scale == 100,
            k == 3 ==> scale == 1_000,
            k == 4 ==> scale == 10_000,
            k == 5 ==> scale == 100_000,
            k == 6 ==> scale == 1_000_000,
            rest * scale == frac * den + rem,
        decreases 6 - k,
    {
        let (d, next) = times_ten_divmod(rem, den);
        proof {
            assert(rest * (scale * 10) == (frac * 10 + d) * den + next) by (nonlinear_arith)
                requires
                    rest * scale == frac * den + rem,
                    d * den + next == 10 * rem,
            {
            }
            assert(frac * 10 + d < scale * 10) by (nonlinear_arith)
                requires
                    frac < scale,
                    d < 10,
            {
            }
            scale = scale * 10;
        }
        frac = frac * 10 + d;
        rem = next;
        k = k + 1;
    }
    proof {
        assert(scale == 1_000_000);
        vstd::arithmetic::div_mod::lemma_fundamental_div_mod(num as int, den as int);
    }
    let round_up = rem >= den - rem;
    let ghost exact: int = whole * 1_000_000 + frac + (if round_up { 1int } else { 0 });
    proof {
        let n2 = 2 * num * 1_000_000 + den;
        assert(n2 == exact * (2 * den) + (if round_up { 2 * rem - den } else { 2 * rem + den }))
            by (nonlinear_arith)
            requires
                num == whole * den + rest,
                rest * 1_000_000 == frac * den + rem,
                n2 == 2 * num * 1_000_000 + den,
                exact == whole * 1_000_000 + frac + (if round_up { 1int } else { 0 }),
        {
        }
        vstd::arithmetic::div_mod::lemma_fundamental_div_mod_converse(
            n2 as int,
            2 * den,
            exact,
            if round_up { 2 * rem - den } else { 2 * rem + den },
        );
    }
    if round_up {
        if frac + 1 == UNIT {
            proof {
                assert(whole < u128::MAX) by (nonlinear_arith)
                    requires
                        num == whole * den + rest,
                        rem < den,
                        rem >= den - rem,
                        den > 0,
                        num <= u128::MAX,
                {
                }
            }
            fixed6_text(whole + 1, 0)
        } else {
            fixed6_text(whole, frac + 1)
        }
    } else {
        fixed6_text(whole, frac)
    }
}

} // verus!
