use vstd::prelude::*;

use crate::parameters::Decimal;

verus! {

pub open spec fn digit_char(d: int) -> char {
    if d == 0 {
        '0'
    } else if d == 1 {
        '1'
    } else if d == 2 {
        '2'
    } else if d == 3 {
        '3'
    } else if d == 4 {
        '4'
    } else if d == 5 {
        '5'
    } else if d == 6 {
        '6'
    } else if d == 7 {
        '7'
    } else if d == 8 {
        '8'
    } else {
        '9'
    }
}

/// The decimal digits of `n`, without leading zeros.
pub open spec fn nat_text(n: nat) -> Seq<char>
    decreases n,
{
    if n < 10 {
        seq![digit_char(n as int)]
    } else {
        nat_text(n / 10).push(digit_char((n % 10) as int))
    }
}

/// `n` in decimal, with a leading `-` when negative.
pub open spec fn int_text(n: int) -> Seq<char> {
    if n < 0 {
        seq!['-'] + nat_text((-n) as nat)
    } else {
        nat_text(n as nat)
    }
}

pub open spec fn bool_text(b: bool) -> Seq<char> {
    if b {
        "true"@
    } else {
        "false"@
    }
}

pub open spec fn zeros(k: nat) -> Seq<char> {
    Seq::new(k, |i: int| '0')
}

/// The digits of `units` padded with leading zeros to more than `scale`
/// digits.
pub open spec fn padded_digits(d: Decimal) -> Seq<char> {
    let digits = nat_text(d.units as nat);
    if digits.len() < d.scale + 1 {
        zeros((d.scale + 1 - digits.len()) as nat) + digits
    } else {
        digits
    }
}

/// A decimal written with exactly `scale` digits after the point, and no
/// point when `scale` is zero.
pub open spec fn decimal_text(d: Decimal) -> Seq<char> {
    let p = padded_digits(d);
    let cut = p.len() - d.scale;
    if d.scale == 0 {
        nat_text(d.units as nat)
    } else {
        p.subrange(0, cut) + seq!['.'] + p.subrange(cut, p.len() as int)
    }
}

fn digit_str(d: u64) -> (r: &'static str)
    requires
        d < 10,
    ensures
        r@ == seq![digit_char(d as int)],
{
    proof {
        reveal_strlit("0");
        reveal_strlit("1");
        reveal_strlit("2");
        reveal_strlit("3");
        reveal_strlit("4");
        reveal_strlit("5");
        reveal_strlit("6");
        reveal_strlit("7");
        reveal_strlit("8");
        reveal_strlit("9");
    }
    if d == 0 {
        "0"
    } else if d == 1 {
        "1"
    } else if d == 2 {
        "2"
    } else if d == 3 {
        "3"
    } else if d == 4 {
        "4"
    } else if d == 5 {
        "5"
    } else if d == 6 {
        "6"
    } else if d == 7 {
        "7"
    } else if d == 8 {
        "8"
    } else {
        "9"
    }
}

/// Appends `n` in decimal.
pub fn push_nat(out: &mut String, n: u64)
    ensures
        final(out)@ == old(out)@ + nat_text(n as nat),
    decreases n,
{
    if n >= 10 {
        push_nat(out, n / 10);
    }
    out.append(digit_str(n % 10));
}

/// Appends `n` in decimal, with a leading `-` when negative.
pub fn push_int(out: &mut String, n: i64)
    ensures
        final(out)@ == old(out)@ + int_text(n as int),
{
    if n < 0 {
        proof {
            reveal_strlit("-");
        }
        out.append("-");
        let m: u64 = ((-(n + 1)) as u64) + 1;
        push_nat(out, m);
    } else {
        push_nat(out, n as u64);
    }
}

/// Appends `true` or `false`.
pub fn push_bool(out: &mut String, b: bool)
    ensures
        final(out)@ == old(out)@ + bool_text(b),
{
    if b {
        out.append("true");
    } else {
        out.append("false");
    }
}

/// Appends a decimal with exactly `scale` digits after the point.
pub fn push_decimal(out: &mut String, d: Decimal)
    ensures
        final(out)@ == old(out)@ + decimal_text(d),
{
    let mut digits = String::new();
    push_nat(&mut digits, d.units);
    assert(digits@ == nat_text(d.units as nat));
    if d.scale == 0 {
        out.append(digits.as_str());
        return;
    }
    let n = digits.as_str().unicode_len();
    let s = d.scale as usize;
    let mut padded = String::new();
    let mut k = n;
    while k < s + 1
        invariant
            n <= k,
            n == digits@.len(),
            s == d.scale,
            k <= s + 1 || k == n,
            padded@ == zeros((k - n) as nat),
        decreases s + 1 - k,
    {
        proof {
            reveal_strlit("0");
        }
        padded.append("0");
        assert(padded@ =~= zeros((k + 1 - n) as nat));
        k = k + 1;
    }
    padded.append(digits.as_str());
    assert(padded@ =~= padded_digits(d));
    let m = padded.as_str().unicode_len();
    out.append(padded.as_str().substring_char(0, m - s));
    proof {
        reveal_strlit(".");
    }
    out.append(".");
    out.append(padded.as_str().substring_char(m - s, m));
    
}

} // verus!
