use crate::fixed::{Fixed, UNIT};
use vstd::prelude::*;
use vstd::string::StringExecFns;

verus! {

/// The character of a decimal digit.
pub open spec fn digit(d: int) -> char
    recommends
        0 <= d < 10,
{
    if d == 0 {
        '0'
    } else if d == 1 {
        '1'
    } else if d == 2 {
        '2'
    } else if d == 3 {
        '3'
    } else if d == 4 {
        '4'
    } else if d == 5 {
        '5'
    } else if d == 6 {
        '6'
    } else if d == 7 {
        '7'
    } else if d == 8 {
        '8'
    } else {
        '9'
    }
}

/// A natural number in decimal, without leading zeros.
pub open spec fn decimal(n: nat) -> Seq<char>
    decreases n,
{
    if n < 10 {
        seq![digit(n as int)]
    } else {
        decimal(n / 10).push(digit((n % 10) as int))
    }
}

/// The digits of `part` from the decimal place worth `place` downward, up to
/// the last digit that is not zero. `part` counts units of the lowest place
/// and is less than ten times `place`.
pub open spec fn fraction(part: nat, place: nat) -> Seq<char>
    decreases place,
{
    if part == 0 || place == 0 {
        Seq::empty()
    } else {
        seq![digit((part / place) as int)] + fraction(part % place, place / 10)
    }
}

/// A fixed-point scalar in decimal: a minus sign if it is negative, the whole
/// part, and, unless they are all zero, a point and the decimal places up to
/// the last that is not zero.
pub open spec fn fixed_text(raw: int) -> Seq<char> {
    let size = if raw < 0 {
        -raw
    } else {
        raw
    };
    let sign = if raw < 0 {
        seq!['-']
    } else {
        Seq::empty()
    };
    let places = if size % (UNIT as int) == 0 {
        Seq::empty()
    } else {
        seq!['.'] + fraction((size % (UNIT as int)) as nat, (UNIT / 10) as nat)
    };
    sign + decimal((size / (UNIT as int)) as nat) + places
}

fn digit_str(d: u64) -> (s: &'static str)
    requires
        d < 10,
    ensures
        s@ == seq![digit(d as int)],
{
    proof {
        reveal_strlit("0");
        reveal_strlit("1");
        reveal_strlit("2");
        reveal_strlit("3");
        reveal_strlit("4");
        reveal_strlit("5");
        reveal_strlit("6");
        reveal_strlit("7");
        reveal_strlit("8");
        reveal_strlit("9");
    }
    let s = if d == 0 {
        "0"
    } else if d == 1 {
        "1"
    } else if d == 2 {
        "2"
    } else if d == 3 {
        "3"
    } else if d == 4 {
        "4"
    } else if d == 5 {
        "5"
    } else if d == 6 {
        "6"
    } else if d == 7 {
        "7"
    } else if d == 8 {
        "8"
    } else {
        "9"
    };
    assert(s@ =~= seq![digit(d as int)]);
    s
}

/// Writes `n` in decimal at the end of `out`.
pub(crate) fn push_decimal(out: &mut String, n: u64)
    ensures
        final(out)@ == old(out)@ + decimal(n as nat),
    decreases n,
{
    if n >= 10 {
        push_decimal(out, n / 10);
    }
    out.append(digit_str(n % 10));
    assert(out@ =~= old(out)@ + decimal(n as nat));
}

fn push_fraction(out: &mut String, part: u32, place: u32)
    requires
        place == 1000 || place == 100 || place == 10 || place == 1,
        part < 10 * place,
    ensures
        final(out)@ == old(out)@ + fraction(part as nat, place as nat),
    decreases place,
{
    if part != 0 {
        let leading: u32 = part / place;
        let rest: u32 = part % place;
        assert(leading < 10 && rest < place) by {
            if place == 1000 {
                assert(part / 1000 < 10 && part % 1000 < 1000);
            } else if place == 100 {
                assert(part / 100 < 10 && part % 100 < 100);
            } else if place == 10 {
                assert(part / 10 < 10 && part % 10 < 10);
            } else {
                assert(part / 1 < 10 && part % 1 < 1);
            }
        }
        out.append(digit_str(leading as u64));
        if place >= 10 {
            push_fraction(out, rest, place / 10);
        }
    }
    assert(out@ =~= old(out)@ + fraction(part as nat, place as nat));
}

/// Writes a fixed-point scalar in decimal at the end of `out`.
pub(crate) fn push_fixed(out: &mut String, value: Fixed)
    ensures
        final(out)@ == old(out)@ + fixed_text(value.raw as int),
{
    let size: u32 = if value.raw < 0 {
        (-(value.raw as i64)) as u32
    } else {
        value.raw as u32
    };
    if value.raw < 0 {
        out.append("-");
    }
    proof {
        reveal_strlit("-");
        reveal_strlit(".");
    }
    push_decimal(out, (size / (UNIT as u32)) as u64);
    let part: u32 = size % (UNIT as u32);
    if part != 0 {
        out.append(".");
        push_fraction(out, part, (UNIT as u32) / 10);
    }
    assert(out@ =~= old(out)@ + fixed_text(value.raw as int));
}

} // verus!
