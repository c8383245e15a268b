//! Quantities as the report prints them: weights in pounds with one decimal,
//! perceived effort in points.

use vstd::prelude::*;
use vstd::string::*;
use crate::text::{digit_char, digits, push_nat};

verus! {

/// A weight in grams, zero where there is none.
pub open spec fn grams_of(w: Option<i64>) -> int {
    match w {
        Some(g) => g as int,
        None => 0,
    }
}

/// The tenths of a pound nearest to a weight in grams; a weight halfway
/// between two tenths goes to the one further from zero. A kilogram is
/// 2.20462 pounds, so a gram is 220462 hundred-millionths of a pound.
pub open spec fn pound_tenths(grams: int) -> int {
    if grams >= 0 {
        (grams * 220462 + 5000000) / 10000000
    } else {
        -((-grams * 220462 + 5000000) / 10000000)
    }
}

/// A number of tenths as a decimal number with one digit after the point.
pub open spec fn one_decimal(tenths: int) -> Seq<char> {
    if tenths < 0 {
        seq!['-'] + digits((-tenths / 10) as nat) + seq!['.', digit_char(-tenths % 10)]
    } else {
        digits((tenths / 10) as nat) + seq!['.', digit_char(tenths % 10)]
    }
}

/// A weight in grams as pounds with one decimal.
pub open spec fn pounds_text(grams: int) -> Seq<char> {
    one_decimal(pound_tenths(grams))
}

/// A number of tenths as a decimal number that shows its tenth only where it
/// is not zero: `80` is `8`, `85` is `8.5`.
pub open spec fn points_text(tenths: nat) -> Seq<char> {
    if tenths % 10 == 0 {
        digits(tenths / 10)
    } else {
        digits(tenths / 10) + seq!['.', digit_char((tenths % 10) as int)]
    }
}

/// The tenths of a pound are the nearest ones: they differ from the exact
/// weight by half a tenth at most.
pub proof fn lemma_pound_tenths_nearest(grams: int)
    ensures
        -5000000 <= pound_tenths(grams) * 10000000 - grams * 220462 <= 5000000,
{
}

/// Pounds grow with grams: a heavier weight never prints as a lighter one,
/// and the sign of the weight is kept.
pub proof fn lemma_pound_tenths_monotonic(a: int, b: int)
    requires
        a <= b,
    ensures
        pound_tenths(a) <= pound_tenths(b),
        a >= 0 ==> pound_tenths(a) >= 0,
        b <= 0 ==> pound_tenths(b) <= 0,
        pound_tenths(-a) == -pound_tenths(a),
{
}

/// Converts a weight in grams to tenths of a pound.
pub fn to_pound_tenths(grams: i64) -> (t: i64)
    ensures
        t == pound_tenths(grams as int),
{
    let g: i128 = grams as i128;
    if g >= 0 {
        ((g * 220462 + 5000000) / 10000000) as i64
    } else {
        let m: i128 = ((-g) * 220462 + 5000000) / 10000000;
        (-m) as i64
    }
}

/// Appends a number of tenths with one digit after the point.
pub fn push_one_decimal(out: &mut String, tenths: i64)
    ensures
        final(out)@ == old(out)@ + one_decimal(tenths as int),
{
    proof {
        reveal_strlit("-");
        reveal_strlit(".");
    }
    let magnitude: u64 = if tenths >= 0 {
        tenths as u64
    } else if tenths == i64::MIN {
        9223372036854775808u64
    } else {
        (-tenths) as u64
    };
    if tenths < 0 {
        out.append("-");
    }
    push_nat(out, magnitude / 10);
    out.append(".");
    push_nat(out, magnitude % 10);
    proof {
        assert(digits((magnitude % 10) as nat) =~= seq![digit_char((magnitude % 10) as int)]);
        assert(out@ =~= old(out)@ + one_decimal(tenths as int));
    }
}

/// Appends a weight in grams as pounds with one decimal.
pub fn push_pounds(out: &mut String, grams: i64)
    ensures
        final(out)@ == old(out)@ + pounds_text(grams as int),
{
    push_one_decimal(out, to_pound_tenths(grams));
}

/// Appends a number of tenths, its tenth only where that is not zero.
pub fn push_points(out: &mut String, tenths: u32)
    ensures
        final(out)@ == old(out)@ + points_text(tenths as nat),
{
    proof {
        reveal_strlit(".");
    }
    let t: u64 = tenths as u64;
    push_nat(out, t / 10);
    if t % 10 != 0 {
        out.append(".");
        push_nat(out, t % 10);
        proof {
            assert(digits((t % 10) as nat) =~= seq![digit_char((t % 10) as int)]);
        }
    }
    assert(out@ =~= old(out)@ + points_text(tenths as nat));
}

} // verus!
