//! Building blocks of fixed-width text: truncation, alignment, rules and
//! decimal numbers. Widths and positions count characters, not bytes.

use vstd::prelude::*;
use vstd::string::*;

verus! {

/// The character that marks a shortened title.
pub open spec fn ellipsis() -> char {
    '\u{2026}'
}

/// `n` copies of `c`.
pub open spec fn repeated(c: char, n: nat) -> Seq<char> {
    Seq::new(n, |i: int| c)
}

/// `s` cut to at most `max` characters: unchanged where it fits, else its
/// first `max - 1` characters followed by an ellipsis.
pub open spec fn truncated(s: Seq<char>, max: nat) -> Seq<char> {
    if s.len() <= max {
        s
    } else {
        s.subrange(0, max - 1).push(ellipsis())
    }
}

/// `s` followed by as many spaces as it takes to fill `width` characters.
pub open spec fn left_aligned(s: Seq<char>, width: nat) -> Seq<char> {
    if s.len() >= width {
        s
    } else {
        s + repeated(' ', (width - s.len()) as nat)
    }
}

/// `s` preceded by as many spaces as it takes to fill `width` characters.
pub open spec fn right_aligned(s: Seq<char>, width: nat) -> Seq<char> {
    if s.len() >= width {
        s
    } else {
        repeated(' ', (width - s.len()) as nat) + s
    }
}

/// The character of a decimal digit.
pub open spec fn digit_char(d: int) -> char
    recommends
        0 <= d < 10,
{
    ('0' as int + d) as char
}

/// The decimal digits of `n`, most significant first, without leading zeros.
pub open spec fn digits(n: nat) -> Seq<char>
    decreases n,
{
    if n < 10 {
        seq![digit_char(n as int)]
    } else {
        digits(n / 10).push(digit_char((n % 10) as int))
    }
}

/// `n` in decimal, with a minus sign where it is negative.
pub open spec fn decimal(n: int) -> Seq<char> {
    if n < 0 {
        seq!['-'] + digits((-n) as nat)
    } else {
        digits(n as nat)
    }
}

/// The number that a sequence of decimal digits stands for.
pub open spec fn value_of(s: Seq<char>) -> nat
    decreases s.len(),
{
    if s.len() == 0 {
        0
    } else {
        (value_of(s.drop_last()) * 10 + (s.last() as int - '0' as int)) as nat
    }
}

/// Decimal digits say what they stand for: `digits(n)` is made of the
/// characters `0` to `9` alone, starts with `0` only where `n` is zero, and
/// read back as a number it gives `n`.
pub proof fn lemma_digits(n: nat)
    ensures
        digits(n).len() >= 1,
        forall|i: int| 0 <= i < digits(n).len() ==> '0' <= #[trigger] digits(n)[i] <= '9',
        digits(n)[0] == '0' <==> n == 0,
        value_of(digits(n)) == n,
    decreases n,
{
    if n < 10 {
        assert(digits(n).drop_last() =~= Seq::<char>::empty());
        assert(value_of(digits(n).drop_last()) == 0);
    } else {
        lemma_digits(n / 10);
        assert(digits(n).drop_last() =~= digits(n / 10));
        assert(digits(n)[0] == digits(n / 10)[0]);
    }
}

/// A shortened text fills its width exactly: where `s` is longer than `max`,
/// the result has `max` characters, the first `max - 1` of them those of `s`
/// and the last an ellipsis. A text that fits is left alone.
pub proof fn lemma_truncated(s: Seq<char>, max: nat)
    requires
        max >= 1,
    ensures
        truncated(s, max).len() <= max,
        s.len() <= max ==> truncated(s, max) == s,
        s.len() > max ==> truncated(s, max).len() == max,
        s.len() > max ==> truncated(s, max).subrange(0, max - 1) == s.subrange(0, max - 1),
        s.len() > max ==> truncated(s, max)[max - 1] == ellipsis(),
{
    if s.len() > max {
        assert(truncated(s, max).subrange(0, max - 1) =~= s.subrange(0, max - 1));
    }
}

/// Alignment never cuts: the result has `width` characters or as many as
/// `s`, whichever is more, and `s` stands at its start or its end.
pub proof fn lemma_aligned(s: Seq<char>, width: nat)
    ensures
        left_aligned(s, width).len() == if s.len() >= width { s.len() } else { width },
        right_aligned(s, width).len() == left_aligned(s, width).len(),
        left_aligned(s, width).subrange(0, s.len() as int) == s,
        right_aligned(s, width).subrange(
            right_aligned(s, width).len() - s.len(),
            right_aligned(s, width).len() as int,
        ) == s,
{
    assert(left_aligned(s, width).subrange(0, s.len() as int) =~= s);
    assert(right_aligned(s, width).subrange(
        right_aligned(s, width).len() - s.len(),
        right_aligned(s, width).len() as int,
    ) =~= s);
}

/// Truncates a string to `max` characters, the last of them an ellipsis if
/// anything was cut.
pub fn truncate_str(s: &str, max: usize) -> (r: String)
    requires
        max >= 1 || s@.len() == 0,
    ensures
        r@ == truncated(s@, max as nat),
{
    if s.unicode_len() <= max {
        s.to_owned()
    } else {
        let mut out = s.substring_char(0, max - 1).to_owned();
        proof {
            reveal_strlit("\u{2026}");
            assert("\u{2026}"@ =~= seq![ellipsis()]);
        }
        out.append("\u{2026}");
        assert(out@ =~= truncated(s@, max as nat));
        out
    }
}

/// Appends `n` copies of the one character of `unit`.
pub fn push_repeated(out: &mut String, unit: &str, n: usize)
    requires
        unit@.len() == 1,
    ensures
        final(out)@ == old(out)@ + repeated(unit@[0], n as nat),
{
    let mut i: usize = 0;
    assert(out@ =~= old(out)@ + repeated(unit@[0], 0));
    while i < n
        invariant
            i <= n,
            unit@.len() == 1,
            out@ == old(out)@ + repeated(unit@[0], i as nat),
        decreases n - i,
    {
        out.append(unit);
        i += 1;
        assert(out@ =~= old(out)@ + repeated(unit@[0], i as nat));
    }
}

/// Appends `n` spaces.
pub fn push_spaces(out: &mut String, n: usize)
    ensures
        final(out)@ == old(out)@ + repeated(' ', n as nat),
{
    proof {
        reveal_strlit(" ");
    }
    push_repeated(out, " ", n);
}

/// Appends `s`, padded with spaces on the right to `width` characters.
pub fn push_left_aligned(out: &mut String, s: &str, width: usize)
    ensures
        final(out)@ == old(out)@ + left_aligned(s@, width as nat),
{
    let len = s.unicode_len();
    out.append(s);
    if len < width {
        push_spaces(out, width - len);
    }
    assert(out@ =~= old(out)@ + left_aligned(s@, width as nat));
}

/// Appends `s`, padded with spaces on the left to `width` characters.
pub fn push_right_aligned(out: &mut String, s: &str, width: usize)
    ensures
        final(out)@ == old(out)@ + right_aligned(s@, width as nat),
{
    let len = s.unicode_len();
    if len < width {
        push_spaces(out, width - len);
    }
    out.append(s);
    assert(out@ =~= old(out)@ + right_aligned(s@, width as nat));
}

/// The text of one decimal digit.
fn digit_str(d: u64) -> (s: &'static str)
    requires
        d < 10,
    ensures
        s@ == seq![digit_char(d as int)],
{
    proof {
        reveal_strlit("0");
        reveal_strlit("1");
        reveal_strlit("2");
        reveal_strlit("3");
        reveal_strlit("4");
        reveal_strlit("5");
        reveal_strlit("6");
        reveal_strlit("7");
        reveal_strlit("8");
        reveal_strlit("9");
    }
    let s = if d == 0 {
        "0"
    } else if d == 1 {
        "1"
    } else if d == 2 {
        "2"
    } else if d == 3 {
        "3"
    } else if d == 4 {
        "4"
    } else if d == 5 {
        "5"
    } else if d == 6 {
        "6"
    } else if d == 7 {
        "7"
    } else if d == 8 {
        "8"
    } else {
        "9"
    };
    assert(s@ =~= seq![digit_char(d as int)]);
    s
}

/// Appends `n` in decimal.
pub fn push_nat(out: &mut String, n: u64)
    ensures
        final(out)@ == old(out)@ + digits(n as nat),
    decreases n,
{
    if n >= 10 {
        push_nat(out, n / 10);
    }
    out.append(digit_str(n % 10));
    assert(out@ =~= old(out)@ + digits(n as nat));
}

/// Appends `n` in decimal, with a minus sign where it is negative.
pub fn push_int(out: &mut String, n: i64)
    ensures
        final(out)@ == old(out)@ + decimal(n as int),
{
    if n < 0 {
        proof {
            reveal_strlit("-");
        }
        out.append("-");
        let magnitude: u64 = if n == i64::MIN {
            9223372036854775808u64
        } else {
            (-n) as u64
        };
        push_nat(out, magnitude);
        assert(out@ =~= old(out)@ + decimal(n as int));
    } else {
        push_nat(out, n as u64);
    }
}

/// `n` in decimal.
pub fn decimal_string(n: i64) -> (s: String)
    ensures
        s@ == decimal(n as int),
{
    let mut out = String::new();
    push_int(&mut out, n);
    assert(out@ =~= decimal(n as int));
    out
}

} // verus!
