//! The grid that both tables of a report are laid out on: six columns, the
//! first left-aligned, the next four right-aligned, the last free.

use vstd::prelude::*;
use vstd::string::*;
use crate::text::{
    digits, left_aligned, push_left_aligned, push_nat, push_repeated, push_right_aligned, repeated,
    right_aligned,
};

verus! {

/// Width of the first column, which holds exercise titles and set labels.
pub const TITLE_WIDTH: usize = 35;

/// Width of the column of set counts.
pub const COUNT_WIDTH: usize = 5;

/// Width of the column of weights.
pub const WEIGHT_WIDTH: usize = 18;

/// Length of the rule under a table's header.
pub const RULE_WIDTH: usize = 120;

/// The character that stands for a missing value.
pub open spec fn dash() -> Seq<char> {
    seq!['\u{2014}']
}

/// The character that rules are drawn with.
pub open spec fn rule_char() -> char {
    '\u{2500}'
}

/// A line that holds `s` after an indent of two spaces.
pub open spec fn line(s: Seq<char>) -> Seq<char> {
    seq![' ', ' '] + s + seq!['\n']
}

/// A line that holds a rule of `n` characters.
pub open spec fn rule_line(n: nat) -> Seq<char> {
    line(repeated(rule_char(), n))
}

/// An empty line.
pub open spec fn blank_line() -> Seq<char> {
    seq!['\n']
}

/// `s`, or `fallback` where there is none.
pub open spec fn text_or(s: Option<Seq<char>>, fallback: Seq<char>) -> Seq<char> {
    match s {
        Some(t) => t,
        None => fallback,
    }
}

/// One row of a table. The fourth and fifth column have the widths `w3` and
/// `w4`; the others are the same in every table. Cells wider than their
/// column push the rest of the row to the right.
pub open spec fn row(
    c0: Seq<char>,
    c1: Seq<char>,
    c2: Seq<char>,
    c3: Seq<char>,
    c4: Seq<char>,
    c5: Seq<char>,
    w3: nat,
    w4: nat,
) -> Seq<char> {
    line(
        left_aligned(c0, TITLE_WIDTH as nat) + seq![' '] + right_aligned(c1, COUNT_WIDTH as nat)
            + seq![' '] + right_aligned(c2, WEIGHT_WIDTH as nat) + seq![' '] + right_aligned(c3, w3)
            + seq![' '] + right_aligned(c4, w4) + seq![' ', ' ', ' '] + c5,
    )
}

/// Rows whose cells fit their columns form a grid: the last cell starts at
/// the same place in each of them, and the row ends with it.
pub proof fn lemma_row_grid(
    c0: Seq<char>,
    c1: Seq<char>,
    c2: Seq<char>,
    c3: Seq<char>,
    c4: Seq<char>,
    c5: Seq<char>,
    w3: nat,
    w4: nat,
)
    requires
        c0.len() <= TITLE_WIDTH,
        c1.len() <= COUNT_WIDTH,
        c2.len() <= WEIGHT_WIDTH,
        c3.len() <= w3,
        c4.len() <= w4,
    ensures
        row(c0, c1, c2, c3, c4, c5, w3, w4).len() == 68 + w3 + w4 + c5.len(),
        row(c0, c1, c2, c3, c4, c5, w3, w4).subrange(0, 2 + c0.len() as int) == seq![' ', ' '] + c0,
        row(c0, c1, c2, c3, c4, c5, w3, w4).subrange(
            67 + w3 as int + w4 as int,
            67 + w3 as int + w4 as int + c5.len() as int,
        ) == c5,
        row(c0, c1, c2, c3, c4, c5, w3, w4).last() == '\n',
{
    let r = row(c0, c1, c2, c3, c4, c5, w3, w4);
    assert(r.subrange(0, 2 + c0.len() as int) =~= seq![' ', ' '] + c0);
    assert(r.subrange(67 + w3 as int + w4 as int, 67 + w3 as int + w4 as int + c5.len() as int)
        =~= c5);
}

/// The text of `s` or, where there is none, `fallback`.
pub fn text_or_default<'a>(s: &'a Option<String>, fallback: &'a str) -> (r: &'a str)
    ensures
        r@ == text_or(crate::models::text_of(*s), fallback@),
{
    match s {
        Some(t) => t.as_str(),
        None => fallback,
    }
}

/// The label of the set at `position`, counted from zero: its number,
/// counted from one, and its type in brackets where it has one.
pub open spec fn set_label(position: nat, set_type: Option<Seq<char>>) -> Seq<char> {
    "  Set "@ + digits(position + 1) + match set_type {
        Some(t) => seq![' ', '('] + t + seq![')'],
        None => Seq::<char>::empty(),
    }
}

/// Builds the label of the set at `position`.
pub fn set_label_text(position: usize, set_type: &Option<String>) -> (label: String)
    requires
        position < usize::MAX,
    ensures
        label@ == set_label(position as nat, crate::models::text_of(*set_type)),
{
    proof {
        reveal_strlit(" (");
        reveal_strlit(")");
    }
    let mut label = String::new();
    label.append("  Set ");
    push_nat(&mut label, (position + 1) as u64);
    match set_type {
        Some(t) => {
            label.append(" (");
            label.append(t.as_str());
            label.append(")");
        },
        None => {},
    }
    assert(label@ =~= set_label(position as nat, crate::models::text_of(*set_type)));
    label
}

/// Appends the dash that stands for a missing value.
pub fn push_dash(out: &mut String)
    ensures
        final(out)@ == old(out)@ + dash(),
{
    proof {
        reveal_strlit("\u{2014}");
        assert("\u{2014}"@ =~= dash());
    }
    out.append("\u{2014}");
}

/// Appends a line that holds `s`.
pub fn push_line(out: &mut String, s: &str)
    ensures
        final(out)@ == old(out)@ + line(s@),
{
    proof {
        reveal_strlit("  ");
        reveal_strlit("\n");
    }
    out.append("  ");
    out.append(s);
    out.append("\n");
    assert(out@ =~= old(out)@ + line(s@));
}

/// Appends an empty line.
pub fn push_blank_line(out: &mut String)
    ensures
        final(out)@ == old(out)@ + blank_line(),
{
    proof {
        reveal_strlit("\n");
    }
    out.append("\n");
    assert(out@ =~= old(out)@ + blank_line());
}

/// Appends a line that holds a rule of `n` and `more` characters.
pub fn push_rule_line(out: &mut String, n: usize, more: usize)
    ensures
        final(out)@ == old(out)@ + rule_line((n + more) as nat),
{
    proof {
        reveal_strlit("  ");
        reveal_strlit("\n");
        reveal_strlit("\u{2500}");
    }
    out.append("  ");
    push_repeated(out, "\u{2500}", n);
    push_repeated(out, "\u{2500}", more);
    out.append("\n");
    assert(out@ =~= old(out)@ + rule_line((n + more) as nat));
}

/// Appends one row of a table.
pub fn push_row(
    out: &mut String,
    c0: &str,
    c1: &str,
    c2: &str,
    c3: &str,
    c4: &str,
    c5: &str,
    w3: usize,
    w4: usize,
)
    ensures
        final(out)@ == old(out)@ + row(c0@, c1@, c2@, c3@, c4@, c5@, w3 as nat, w4 as nat),
{
    proof {
        reveal_strlit("  ");
        reveal_strlit(" ");
        reveal_strlit("   ");
        reveal_strlit("\n");
    }
    out.append("  ");
    push_left_aligned(out, c0, TITLE_WIDTH);
    out.append(" ");
    push_right_aligned(out, c1, COUNT_WIDTH);
    out.append(" ");
    push_right_aligned(out, c2, WEIGHT_WIDTH);
    out.append(" ");
    push_right_aligned(out, c3, w3);
    out.append(" ");
    push_right_aligned(out, c4, w4);
    out.append("   ");
    out.append(c5);
    out.append("\n");
    assert(out@ =~= old(out)@ + row(c0@, c1@, c2@, c3@, c4@, c5@, w3 as nat, w4 as nat));
}

} // verus!
