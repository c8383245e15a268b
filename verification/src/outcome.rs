//! Classification of logged sets and aggregation per exercise.

use vstd::prelude::*;
use vstd::string::*;
use crate::targets::TargetRange;

verus! {

/// How a logged set, or a whole exercise, did against its target.
#[derive(Clone, Copy, Debug, PartialEq, Eq, Structural)]
pub enum Outcome {
    /// Fewer reps than the lower bound.
    Struggled,
    /// Within the range, bounds included.
    Succeeded,
    /// More reps than the upper bound.
    Exceeded,
}

/// The colours that outcomes are shown in.
#[derive(Clone, Copy, Debug, PartialEq, Eq, Structural)]
pub enum Color {
    Yellow,
    Green,
    Cyan,
}

/// The colour of an outcome.
pub open spec fn color_of(o: Outcome) -> Color {
    match o {
        Outcome::Struggled => Color::Yellow,
        Outcome::Succeeded => Color::Green,
        Outcome::Exceeded => Color::Cyan,
    }
}

/// The word for an outcome.
pub open spec fn label_of(o: Outcome) -> Seq<char> {
    match o {
        Outcome::Struggled => "Struggled"@,
        Outcome::Succeeded => "Succeeded"@,
        Outcome::Exceeded => "Exceeded"@,
    }
}

/// The number of a colour in a terminal's escape sequence that selects it
/// as foreground.
pub open spec fn color_code(c: Color) -> Seq<char> {
    match c {
        Color::Yellow => "33"@,
        Color::Green => "32"@,
        Color::Cyan => "36"@,
    }
}

/// An outcome as a terminal shows it: its word between the escape sequence
/// that selects its colour and the one that resets it.
pub open spec fn styled(o: Outcome) -> Seq<char> {
    seq!['\x1b', '['] + color_code(color_of(o)) + seq!['m'] + label_of(o) + seq![
        '\x1b',
        '[',
        '0',
        'm',
    ]
}

impl Color {
    /// The colour's number in an escape sequence.
    pub fn code(self) -> (s: &'static str)
        ensures
            s@ == color_code(self),
    {
        match self {
            Color::Yellow => "33",
            Color::Green => "32",
            Color::Cyan => "36",
        }
    }
}

impl Outcome {
    /// The colour this outcome is shown in.
    pub fn color(self) -> (c: Color)
        ensures
            c == color_of(self),
    {
        match self {
            Outcome::Struggled => Color::Yellow,
            Outcome::Succeeded => Color::Green,
            Outcome::Exceeded => Color::Cyan,
        }
    }

    /// The word for this outcome.
    pub fn label(self) -> (s: &'static str)
        ensures
            s@ == label_of(self),
    {
        match self {
            Outcome::Struggled => "Struggled",
            Outcome::Succeeded => "Succeeded",
            Outcome::Exceeded => "Exceeded",
        }
    }

    /// This outcome's word, wrapped in the escape sequences of its colour.
    pub fn styled_text(self) -> (s: String)
        ensures
            s@ == styled(self),
    {
        proof {
            reveal_strlit("\x1b[");
            reveal_strlit("m");
            reveal_strlit("\x1b[0m");
        }
        let mut s = String::new();
        s.append("\x1b[");
        s.append(self.color().code());
        s.append("m");
        s.append(self.label());
        s.append("\x1b[0m");
        assert(s@ =~= styled(self));
        s
    }
}

/// The outcome of `reps` against the inclusive range `lo..=hi`.
pub open spec fn outcome_of(reps: int, lo: int, hi: int) -> Outcome {
    if reps < lo {
        Outcome::Struggled
    } else if reps <= hi {
        Outcome::Succeeded
    } else {
        Outcome::Exceeded
    }
}

/// Whether some element of `s` is `Struggled`.
pub open spec fn any_struggled(s: Seq<Outcome>) -> bool {
    exists|i: int| 0 <= i < s.len() && s[i] == Outcome::Struggled
}

/// Whether every element of `s` is `Exceeded`.
pub open spec fn all_exceeded(s: Seq<Outcome>) -> bool {
    forall|i: int| 0 <= i < s.len() ==> s[i] == Outcome::Exceeded
}

/// The outcome of an exercise, given the outcomes of its sets in order.
///
/// One struggling set is enough to mark the exercise; exceeding counts only
/// when it is unanimous, and an exercise without sets has succeeded.
pub open spec fn aggregate_of(s: Seq<Outcome>) -> Outcome {
    if any_struggled(s) {
        Outcome::Struggled
    } else if s.len() > 0 && all_exceeded(s) {
        Outcome::Exceeded
    } else {
        Outcome::Succeeded
    }
}

/// Classifies a rep count against a target range.
pub fn classify(reps: i64, target: TargetRange) -> (o: Outcome)
    ensures
        o == outcome_of(reps as int, target.lo as int, target.hi as int),
{
    if reps < target.lo {
        Outcome::Struggled
    } else if reps <= target.hi {
        Outcome::Succeeded
    } else {
        Outcome::Exceeded
    }
}

/// Aggregates the outcomes of an exercise's sets into the exercise's outcome.
pub fn aggregate(outcomes: &Vec<Outcome>) -> (o: Outcome)
    ensures
        o == aggregate_of(outcomes@),
{
    let mut struggled = false;
    let mut unanimous = true;
    let mut i: usize = 0;
    while i < outcomes.len()
        invariant
            i <= outcomes.len(),
            struggled == any_struggled(outcomes@.take(i as int)),
            unanimous == all_exceeded(outcomes@.take(i as int)),
        decreases outcomes.len() - i,
    {
        let ghost before = outcomes@.take(i as int);
        let ghost after = outcomes@.take(i + 1);
        proof {
            assert(forall|j: int| 0 <= j < i ==> before[j] == after[j]);
            assert(after[i as int] == outcomes@[i as int]);
            if any_struggled(before) {
                let j = choose|j: int| 0 <= j < before.len() && before[j] == Outcome::Struggled;
                assert(after[j] == Outcome::Struggled);
            }
            if any_struggled(after) && outcomes@[i as int] != Outcome::Struggled {
                let j = choose|j: int| 0 <= j < after.len() && after[j] == Outcome::Struggled;
                assert(before[j] == Outcome::Struggled);
            }
        }
        match outcomes[i] {
            Outcome::Struggled => {
                struggled = true;
                unanimous = false;
            },
            Outcome::Succeeded => {
                unanimous = false;
            },
            Outcome::Exceeded => {},
        }
        i += 1;
    }
    assert(outcomes@.take(i as int) == outcomes@);
    if struggled {
        Outcome::Struggled
    } else if unanimous && outcomes.len() > 0 {
        Outcome::Exceeded
    } else {
        Outcome::Succeeded
    }
}

/// The three cases of aggregation, each with its cause: an exercise has
/// struggled exactly where one of its sets has; it has exceeded exactly where
/// it has a set and all of its sets have; in every other case, that of no
/// sets among them, it has succeeded.
pub proof fn lemma_aggregation(s: Seq<Outcome>)
    ensures
        aggregate_of(s) == Outcome::Struggled <==> any_struggled(s),
        aggregate_of(s) == Outcome::Exceeded <==> s.len() > 0 && all_exceeded(s),
        aggregate_of(s) == Outcome::Succeeded <==> !any_struggled(s) && (s.len() == 0
            || !all_exceeded(s)),
        s.len() == 0 ==> aggregate_of(s) == Outcome::Succeeded,
{
    if s.len() > 0 && all_exceeded(s) && any_struggled(s) {
        let i = choose|i: int| 0 <= i < s.len() && s[i] == Outcome::Struggled;
        assert(s[i] == Outcome::Exceeded);
    }
}

/// A styled outcome is nine characters longer than its word: five select
/// the colour and four reset it.
pub proof fn lemma_styled_length(o: Outcome)
    ensures
        styled(o).len() == label_of(o).len() + 9,
        label_of(o).len() <= 9,
{
    reveal_strlit("33");
    reveal_strlit("32");
    reveal_strlit("36");
    reveal_strlit("Struggled");
    reveal_strlit("Succeeded");
    reveal_strlit("Exceeded");
}

/// Classification is exhaustive and, for a well-ordered range, each outcome
/// has exactly one cause: `Struggled` below the range, `Exceeded` above it,
/// `Succeeded` inside it. This holds for every integer rep count, negative
/// ones and zero included.
pub proof fn lemma_classification(reps: int, lo: int, hi: int)
    requires
        lo <= hi,
    ensures
        outcome_of(reps, lo, hi) == Outcome::Struggled <==> reps < lo,
        outcome_of(reps, lo, hi) == Outcome::Exceeded <==> reps > hi,
        outcome_of(reps, lo, hi) == Outcome::Succeeded <==> lo <= reps <= hi,
{
}

} // verus!
