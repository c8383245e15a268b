//! The first table of a report: what the routine asked for.

use vstd::prelude::*;
use vstd::string::*;
use vstd::utf8::encode_utf8;
use crate::layout::{
    blank_line, dash, line, push_blank_line, push_dash, push_line, push_row, push_rule_line, row,
    rule_line, set_label, set_label_text, text_or, text_or_default, RULE_WIDTH, TITLE_WIDTH,
};
use crate::models::{
    RepRange, Routine, RoutineExercise, RoutineExerciseView, RoutineSet, RoutineSetView,
    RoutineView,
};
use crate::text::{decimal, digits, push_int, push_nat, truncate_str, truncated};
use crate::units::{grams_of, pounds_text, push_pounds};

verus! {

/// Width of the column of target reps.
pub const TARGET_REPS_WIDTH: usize = 12;

/// Width of the column of rest times.
pub const REST_WIDTH: usize = 12;

/// A target weight in pounds, or a dash where it is missing or not positive.
pub open spec fn weight_cell(w: Option<i64>) -> Seq<char> {
    if grams_of(w) > 0 {
        pounds_text(grams_of(w))
    } else {
        dash()
    }
}

/// The reps a target set asks for: `lo-hi` for a rep range with both bounds,
/// `lo+` for one with a lower bound only, else the fixed rep count, else a
/// dash.
pub open spec fn reps_cell(s: RoutineSetView) -> Seq<char> {
    match s.rep_range {
        Some(RepRange { start: Some(lo), end: Some(hi) }) => decimal(lo as int) + seq!['-']
            + decimal(hi as int),
        Some(RepRange { start: Some(lo), end: None }) => decimal(lo as int) + seq!['+'],
        _ => match s.reps {
            Some(r) => decimal(r as int),
            None => dash(),
        },
    }
}

/// A rest time in seconds, or a dash.
pub open spec fn rest_cell(rest: Option<i64>) -> Seq<char> {
    match rest {
        Some(v) => decimal(v as int),
        None => dash(),
    }
}

/// The position of the heaviest of the first `n` sets: the first set whose
/// weight is positive and no lighter than any other. `None` where no set has
/// a positive weight.
pub open spec fn heaviest(sets: Seq<RoutineSetView>, n: nat) -> Option<int>
    decreases n,
{
    if n == 0 {
        None
    } else {
        let before = heaviest(sets, (n - 1) as nat);
        let best = match before {
            Some(b) => grams_of(sets[b].weight_g),
            None => 0,
        };
        if grams_of(sets[n - 1].weight_g) > best {
            Some(n - 1)
        } else {
            before
        }
    }
}

/// The summary row of a routine exercise: title, number of sets, the
/// heaviest target weight with the reps asked for at that weight, rest time
/// and notes.
pub open spec fn summary_row(ex: RoutineExerciseView) -> Seq<char> {
    let best = heaviest(ex.sets, ex.sets.len());
    row(
        truncated(text_or(ex.title, "Unknown Exercise"@), TITLE_WIDTH as nat),
        digits(ex.sets.len()),
        match best {
            Some(b) => pounds_text(grams_of(ex.sets[b].weight_g)),
            None => dash(),
        },
        match best {
            Some(b) => reps_cell(ex.sets[b]),
            None => dash(),
        },
        rest_cell(ex.rest_seconds),
        text_or(ex.notes, Seq::empty()),
        TARGET_REPS_WIDTH as nat,
        REST_WIDTH as nat,
    )
}

/// The detail row of target set `i`: its label, weight and reps.
pub open spec fn detail_row(ex: RoutineExerciseView, i: int) -> Seq<char> {
    row(
        set_label(i as nat, ex.sets[i].set_type),
        Seq::empty(),
        weight_cell(ex.sets[i].weight_g),
        reps_cell(ex.sets[i]),
        Seq::empty(),
        Seq::empty(),
        TARGET_REPS_WIDTH as nat,
        REST_WIDTH as nat,
    )
}

/// The detail rows of the first `n` target sets, in order.
pub open spec fn detail_rows(ex: RoutineExerciseView, n: nat) -> Seq<char>
    decreases n,
{
    if n == 0 {
        Seq::empty()
    } else {
        detail_rows(ex, (n - 1) as nat) + detail_row(ex, n - 1)
    }
}

/// The rows of one routine exercise: its summary, then one row per set.
pub open spec fn exercise_block(ex: RoutineExerciseView) -> Seq<char> {
    summary_row(ex) + detail_rows(ex, ex.sets.len())
}

/// The rows of the first `n` routine exercises, in order.
pub open spec fn exercise_blocks(exercises: Seq<RoutineExerciseView>, n: nat) -> Seq<char>
    decreases n,
{
    if n == 0 {
        Seq::empty()
    } else {
        exercise_blocks(exercises, (n - 1) as nat) + exercise_block(exercises[n - 1])
    }
}

/// The header row of the routine table.
pub open spec fn routine_header() -> Seq<char> {
    row(
        "Exercise"@,
        "Sets"@,
        "Target Wt (lbs)"@,
        "Target Reps"@,
        "Rest (s)"@,
        "Notes"@,
        TARGET_REPS_WIDTH as nat,
        REST_WIDTH as nat,
    )
}

/// The routine section: the routine's title over a rule ten characters
/// longer than the title's UTF-8 encoding, the table's header over a rule,
/// the rows of every exercise, and an empty line.
pub open spec fn routine_section(r: RoutineView) -> Seq<char> {
    let title = text_or(r.title, "Untitled Routine"@);
    line("Routine: "@ + title) + rule_line(encode_utf8(title).len() + 10) + blank_line()
        + routine_header() + rule_line(RULE_WIDTH as nat) + exercise_blocks(
        r.exercises,
        r.exercises.len(),
    ) + blank_line()
}

/// The heaviest set is the first among those of the greatest weight, and its
/// weight is positive; there is none exactly where no weight is positive.
pub proof fn lemma_heaviest(sets: Seq<RoutineSetView>, n: nat)
    requires
        n <= sets.len(),
    ensures
        match heaviest(sets, n) {
            Some(b) => {
                &&& 0 <= b < n
                &&& grams_of(sets[b].weight_g) > 0
                &&& forall|j: int| 0 <= j < b ==> grams_of(sets[j].weight_g) < grams_of(sets[b].weight_g)
                &&& forall|j: int| b <= j < n ==> grams_of(sets[j].weight_g) <= grams_of(sets[b].weight_g)
            },
            None => forall|j: int| 0 <= j < n ==> grams_of(sets[j].weight_g) <= 0,
        },
    decreases n,
{
    if n > 0 {
        lemma_heaviest(sets, (n - 1) as nat);
    }
}

/// Builds the reps a target set asks for.
pub fn reps_text(set: &RoutineSet) -> (cell: String)
    ensures
        cell@ == reps_cell(set@),
{
    proof {
        reveal_strlit("-");
        reveal_strlit("+");
    }
    let mut cell = String::new();
    let bounds: (Option<i64>, Option<i64>) = match set.rep_range {
        Some(range) => (range.start, range.end),
        None => (None, None),
    };
    match bounds {
        (Some(lo), Some(hi)) => {
            push_int(&mut cell, lo);
            cell.append("-");
            push_int(&mut cell, hi);
        },
        (Some(lo), None) => {
            push_int(&mut cell, lo);
            cell.append("+");
        },
        _ => match set.reps {
            Some(r) => {
                push_int(&mut cell, r);
            },
            None => {
                push_dash(&mut cell);
            },
        },
    }
    assert(cell@ =~= reps_cell(set@));
    cell
}

/// Builds a target weight in pounds, or a dash.
pub fn weight_text(weight_g: Option<i64>) -> (cell: String)
    ensures
        cell@ == weight_cell(weight_g),
{
    let mut cell = String::new();
    match weight_g {
        Some(g) => {
            if g > 0 {
                push_pounds(&mut cell, g);
            } else {
                push_dash(&mut cell);
            }
        },
        None => {
            push_dash(&mut cell);
        },
    }
    assert(cell@ =~= weight_cell(weight_g));
    cell
}

/// Builds a rest time in seconds, or a dash.
pub fn rest_text(rest_seconds: Option<i64>) -> (cell: String)
    ensures
        cell@ == rest_cell(rest_seconds),
{
    let mut cell = String::new();
    match rest_seconds {
        Some(v) => {
            push_int(&mut cell, v);
        },
        None => {
            push_dash(&mut cell);
        },
    }
    assert(cell@ =~= rest_cell(rest_seconds));
    cell
}

/// Finds the heaviest target set of an exercise.
pub fn heaviest_set(exercise: &RoutineExercise) -> (best: Option<usize>)
    ensures
        match best {
            Some(b) => heaviest(exercise@.sets, exercise@.sets.len()) == Some(b as int),
            None => heaviest(exercise@.sets, exercise@.sets.len()) is None,
        },
{
    let mut best: Option<usize> = None;
    let mut best_g: i64 = 0;
    let mut i: usize = 0;
    while i < exercise.sets.len()
        invariant
            i <= exercise.sets@.len(),
            exercise@.sets.len() == exercise.sets@.len(),
            match best {
                Some(b) => heaviest(exercise@.sets, i as nat) == Some(b as int) && b < i && best_g
                    == grams_of(exercise@.sets[b as int].weight_g),
                None => heaviest(exercise@.sets, i as nat) is None && best_g == 0,
            },
        decreases exercise.sets@.len() - i,
    {
        let g: i64 = match exercise.sets[i].weight_g {
            Some(g) => g,
            None => 0,
        };
        assert(g == grams_of(exercise@.sets[i as int].weight_g));
        if g > best_g {
            best = Some(i);
            best_g = g;
        }
        i += 1;
    }
    best
}

/// Appends the summary row of a routine exercise.
pub fn push_summary_row(out: &mut String, exercise: &RoutineExercise)
    ensures
        final(out)@ == old(out)@ + summary_row(exercise@),
{
    let title = truncate_str(text_or_default(&exercise.title, "Unknown Exercise"), TITLE_WIDTH);
    let mut count = String::new();
    push_nat(&mut count, exercise.sets.len() as u64);
    let mut weight = String::new();
    let reps;
    match heaviest_set(exercise) {
        Some(b) => {
            proof {
                lemma_heaviest(exercise@.sets, exercise@.sets.len());
            }
            let g: i64 = match exercise.sets[b].weight_g {
                Some(g) => g,
                None => 0,
            };
            push_pounds(&mut weight, g);
            reps = reps_text(&exercise.sets[b]);
        },
        None => {
            push_dash(&mut weight);
            let mut none = String::new();
            push_dash(&mut none);
            reps = none;
        },
    }
    let rest = rest_text(exercise.rest_seconds);
    proof {
        reveal_strlit("");
        assert(""@ =~= Seq::<char>::empty());
        assert(count@ =~= digits(exercise@.sets.len()));
    }
    push_row(
        out,
        title.as_str(),
        count.as_str(),
        weight.as_str(),
        reps.as_str(),
        rest.as_str(),
        text_or_default(&exercise.notes, ""),
        TARGET_REPS_WIDTH,
        REST_WIDTH,
    );
}

/// Appends the detail row of target set `i`.
pub fn push_detail_row(out: &mut String, exercise: &RoutineExercise, i: usize)
    requires
        i < exercise.sets@.len(),
    ensures
        final(out)@ == old(out)@ + detail_row(exercise@, i as int),
{
    assert(i < exercise.sets.len());
    let label = set_label_text(i, &exercise.sets[i].set_type);
    let weight = weight_text(exercise.sets[i].weight_g);
    let reps = reps_text(&exercise.sets[i]);
    proof {
        reveal_strlit("");
        assert(""@ =~= Seq::<char>::empty());
    }
    push_row(
        out,
        label.as_str(),
        "",
        weight.as_str(),
        reps.as_str(),
        "",
        "",
        TARGET_REPS_WIDTH,
        REST_WIDTH,
    );
}

/// Appends the rows of one routine exercise.
pub fn push_exercise_block(out: &mut String, exercise: &RoutineExercise)
    ensures
        final(out)@ == old(out)@ + exercise_block(exercise@),
{
    push_summary_row(out, exercise);
    let mut i: usize = 0;
    assert(out@ =~= old(out)@ + summary_row(exercise@) + detail_rows(exercise@, 0));
    while i < exercise.sets.len()
        invariant
            i <= exercise.sets@.len(),
            exercise@.sets.len() == exercise.sets@.len(),
            out@ == old(out)@ + summary_row(exercise@) + detail_rows(exercise@, i as nat),
        decreases exercise.sets@.len() - i,
    {
        push_detail_row(out, exercise, i);
        i += 1;
        assert(out@ =~= old(out)@ + summary_row(exercise@) + detail_rows(exercise@, i as nat));
    }
    assert(out@ =~= old(out)@ + exercise_block(exercise@));
}

/// Appends the routine section of a report.
pub fn push_routine_section(out: &mut String, routine: &Routine)
    ensures
        final(out)@ == old(out)@ + routine_section(routine@),
{
    let title = text_or_default(&routine.title, "Untitled Routine");
    let mut heading = String::new();
    heading.append("Routine: ");
    heading.append(title);
    push_line(out, heading.as_str());
    push_rule_line(out, title.as_bytes().len(), 10);
    push_blank_line(out);
    push_row(
        out,
        "Exercise",
        "Sets",
        "Target Wt (lbs)",
        "Target Reps",
        "Rest (s)",
        "Notes",
        TARGET_REPS_WIDTH,
        REST_WIDTH,
    );
    push_rule_line(out, RULE_WIDTH, 0);
    let ghost head = out@;
    let mut e: usize = 0;
    assert(out@ =~= head + exercise_blocks(routine@.exercises, 0));
    while e < routine.exercises.len()
        invariant
            e <= routine.exercises@.len(),
            routine@.exercises.len() == routine.exercises@.len(),
            out@ == head + exercise_blocks(routine@.exercises, e as nat),
        decreases routine.exercises@.len() - e,
    {
        push_exercise_block(out, &routine.exercises[e]);
        e += 1;
        assert(out@ =~= head + exercise_blocks(routine@.exercises, e as nat));
    }
    push_blank_line(out);
    assert(out@ =~= old(out)@ + routine_section(routine@));
}

} // verus!
