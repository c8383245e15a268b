//! The second table of a report: what was done, and how it compares with
//! what the routine asked for.

use vstd::prelude::*;
use vstd::string::*;
use crate::layout::{
    blank_line, dash, push_blank_line, push_dash, push_row, push_rule_line, row, rule_line,
    set_label, set_label_text, text_or, text_or_default, RULE_WIDTH, TITLE_WIDTH,
};
use crate::models::{Exercise, ExerciseView, Workout, WorkoutSet, WorkoutSetView, WorkoutView};
use crate::outcome::{aggregate, aggregate_of, classify, outcome_of, styled, Outcome};
use crate::targets::{lookup, target_for, TargetRange, TargetTable};
use crate::text::{decimal, digits, push_int, push_nat, truncate_str, truncated};
use crate::units::{grams_of, points_text, pounds_text, push_points, push_pounds};

verus! {

/// Width of the column of logged reps.
pub const REPS_WIDTH: usize = 13;

/// Width of the column of results in the header, where the word stands
/// without colour.
pub const RESULT_WIDTH: usize = 12;

/// Width of the column of results in the rows, where the word stands between
/// the nine characters of its escape sequences.
pub const STYLED_RESULT_WIDTH: usize = 21;

/// The rep count of a logged set, zero where none was logged.
pub open spec fn reps_of(s: WorkoutSetView) -> int {
    match s.reps {
        Some(r) => r as int,
        None => 0,
    }
}

/// The outcome of set `i` of an exercise: its rep count against the range
/// that the table holds for the exercise's template and the set's position.
pub open spec fn set_outcome(
    ex: ExerciseView,
    targets: Map<(Seq<char>, nat), TargetRange>,
    i: int,
) -> Outcome {
    let target = lookup(targets, ex.exercise_template_id, i as nat);
    outcome_of(reps_of(ex.sets[i]), target.lo as int, target.hi as int)
}

/// The outcomes of all sets of an exercise, in order.
pub open spec fn set_outcomes(
    ex: ExerciseView,
    targets: Map<(Seq<char>, nat), TargetRange>,
) -> Seq<Outcome> {
    Seq::new(ex.sets.len(), |i: int| set_outcome(ex, targets, i))
}

/// The outcome of an exercise: the aggregate of its sets' outcomes.
pub open spec fn exercise_outcome(
    ex: ExerciseView,
    targets: Map<(Seq<char>, nat), TargetRange>,
) -> Outcome {
    aggregate_of(set_outcomes(ex, targets))
}

/// The logged rep count, or a dash where none was logged.
pub open spec fn logged_reps_cell(reps: Option<i64>) -> Seq<char> {
    match reps {
        Some(r) => decimal(r as int),
        None => dash(),
    }
}

/// The perceived effort of a set, or nothing where none was logged.
pub open spec fn effort_cell(rpe_tenths: Option<u32>) -> Seq<char> {
    match rpe_tenths {
        Some(t) => "RPE "@ + points_text(t as nat),
        None => Seq::empty(),
    }
}

/// The summary row of a workout exercise: title, number of sets, outcome
/// and notes.
pub open spec fn result_row(
    ex: ExerciseView,
    targets: Map<(Seq<char>, nat), TargetRange>,
) -> Seq<char> {
    row(
        truncated(text_or(ex.title, "Unknown Exercise"@), TITLE_WIDTH as nat),
        digits(ex.sets.len()),
        Seq::empty(),
        Seq::empty(),
        styled(exercise_outcome(ex, targets)),
        text_or(ex.notes, Seq::empty()),
        REPS_WIDTH as nat,
        STYLED_RESULT_WIDTH as nat,
    )
}

/// The detail row of logged set `i`: its label, weight in pounds, reps,
/// outcome and perceived effort.
pub open spec fn set_row(
    ex: ExerciseView,
    targets: Map<(Seq<char>, nat), TargetRange>,
    i: int,
) -> Seq<char> {
    row(
        set_label(i as nat, ex.sets[i].set_type),
        Seq::empty(),
        pounds_text(grams_of(ex.sets[i].weight_g)),
        logged_reps_cell(ex.sets[i].reps),
        styled(set_outcome(ex, targets, i)),
        effort_cell(ex.sets[i].rpe_tenths),
        REPS_WIDTH as nat,
        STYLED_RESULT_WIDTH as nat,
    )
}

/// The detail rows of the first `n` logged sets, in order.
pub open spec fn set_rows(
    ex: ExerciseView,
    targets: Map<(Seq<char>, nat), TargetRange>,
    n: nat,
) -> Seq<char>
    decreases n,
{
    if n == 0 {
        Seq::empty()
    } else {
        set_rows(ex, targets, (n - 1) as nat) + set_row(ex, targets, n - 1)
    }
}

/// The rows of one workout exercise: its summary, then one row per set.
pub open spec fn result_block(
    ex: ExerciseView,
    targets: Map<(Seq<char>, nat), TargetRange>,
) -> Seq<char> {
    result_row(ex, targets) + set_rows(ex, targets, ex.sets.len())
}

/// The rows of the first `n` workout exercises, in the workout's order.
pub open spec fn result_blocks(
    exercises: Seq<ExerciseView>,
    targets: Map<(Seq<char>, nat), TargetRange>,
    n: nat,
) -> Seq<char>
    decreases n,
{
    if n == 0 {
        Seq::empty()
    } else {
        result_blocks(exercises, targets, (n - 1) as nat) + result_block(exercises[n - 1], targets)
    }
}

/// The header row of the workout table.
pub open spec fn workout_header() -> Seq<char> {
    row(
        "Exercise"@,
        "Sets"@,
        "Weight (lbs)"@,
        "Reps"@,
        "Result"@,
        "Notes"@,
        REPS_WIDTH as nat,
        RESULT_WIDTH as nat,
    )
}

/// The workout section: the table's header over a rule, the rows of every
/// exercise, and an empty line.
pub open spec fn workout_section(
    w: WorkoutView,
    targets: Map<(Seq<char>, nat), TargetRange>,
) -> Seq<char> {
    workout_header() + rule_line(RULE_WIDTH as nat) + result_blocks(
        w.exercises,
        targets,
        w.exercises.len(),
    ) + blank_line()
}

/// An exercise struggled exactly where one of its sets fell short of its
/// target; it exceeded exactly where it has sets and every one of them went
/// beyond its target; else it succeeded.
pub proof fn lemma_exercise_outcome(ex: ExerciseView, targets: Map<(Seq<char>, nat), TargetRange>)
    ensures
        exercise_outcome(ex, targets) == Outcome::Struggled <==> exists|i: int|
            0 <= i < ex.sets.len() && #[trigger] set_outcome(ex, targets, i) == Outcome::Struggled,
        exercise_outcome(ex, targets) == Outcome::Exceeded <==> ex.sets.len() > 0 && forall|i: int|
            0 <= i < ex.sets.len() ==> #[trigger] set_outcome(ex, targets, i) == Outcome::Exceeded,
{
    let s = set_outcomes(ex, targets);
    assert forall|i: int| 0 <= i < ex.sets.len() implies s[i] == #[trigger] set_outcome(
        ex,
        targets,
        i,
    ) by {}
    if exists|i: int|
        0 <= i < ex.sets.len() && #[trigger] set_outcome(ex, targets, i) == Outcome::Struggled {
        let i = choose|i: int|
            0 <= i < ex.sets.len() && #[trigger] set_outcome(ex, targets, i) == Outcome::Struggled;
        assert(s[i] == Outcome::Struggled);
    }
    if crate::outcome::any_struggled(s) {
        let i = choose|i: int| 0 <= i < s.len() && s[i] == Outcome::Struggled;
        assert(set_outcome(ex, targets, i) == Outcome::Struggled);
    }
    if ex.sets.len() > 0 && crate::outcome::all_exceeded(s) {
        assert(s[0] == Outcome::Exceeded);
        assert forall|i: int| 0 <= i < ex.sets.len() implies #[trigger] set_outcome(ex, targets, i)
            == Outcome::Exceeded by {
            assert(s[i] == Outcome::Exceeded);
        }
    }
}

/// Classifies set `i` of a workout exercise.
pub fn classify_set(exercise: &Exercise, table: &TargetTable, i: usize) -> (o: Outcome)
    requires
        i < exercise.sets@.len(),
    ensures
        o == set_outcome(exercise@, table@, i as int),
{
    let reps: i64 = match exercise.sets[i].reps {
        Some(r) => r,
        None => 0,
    };
    let target = target_for(table, &exercise.exercise_template_id, i);
    classify(reps, target)
}

/// Classifies every set of a workout exercise.
pub fn classify_sets(exercise: &Exercise, table: &TargetTable) -> (outcomes: Vec<Outcome>)
    ensures
        outcomes@ == set_outcomes(exercise@, table@),
{
    let mut outcomes: Vec<Outcome> = Vec::new();
    let mut i: usize = 0;
    while i < exercise.sets.len()
        invariant
            i <= exercise.sets@.len(),
            exercise@.sets.len() == exercise.sets@.len(),
            outcomes@.len() == i,
            forall|j: int| 0 <= j < i ==> outcomes@[j] == set_outcome(exercise@, table@, j),
        decreases exercise.sets@.len() - i,
    {
        outcomes.push(classify_set(exercise, table, i));
        i += 1;
    }
    assert(outcomes@ =~= set_outcomes(exercise@, table@));
    outcomes
}

/// The outcome of a workout exercise as a whole.
pub fn classify_exercise(exercise: &Exercise, table: &TargetTable) -> (o: Outcome)
    ensures
        o == exercise_outcome(exercise@, table@),
{
    let outcomes = classify_sets(exercise, table);
    aggregate(&outcomes)
}

/// Builds the perceived effort of a set.
pub fn effort_text(rpe_tenths: Option<u32>) -> (cell: String)
    ensures
        cell@ == effort_cell(rpe_tenths),
{
    let mut cell = String::new();
    match rpe_tenths {
        Some(t) => {
            cell.append("RPE ");
            push_points(&mut cell, t);
        },
        None => {},
    }
    assert(cell@ =~= effort_cell(rpe_tenths));
    cell
}

/// Appends the summary row of a workout exercise.
pub fn push_result_row(out: &mut String, exercise: &Exercise, table: &TargetTable)
    ensures
        final(out)@ == old(out)@ + result_row(exercise@, table@),
{
    let title = truncate_str(text_or_default(&exercise.title, "Unknown Exercise"), TITLE_WIDTH);
    let mut count = String::new();
    push_nat(&mut count, exercise.sets.len() as u64);
    let result = classify_exercise(exercise, table).styled_text();
    proof {
        reveal_strlit("");
        assert(""@ =~= Seq::<char>::empty());
        assert(count@ =~= digits(exercise@.sets.len()));
    }
    push_row(
        out,
        title.as_str(),
        count.as_str(),
        "",
        "",
        result.as_str(),
        text_or_default(&exercise.notes, ""),
        REPS_WIDTH,
        STYLED_RESULT_WIDTH,
    );
}

/// Appends the detail row of logged set `i`.
pub fn push_set_row(out: &mut String, exercise: &Exercise, table: &TargetTable, i: usize)
    requires
        i < exercise.sets@.len(),
    ensures
        final(out)@ == old(out)@ + set_row(exercise@, table@, i as int),
{
    assert(i < exercise.sets.len());
    let set: &WorkoutSet = &exercise.sets[i];
    let label = set_label_text(i, &set.set_type);
    let mut weight = String::new();
    let grams: i64 = match set.weight_g {
        Some(g) => g,
        None => 0,
    };
    push_pounds(&mut weight, grams);
    let mut reps = String::new();
    match set.reps {
        Some(r) => {
            push_int(&mut reps, r);
        },
        None => {
            push_dash(&mut reps);
        },
    }
    let result = classify_set(exercise, table, i).styled_text();
    let effort = effort_text(set.rpe_tenths);
    proof {
        reveal_strlit("");
        assert(""@ =~= Seq::<char>::empty());
        assert(weight@ =~= pounds_text(grams_of(exercise@.sets[i as int].weight_g)));
        assert(reps@ =~= logged_reps_cell(exercise@.sets[i as int].reps));
    }
    push_row(
        out,
        label.as_str(),
        "",
        weight.as_str(),
        reps.as_str(),
        result.as_str(),
        effort.as_str(),
        REPS_WIDTH,
        STYLED_RESULT_WIDTH,
    );
}

/// Appends the rows of one workout exercise.
pub fn push_result_block(out: &mut String, exercise: &Exercise, table: &TargetTable)
    ensures
        final(out)@ == old(out)@ + result_block(exercise@, table@),
{
    push_result_row(out, exercise, table);
    let mut i: usize = 0;
    assert(out@ =~= old(out)@ + result_row(exercise@, table@) + set_rows(exercise@, table@, 0));
    while i < exercise.sets.len()
        invariant
            i <= exercise.sets@.len(),
            exercise@.sets.len() == exercise.sets@.len(),
            out@ == old(out)@ + result_row(exercise@, table@) + set_rows(
                exercise@,
                table@,
                i as nat,
            ),
        decreases exercise.sets@.len() - i,
    {
        push_set_row(out, exercise, table, i);
        i += 1;
        assert(out@ =~= old(out)@ + result_row(exercise@, table@) + set_rows(
            exercise@,
            table@,
            i as nat,
        ));
    }
    assert(out@ =~= old(out)@ + result_block(exercise@, table@));
}

/// Appends the workout section of a report.
pub fn push_workout_section(out: &mut String, workout: &Workout, table: &TargetTable)
    ensures
        final(out)@ == old(out)@ + workout_section(workout@, table@),
{
    push_row(
        out,
        "Exercise",
        "Sets",
        "Weight (lbs)",
        "Reps",
        "Result",
        "Notes",
        REPS_WIDTH,
        RESULT_WIDTH,
    );
    push_rule_line(out, RULE_WIDTH, 0);
    let ghost head = out@;
    let mut e: usize = 0;
    assert(out@ =~= head + result_blocks(workout@.exercises, table@, 0));
    while e < workout.exercises.len()
        invariant
            e <= workout.exercises@.len(),
            workout@.exercises.len() == workout.exercises@.len(),
            out@ == head + result_blocks(workout@.exercises, table@, e as nat),
        decreases workout.exercises@.len() - e,
    {
        push_result_block(out, &workout.exercises[e], table);
        e += 1;
        assert(out@ =~= head + result_blocks(workout@.exercises, table@, e as nat));
    }
    push_blank_line(out);
    assert(out@ =~= old(out)@ + workout_section(workout@, table@));
}

} // verus!
