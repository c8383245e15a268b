//! The report as a whole: a preamble, the routine table where there is a
//! routine, and the workout table.

use vstd::prelude::*;
use vstd::string::*;
use vstd::utf8::encode_utf8;
use crate::layout::{
    blank_line, line, push_blank_line, push_line, push_rule_line, rule_line, text_or,
    text_or_default,
};
use crate::models::{routine_view, Routine, RoutineView, Workout, WorkoutView};
use crate::routine_table::{push_routine_section, routine_section};
use crate::targets::{resolve_targets, targets_of, TargetRange};
use crate::outcome::outcome_of;
use crate::workout_table::{push_workout_section, reps_of, set_outcome, workout_section};

verus! {

/// The preamble of a report: an empty line, the workout's title over a rule
/// as long as the title's UTF-8 encoding, the identifier of the routine that
/// the workout refers to, if it refers to one, and an empty line.
pub open spec fn preamble(w: WorkoutView) -> Seq<char> {
    let title = text_or(w.title, "Untitled Workout"@);
    blank_line() + line(title) + rule_line(encode_utf8(title).len()) + (match w.routine_id {
        Some(id) => line("Routine ID: "@ + id),
        None => Seq::empty(),
    }) + blank_line()
}

/// The routine section of a report, empty where there is no routine.
pub open spec fn optional_routine_section(r: Option<RoutineView>) -> Seq<char> {
    match r {
        Some(r) => routine_section(r),
        None => Seq::empty(),
    }
}

/// The text of the report on a workout and, where one was found, the
/// routine it was started from. The sets of the workout are measured against
/// the targets of that routine, and against the default range where there is
/// no routine or the routine has no target for a set.
pub open spec fn report_text(w: WorkoutView, r: Option<RoutineView>) -> Seq<char> {
    preamble(w) + optional_routine_section(r) + workout_section(w, targets_of(r))
}

/// Without a routine the report holds the preamble and the workout section
/// only, and every set in it is measured against the default range.
pub proof fn lemma_report_without_routine(w: WorkoutView)
    ensures
        report_text(w, None) == preamble(w) + workout_section(
            w,
            Map::<(Seq<char>, nat), TargetRange>::empty(),
        ),
        forall|e: int, i: int|
            0 <= e < w.exercises.len() && 0 <= i < w.exercises[e].sets.len() ==> #[trigger] set_outcome(
                w.exercises[e],
                targets_of(None),
                i,
            ) == outcome_of(reps_of(w.exercises[e].sets[i]), 8, 10),
{
    assert(report_text(w, None) =~= preamble(w) + workout_section(
        w,
        Map::<(Seq<char>, nat), TargetRange>::empty(),
    ));
}

/// Appends the preamble of a report.
pub fn push_preamble(out: &mut String, workout: &Workout)
    ensures
        final(out)@ == old(out)@ + preamble(workout@),
{
    let title = text_or_default(&workout.title, "Untitled Workout");
    push_blank_line(out);
    push_line(out, title);
    push_rule_line(out, title.as_bytes().len(), 0);
    match &workout.routine_id {
        Some(id) => {
            let mut reference = String::new();
            reference.append("Routine ID: ");
            reference.append(id.as_str());
            push_line(out, reference.as_str());
        },
        None => {},
    }
    push_blank_line(out);
    assert(out@ =~= old(out)@ + preamble(workout@));
}

/// Writes the report on `workout`. `routine` is the routine the workout was
/// started from, where the workout refers to one and it could be had.
pub fn generate_report(workout: &Workout, routine: Option<&Routine>) -> (report: String)
    ensures
        report@ == report_text(workout@, routine_view(routine)),
{
    let table = resolve_targets(routine);
    let mut report = String::new();
    push_preamble(&mut report, workout);
    match routine {
        Some(r) => {
            push_routine_section(&mut report, r);
        },
        None => {},
    }
    push_workout_section(&mut report, workout, &table);
    assert(report@ =~= report_text(workout@, routine_view(routine)));
    report
}

} // verus!
