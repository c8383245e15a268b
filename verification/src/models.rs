//! The data a report is made from: a logged workout and, where the workout
//! was started from one, the routine with its targets.
//!
//! Quantities are whole numbers: weights in grams, perceived effort in tenths
//! of a point, rep counts and rest times as integers. Each type has a view
//! in which text is a `Seq<char>` and lists are `Seq`s of views.

use vstd::prelude::*;

verus! {

/// The text of an optional string.
pub open spec fn text_of(s: Option<String>) -> Option<Seq<char>> {
    match s {
        Some(t) => Some(t@),
        None => None,
    }
}

/// A rep range as a routine declares it. Either bound may be missing.
#[derive(Clone, Copy, Debug, PartialEq, Eq, Structural)]
pub struct RepRange {
    pub start: Option<i64>,
    pub end: Option<i64>,
}

/// A set as it was logged in a workout.
#[derive(Clone, Debug, PartialEq, Eq)]
pub struct WorkoutSet {
    /// `normal`, `warmup`, `failure` or `dropset`.
    pub set_type: Option<String>,
    /// Weight in grams.
    pub weight_g: Option<i64>,
    pub reps: Option<i64>,
    /// Rate of perceived exertion, in tenths of a point.
    pub rpe_tenths: Option<u32>,
}

/// What a `WorkoutSet` stands for in contracts.
pub struct WorkoutSetView {
    pub set_type: Option<Seq<char>>,
    pub weight_g: Option<i64>,
    pub reps: Option<i64>,
    pub rpe_tenths: Option<u32>,
}

impl View for WorkoutSet {
    type V = WorkoutSetView;

    open spec fn view(&self) -> WorkoutSetView {
        WorkoutSetView {
            set_type: text_of(self.set_type),
            weight_g: self.weight_g,
            reps: self.reps,
            rpe_tenths: self.rpe_tenths,
        }
    }
}

/// A target set of a routine exercise.
#[derive(Clone, Debug, PartialEq, Eq)]
pub struct RoutineSet {
    /// `normal`, `warmup`, `failure` or `dropset`.
    pub set_type: Option<String>,
    /// Weight in grams.
    pub weight_g: Option<i64>,
    /// A fixed rep count, used when no rep range is declared.
    pub reps: Option<i64>,
    pub rep_range: Option<RepRange>,
}

/// What a `RoutineSet` stands for in contracts.
pub struct RoutineSetView {
    pub set_type: Option<Seq<char>>,
    pub weight_g: Option<i64>,
    pub reps: Option<i64>,
    pub rep_range: Option<RepRange>,
}

impl View for RoutineSet {
    type V = RoutineSetView;

    open spec fn view(&self) -> RoutineSetView {
        RoutineSetView {
            set_type: text_of(self.set_type),
            weight_g: self.weight_g,
            reps: self.reps,
            rep_range: self.rep_range,
        }
    }
}

/// An exercise of a workout with its logged sets, in order.
#[derive(Clone, Debug, PartialEq, Eq)]
pub struct Exercise {
    pub title: Option<String>,
    pub notes: Option<String>,
    pub exercise_template_id: Option<String>,
    pub sets: Vec<WorkoutSet>,
}

/// What an `Exercise` stands for in contracts.
pub struct ExerciseView {
    pub title: Option<Seq<char>>,
    pub notes: Option<Seq<char>>,
    pub exercise_template_id: Option<Seq<char>>,
    pub sets: Seq<WorkoutSetView>,
}

impl View for Exercise {
    type V = ExerciseView;

    open spec fn view(&self) -> ExerciseView {
        ExerciseView {
            title: text_of(self.title),
            notes: text_of(self.notes),
            exercise_template_id: text_of(self.exercise_template_id),
            sets: self.sets@.map_values(|s: WorkoutSet| s@),
        }
    }
}

/// An exercise of a routine with its target sets, in order.
#[derive(Clone, Debug, PartialEq, Eq)]
pub struct RoutineExercise {
    pub title: Option<String>,
    /// Suggested rest between sets, in seconds.
    pub rest_seconds: Option<i64>,
    pub notes: Option<String>,
    pub exercise_template_id: Option<String>,
    pub sets: Vec<RoutineSet>,
}

/// What a `RoutineExercise` stands for in contracts.
pub struct RoutineExerciseView {
    pub title: Option<Seq<char>>,
    pub rest_seconds: Option<i64>,
    pub notes: Option<Seq<char>>,
    pub exercise_template_id: Option<Seq<char>>,
    pub sets: Seq<RoutineSetView>,
}

impl View for RoutineExercise {
    type V = RoutineExerciseView;

    open spec fn view(&self) -> RoutineExerciseView {
        RoutineExerciseView {
            title: text_of(self.title),
            rest_seconds: self.rest_seconds,
            notes: text_of(self.notes),
            exercise_template_id: text_of(self.exercise_template_id),
            sets: self.sets@.map_values(|s: RoutineSet| s@),
        }
    }
}

/// A completed workout.
#[derive(Clone, Debug, PartialEq, Eq)]
pub struct Workout {
    pub id: Option<String>,
    pub title: Option<String>,
    /// The routine this workout was started from, if any.
    pub routine_id: Option<String>,
    pub description: Option<String>,
    pub start_time: Option<String>,
    pub end_time: Option<String>,
    pub updated_at: Option<String>,
    pub created_at: Option<String>,
    pub exercises: Vec<Exercise>,
}

/// What a `Workout` stands for in contracts.
pub struct WorkoutView {
    pub id: Option<Seq<char>>,
    pub title: Option<Seq<char>>,
    pub routine_id: Option<Seq<char>>,
    pub description: Option<Seq<char>>,
    pub start_time: Option<Seq<char>>,
    pub end_time: Option<Seq<char>>,
    pub updated_at: Option<Seq<char>>,
    pub created_at: Option<Seq<char>>,
    pub exercises: Seq<ExerciseView>,
}

impl View for Workout {
    type V = WorkoutView;

    open spec fn view(&self) -> WorkoutView {
        WorkoutView {
            id: text_of(self.id),
            title: text_of(self.title),
            routine_id: text_of(self.routine_id),
            description: text_of(self.description),
            start_time: text_of(self.start_time),
            end_time: text_of(self.end_time),
            updated_at: text_of(self.updated_at),
            created_at: text_of(self.created_at),
            exercises: self.exercises@.map_values(|e: Exercise| e@),
        }
    }
}

/// A routine: a template that workouts are started from.
#[derive(Clone, Debug, PartialEq, Eq)]
pub struct Routine {
    pub id: Option<String>,
    pub title: Option<String>,
    pub updated_at: Option<String>,
    pub created_at: Option<String>,
    pub exercises: Vec<RoutineExercise>,
}

/// What a `Routine` stands for in contracts.
pub struct RoutineView {
    pub id: Option<Seq<char>>,
    pub title: Option<Seq<char>>,
    pub updated_at: Option<Seq<char>>,
    pub created_at: Option<Seq<char>>,
    pub exercises: Seq<RoutineExerciseView>,
}

impl View for Routine {
    type V = RoutineView;

    open spec fn view(&self) -> RoutineView {
        RoutineView {
            id: text_of(self.id),
            title: text_of(self.title),
            updated_at: text_of(self.updated_at),
            created_at: text_of(self.created_at),
            exercises: self.exercises@.map_values(|e: RoutineExercise| e@),
        }
    }
}

/// The view of an optional routine.
pub open spec fn routine_view(r: Option<&Routine>) -> Option<RoutineView> {
    match r {
        Some(r) => Some(r@),
        None => None,
    }
}

} // verus!
