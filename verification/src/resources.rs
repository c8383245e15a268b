//! Plain records of the fitness API that carry no weights or rep counts:
//! user, exercise templates, routine folders and the workout count.

use vstd::prelude::*;

verus! {

/// The number of workouts on an account.
#[derive(Clone, Copy, Debug, PartialEq, Eq, Structural)]
pub struct WorkoutCountResponse {
    pub workout_count: i64,
}

/// An exercise that workouts and routines refer to by its identifier.
#[derive(Clone, Debug, PartialEq, Eq)]
pub struct ExerciseTemplate {
    pub id: Option<String>,
    pub title: Option<String>,
    pub exercise_type: Option<String>,
    pub primary_muscle_group: Option<String>,
    pub secondary_muscle_groups: Option<Vec<String>>,
    pub is_custom: Option<bool>,
}

/// One page of exercise templates.
#[derive(Clone, Debug, PartialEq, Eq)]
pub struct ExerciseTemplatesPage {
    pub page: i64,
    pub page_count: i64,
    pub exercise_templates: Vec<ExerciseTemplate>,
}

/// A custom exercise to create.
#[derive(Clone, Debug, PartialEq, Eq)]
pub struct CreateExerciseInner {
    pub title: String,
    pub exercise_type: String,
    pub equipment_category: String,
    pub muscle_group: String,
    pub other_muscles: Option<Vec<String>>,
}

/// The request that creates a custom exercise.
#[derive(Clone, Debug, PartialEq, Eq)]
pub struct CreateExerciseBody {
    pub exercise: CreateExerciseInner,
}

/// A routine folder to create.
#[derive(Clone, Debug, PartialEq, Eq)]
pub struct PostRoutineFolderInner {
    pub title: String,
}

/// The request that creates a routine folder.
#[derive(Clone, Debug, PartialEq, Eq)]
pub struct PostRoutineFolderBody {
    pub routine_folder: PostRoutineFolderInner,
}

/// The account that an API key belongs to.
#[derive(Clone, Debug, PartialEq, Eq)]
pub struct UserInfo {
    pub id: Option<String>,
    pub name: Option<String>,
    pub url: Option<String>,
}

/// The answer to a request for the account.
#[derive(Clone, Debug, PartialEq, Eq)]
pub struct UserInfoResponse {
    pub data: UserInfo,
}

} // verus!
