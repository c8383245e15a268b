//! The course of one report, from the payload that asks for it to the text
//! that answers it.
//!
//! Fetching is not done here. A session says what to fetch next, is told
//! what came back, and says what to do then. It asks for the workout, then
//! for the routine if the workout refers to one, and ends by handing out
//! the report or a failure.

use vstd::prelude::*;
use vstd::string::*;
use crate::json::{json_member_text, string_member};
use crate::models::{text_of, Routine, RoutineView, Workout, WorkoutView};
use crate::report::{generate_report, report_text};

verus! {

/// Name of the member of a payload that holds the workout's identifier.
pub const WORKOUT_ID_MEMBER: &'static str = "workoutId";

/// Why a fetch gave nothing.
#[derive(Clone, Copy, Debug, PartialEq, Eq, Structural)]
pub enum FetchError {
    /// The provider answered, but not with success.
    NotFound,
    /// The provider could not be reached.
    Transport,
    /// The provider's answer could not be read.
    Decode,
}

/// Why a session ended without a report.
#[derive(Clone, Copy, Debug, PartialEq, Eq, Structural)]
pub enum ReportError {
    /// The payload names no workout.
    InvalidPayload,
    /// The workout could not be fetched.
    WorkoutUnavailable(FetchError),
    /// The session was told of something it had not asked for.
    UnexpectedEvent,
}

/// What a session waits for.
#[derive(Clone, Debug, PartialEq, Eq)]
pub enum ReportState {
    AwaitingWorkout,
    AwaitingRoutine(Workout),
    Finished,
}

/// What a `ReportState` stands for in contracts.
pub enum ReportStateView {
    AwaitingWorkout,
    AwaitingRoutine(WorkoutView),
    Finished,
}

impl View for ReportState {
    type V = ReportStateView;

    open spec fn view(&self) -> ReportStateView {
        match *self {
            ReportState::AwaitingWorkout => ReportStateView::AwaitingWorkout,
            ReportState::AwaitingRoutine(w) => ReportStateView::AwaitingRoutine(w@),
            ReportState::Finished => ReportStateView::Finished,
        }
    }
}

/// What a session is told.
#[derive(Clone, Debug, PartialEq, Eq)]
pub enum ReportEvent {
    WorkoutFetched(Workout),
    WorkoutFailed(FetchError),
    RoutineFetched(Routine),
    RoutineFailed(FetchError),
}

/// What a `ReportEvent` stands for in contracts.
pub enum ReportEventView {
    WorkoutFetched(WorkoutView),
    WorkoutFailed(FetchError),
    RoutineFetched(RoutineView),
    RoutineFailed(FetchError),
}

impl View for ReportEvent {
    type V = ReportEventView;

    open spec fn view(&self) -> ReportEventView {
        match *self {
            ReportEvent::WorkoutFetched(w) => ReportEventView::WorkoutFetched(w@),
            ReportEvent::WorkoutFailed(e) => ReportEventView::WorkoutFailed(e),
            ReportEvent::RoutineFetched(r) => ReportEventView::RoutineFetched(r@),
            ReportEvent::RoutineFailed(e) => ReportEventView::RoutineFailed(e),
        }
    }
}

/// What a session asks its caller to do.
#[derive(Clone, Debug, PartialEq, Eq)]
pub enum ReportAction {
    /// Fetch the workout with this identifier.
    FetchWorkout(String),
    /// Fetch the routine with this identifier.
    FetchRoutine(String),
    /// Print this report.
    Print(String),
    /// Give up.
    Fail(ReportError),
}

/// What a `ReportAction` stands for in contracts.
pub enum ReportActionView {
    FetchWorkout(Seq<char>),
    FetchRoutine(Seq<char>),
    Print(Seq<char>),
    Fail(ReportError),
}

impl View for ReportAction {
    type V = ReportActionView;

    open spec fn view(&self) -> ReportActionView {
        match *self {
            ReportAction::FetchWorkout(id) => ReportActionView::FetchWorkout(id@),
            ReportAction::FetchRoutine(id) => ReportActionView::FetchRoutine(id@),
            ReportAction::Print(text) => ReportActionView::Print(text@),
            ReportAction::Fail(e) => ReportActionView::Fail(e),
        }
    }
}

/// How a session starts, given the workout identifier found in the payload.
pub open spec fn first_step(workout_id: Option<Seq<char>>) -> (ReportStateView, ReportActionView) {
    match workout_id {
        Some(id) => (ReportStateView::AwaitingWorkout, ReportActionView::FetchWorkout(id)),
        None => (ReportStateView::Finished, ReportActionView::Fail(ReportError::InvalidPayload)),
    }
}

/// How a session goes on.
///
/// A workout that refers to a routine makes the session ask for that
/// routine; one that refers to none is reported on at once. A workout that
/// cannot be fetched ends the session with a failure. A routine that cannot
/// be fetched does not: the report is then written as if there were none.
/// Anything the session is told while it does not wait for it ends it with
/// a failure.
pub open spec fn next_step(state: ReportStateView, event: ReportEventView) -> (
    ReportStateView,
    ReportActionView,
) {
    match (state, event) {
        (ReportStateView::AwaitingWorkout, ReportEventView::WorkoutFetched(w)) => match w.routine_id {
            Some(id) => (ReportStateView::AwaitingRoutine(w), ReportActionView::FetchRoutine(id)),
            None => (ReportStateView::Finished, ReportActionView::Print(report_text(w, None))),
        },
        (ReportStateView::AwaitingWorkout, ReportEventView::WorkoutFailed(e)) => (
            ReportStateView::Finished,
            ReportActionView::Fail(ReportError::WorkoutUnavailable(e)),
        ),
        (ReportStateView::AwaitingRoutine(w), ReportEventView::RoutineFetched(r)) => (
            ReportStateView::Finished,
            ReportActionView::Print(report_text(w, Some(r))),
        ),
        (ReportStateView::AwaitingRoutine(w), ReportEventView::RoutineFailed(_)) => (
            ReportStateView::Finished,
            ReportActionView::Print(report_text(w, None)),
        ),
        _ => (ReportStateView::Finished, ReportActionView::Fail(ReportError::UnexpectedEvent)),
    }
}

/// The view of a state and an action.
pub open spec fn step_view(step: (ReportState, ReportAction)) -> (ReportStateView, ReportActionView) {
    (step.0@, step.1@)
}

/// A session is over after two events at the latest, whatever they are.
pub proof fn lemma_session_ends(first: ReportEventView, second: ReportEventView)
    ensures
        next_step(next_step(ReportStateView::AwaitingWorkout, first).0, second).0
            == ReportStateView::Finished,
        next_step(ReportStateView::Finished, first).0 == ReportStateView::Finished,
{
}

/// A session asks for a routine only after it has been handed a workout
/// that refers to one, and then for the routine that the workout refers to.
pub proof fn lemma_routine_asked_for(state: ReportStateView, event: ReportEventView)
    ensures
        next_step(state, event).1 is FetchRoutine <==> state is AwaitingWorkout && event
            is WorkoutFetched && event->WorkoutFetched_0.routine_id is Some,
        next_step(state, event).1 matches ReportActionView::FetchRoutine(id) ==> Some(id)
            == event->WorkoutFetched_0.routine_id,
        !(next_step(state, event).1 is FetchWorkout),
{
}

/// A workout that refers to no routine is reported on without a routine;
/// so is one whose routine cannot be fetched. Neither is a failure.
pub proof fn lemma_missing_routine_is_not_fatal(w: WorkoutView, e: FetchError)
    ensures
        w.routine_id is None ==> next_step(
            ReportStateView::AwaitingWorkout,
            ReportEventView::WorkoutFetched(w),
        ).1 == ReportActionView::Print(report_text(w, None)),
        next_step(ReportStateView::AwaitingRoutine(w), ReportEventView::RoutineFailed(e)).1
            == ReportActionView::Print(report_text(w, None)),
{
}

/// A session fails exactly where the workout cannot be fetched or the
/// session is told of something it does not wait for.
pub proof fn lemma_failures(state: ReportStateView, event: ReportEventView)
    ensures
        next_step(state, event).1 is Fail <==> !(state is AwaitingWorkout && event
            is WorkoutFetched) && !(state is AwaitingRoutine && (event is RoutineFetched || event
            is RoutineFailed)),
        next_step(state, event).1 == ReportActionView::Fail(ReportError::UnexpectedEvent) <==> !(
        state is AwaitingWorkout && (event is WorkoutFetched || event is WorkoutFailed)) && !(state
            is AwaitingRoutine && (event is RoutineFetched || event is RoutineFailed)),
        !(next_step(state, event).1 == ReportActionView::Fail(ReportError::InvalidPayload)),
{
}

/// Starts a session for the workout with the given identifier, or ends it
/// at once where there is none.
pub fn begin_with(workout_id: Option<String>) -> (step: (ReportState, ReportAction))
    ensures
        step_view(step) == first_step(text_of(workout_id)),
{
    match workout_id {
        Some(id) => (ReportState::AwaitingWorkout, ReportAction::FetchWorkout(id)),
        None => (ReportState::Finished, ReportAction::Fail(ReportError::InvalidPayload)),
    }
}

/// Starts a session from a payload of the shape `{"workoutId": "<id>"}`.
/// A payload that names no workout ends the session before anything is
/// fetched.
pub fn begin(payload: &str) -> (step: (ReportState, ReportAction))
    ensures
        step_view(step) == first_step(json_member_text(payload@, WORKOUT_ID_MEMBER@)),
{
    begin_with(string_member(payload, WORKOUT_ID_MEMBER))
}

/// Takes a session one step further: from what it waited for and what it
/// is told to what it waits for next and what is to be done.
pub fn step(state: ReportState, event: ReportEvent) -> (step: (ReportState, ReportAction))
    ensures
        step_view(step) == next_step(state@, event@),
{
    match state {
        ReportState::AwaitingWorkout => match event {
            ReportEvent::WorkoutFetched(workout) => {
                let reference: Option<String> = match &workout.routine_id {
                    Some(id) => Some(id.clone()),
                    None => None,
                };
                match reference {
                    Some(id) => (ReportState::AwaitingRoutine(workout), ReportAction::FetchRoutine(id)),
                    None => {
                        let text = generate_report(&workout, None);
                        (ReportState::Finished, ReportAction::Print(text))
                    },
                }
            },
            ReportEvent::WorkoutFailed(e) => (
                ReportState::Finished,
                ReportAction::Fail(ReportError::WorkoutUnavailable(e)),
            ),
            _ => (ReportState::Finished, ReportAction::Fail(ReportError::UnexpectedEvent)),
        },
        ReportState::AwaitingRoutine(workout) => match event {
            ReportEvent::RoutineFetched(routine) => {
                let text = generate_report(&workout, Some(&routine));
                (ReportState::Finished, ReportAction::Print(text))
            },
            ReportEvent::RoutineFailed(_) => {
                let text = generate_report(&workout, None);
                (ReportState::Finished, ReportAction::Print(text))
            },
            _ => (ReportState::Finished, ReportAction::Fail(ReportError::UnexpectedEvent)),
        },
        ReportState::Finished => (
            ReportState::Finished,
            ReportAction::Fail(ReportError::UnexpectedEvent),
        ),
    }
}

} // verus!
