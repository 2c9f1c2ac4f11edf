//! Exercises, and the command that points one at another movement.
//!
//! An exercise belongs to a workout, and the workout to a user. The
//! command looks up the exercise, then its workout, checks that the caller
//! may change the workout, and only then writes.

use crate::error::{Error, ErrorView};
use crate::ident::{id_text, id_text_spec};
use crate::identity::RequestUser;
use crate::permission::{authorize_modify, may_modify};
use crate::store::{Request, Step, StepView};
use crate::view::{Loaded, ViewState, ViewStateView};
use vstd::prelude::*;
use vstd::string::*;

verus! {

/// An exercise as it is stored.
#[derive(Debug, Clone, PartialEq, Eq)]
pub struct ExerciseModel {
    pub id: u128,
    pub workout_id: u128,
    pub movement_id: u128,
    /// Seconds since the epoch.
    pub created_at: i64,
    pub updated_at: Option<i64>,
}

/// A workout, as far as the command needs to know one.
#[derive(Debug, Clone, PartialEq, Eq)]
pub struct WorkoutBase {
    pub id: u128,
    /// The owner.
    pub user_id: u128,
    pub created_at: i64,
    pub updated_at: Option<i64>,
}

/// Where the command stands.
#[derive(Debug, Clone, PartialEq, Eq)]
pub enum ExerciseUpdateFlow {
    /// The exercise has been asked for.
    FetchingExercise { user: RequestUser, movement_id: u128, redirect_to: Option<String> },
    /// The exercise is known and its workout has been asked for.
    FetchingWorkout {
        user: RequestUser,
        movement_id: u128,
        redirect_to: Option<String>,
        exercise: ExerciseModel,
    },
    /// The caller was allowed and the write has been asked for.
    Updating { redirect_to: Option<String> },
    Finished,
}

/// A reply of the store to the command. A failed call carries the store's
/// message; a write reports how many rows it changed.
#[derive(Debug, PartialEq, Eq)]
pub enum ExerciseUpdateReply {
    Exercise(Result<Option<ExerciseModel>, String>),
    Workout(Result<Option<WorkoutBase>, String>),
    Updated(Result<u64, String>),
}

/// The failure of a write that changed no row.
pub open spec fn exercise_not_updated() -> ErrorView {
    ErrorView::Application { message: "Error updating exercise"@ }
}

/// How the command goes on when a reply arrives. On success it ends with
/// the address to send the browser to, if one was given.
pub open spec fn exercise_update_step_spec(flow: ExerciseUpdateFlow, reply: ExerciseUpdateReply) -> (
    ExerciseUpdateFlow,
    StepView<Option<String>>,
) {
    match (flow, reply) {
        (
            ExerciseUpdateFlow::FetchingExercise { user, movement_id, redirect_to },
            ExerciseUpdateReply::Exercise(fetched),
        ) => match fetched {
            Ok(Some(exercise)) => (
                ExerciseUpdateFlow::FetchingWorkout { user, movement_id, redirect_to, exercise },
                StepView::Ask(Request::WorkoutById { id: exercise.workout_id }),
            ),
            Ok(None) => (ExerciseUpdateFlow::Finished, StepView::Done(Err(ErrorView::NotFound))),
            Err(message) => (
                ExerciseUpdateFlow::Finished,
                StepView::Done(Err(ErrorView::Transport { message: message@ })),
            ),
        },
        (
            ExerciseUpdateFlow::FetchingWorkout { user, movement_id, redirect_to, exercise },
            ExerciseUpdateReply::Workout(fetched),
        ) => match fetched {
            Ok(Some(workout)) => if may_modify(workout.user_id, user) {
                (
                    ExerciseUpdateFlow::Updating { redirect_to },
                    StepView::Ask(
                        Request::UpdateExercise {
                            exercise_id: exercise.id,
                            workout_id: workout.id,
                            movement_id,
                            user_id: user.id,
                        },
                    ),
                )
            } else {
                (ExerciseUpdateFlow::Finished, StepView::Done(Err(ErrorView::Forbidden)))
            },
            Ok(None) => (ExerciseUpdateFlow::Finished, StepView::Done(Err(ErrorView::NotFound))),
            Err(message) => (
                ExerciseUpdateFlow::Finished,
                StepView::Done(Err(ErrorView::Transport { message: message@ })),
            ),
        },
        (ExerciseUpdateFlow::Updating { redirect_to }, ExerciseUpdateReply::Updated(written)) => (
            ExerciseUpdateFlow::Finished,
            match written {
                Ok(rows) => if rows == 0 {
                    StepView::Done(Err(exercise_not_updated()))
                } else {
                    StepView::Done(Ok(redirect_to))
                },
                Err(message) => StepView::Done(Err(ErrorView::Transport { message: message@ })),
            },
        ),
        _ => (flow, StepView::Idle),
    }
}

/// Begins the command: `user` wants exercise `exercise_id` to use movement
/// `movement_id`, and the browser sent to `redirect_to` afterwards.
pub fn exercise_update(
    user: RequestUser,
    exercise_id: u128,
    movement_id: u128,
    redirect_to: Option<String>,
) -> (out: (ExerciseUpdateFlow, Request))
    ensures
        out == (
            ExerciseUpdateFlow::FetchingExercise { user, movement_id, redirect_to },
            Request::ExerciseById { id: exercise_id },
        ),
{
    (
        ExerciseUpdateFlow::FetchingExercise { user, movement_id, redirect_to },
        Request::ExerciseById { id: exercise_id },
    )
}

/// Takes a reply of the store and says what the command does next.
pub fn exercise_update_step(flow: ExerciseUpdateFlow, reply: ExerciseUpdateReply) -> (out: (
    ExerciseUpdateFlow,
    Step<Option<String>>,
))
    ensures
        (out.0, out.1@) == exercise_update_step_spec(flow, reply),
{
    match flow {
        ExerciseUpdateFlow::FetchingExercise { user, movement_id, redirect_to } => match reply {
            ExerciseUpdateReply::Exercise(Ok(Some(exercise))) => {
                let request = Request::WorkoutById { id: exercise.workout_id };
                (
                    ExerciseUpdateFlow::FetchingWorkout { user, movement_id, redirect_to, exercise },
                    Step::Ask(request),
                )
            },
            ExerciseUpdateReply::Exercise(Ok(None)) => (
                ExerciseUpdateFlow::Finished,
                Step::Done(Err(Error::NotFound)),
            ),
            ExerciseUpdateReply::Exercise(Err(message)) => (
                ExerciseUpdateFlow::Finished,
                Step::Done(Err(Error::transport(message))),
            ),
            _ => (
                ExerciseUpdateFlow::FetchingExercise { user, movement_id, redirect_to },
                Step::Idle,
            ),
        },
        ExerciseUpdateFlow::FetchingWorkout { user, movement_id, redirect_to, exercise } => match reply {
            ExerciseUpdateReply::Workout(Ok(Some(workout))) => {
                match authorize_modify(workout.user_id, &user) {
                    Ok(()) => {
                        let request = Request::UpdateExercise {
                            exercise_id: exercise.id,
                            workout_id: workout.id,
                            movement_id,
                            user_id: user.id,
                        };
                        (ExerciseUpdateFlow::Updating { redirect_to }, Step::Ask(request))
                    },
                    Err(refusal) => (ExerciseUpdateFlow::Finished, Step::Done(Err(refusal))),
                }
            },
            ExerciseUpdateReply::Workout(Ok(None)) => (
                ExerciseUpdateFlow::Finished,
                Step::Done(Err(Error::NotFound)),
            ),
            ExerciseUpdateReply::Workout(Err(message)) => (
                ExerciseUpdateFlow::Finished,
                Step::Done(Err(Error::transport(message))),
            ),
            _ => (
                ExerciseUpdateFlow::FetchingWorkout { user, movement_id, redirect_to, exercise },
                Step::Idle,
            ),
        },
        ExerciseUpdateFlow::Updating { redirect_to } => match reply {
            ExerciseUpdateReply::Updated(Ok(rows)) => if rows == 0 {
                (
                    ExerciseUpdateFlow::Finished,
                    Step::Done(Err(Error::application("Error updating exercise"))),
                )
            } else {
                (ExerciseUpdateFlow::Finished, Step::Done(Ok(redirect_to)))
            },
            ExerciseUpdateReply::Updated(Err(message)) => (
                ExerciseUpdateFlow::Finished,
                Step::Done(Err(Error::transport(message))),
            ),
            _ => (ExerciseUpdateFlow::Updating { redirect_to }, Step::Idle),
        },
        ExerciseUpdateFlow::Finished => (ExerciseUpdateFlow::Finished, Step::Idle),
    }
}

/// The steps a command takes from `flow` when the replies arrive in the
/// given order.
pub open spec fn exercise_update_trace(flow: ExerciseUpdateFlow, replies: Seq<ExerciseUpdateReply>) -> Seq<
    StepView<Option<String>>,
>
    decreases replies.len(),
{
    if replies.len() == 0 {
        Seq::empty()
    } else {
        let out = exercise_update_step_spec(flow, replies[0]);
        seq![out.1] + exercise_update_trace(out.0, replies.drop_first())
    }
}

/// Whether the command, standing at `flow`, still acts for `user` and has
/// not yet been let through to the write.
pub open spec fn acts_unwritten_for(flow: ExerciseUpdateFlow, user: RequestUser) -> bool {
    match flow {
        ExerciseUpdateFlow::FetchingExercise { user: caller, .. } => caller == user,
        ExerciseUpdateFlow::FetchingWorkout { user: caller, .. } => caller == user,
        ExerciseUpdateFlow::Updating { .. } => false,
        ExerciseUpdateFlow::Finished => true,
    }
}

/// Whether every workout among the replies is one that `user` neither owns
/// nor may change as a superuser.
pub open spec fn all_workouts_foreign(replies: Seq<ExerciseUpdateReply>, user: RequestUser) -> bool {
    forall|i: int|
        0 <= i < replies.len() ==> (#[trigger] replies[i] matches ExerciseUpdateReply::Workout(
            Ok(Some(workout)),
        ) ==> !may_modify(workout.user_id, user))
}

/// The write is asked for only on the reply that shows the workout, and
/// only where the caller owns that workout or is a superuser.
pub proof fn lemma_write_needs_permission(flow: ExerciseUpdateFlow, reply: ExerciseUpdateReply)
    ensures
        exercise_update_step_spec(flow, reply).1.is_write() ==> {
            &&& flow matches ExerciseUpdateFlow::FetchingWorkout { user, .. }
            &&& reply matches ExerciseUpdateReply::Workout(Ok(Some(workout)))
            &&& may_modify(workout.user_id, user)
        },
{
}

/// A caller who neither owns the workout nor is a superuser gets
/// `Forbidden`, and the command ends there.
pub proof fn lemma_foreign_caller_is_refused(
    user: RequestUser,
    movement_id: u128,
    redirect_to: Option<String>,
    exercise: ExerciseModel,
    workout: WorkoutBase,
)
    requires
        workout.user_id != user.id,
        !user.is_superuser,
    ensures
        exercise_update_step_spec(
            ExerciseUpdateFlow::FetchingWorkout { user, movement_id, redirect_to, exercise },
            ExerciseUpdateReply::Workout(Ok(Some(workout))),
        ) == (
            ExerciseUpdateFlow::Finished,
            StepView::<Option<String>>::Done(Err(ErrorView::Forbidden)),
        ),
{
}

/// Whatever the store replies and in whatever order, a command on behalf
/// of a caller who may change none of the workouts shown never asks the
/// store to write: what is stored stays as it was.
pub proof fn lemma_foreign_caller_never_writes(
    flow: ExerciseUpdateFlow,
    replies: Seq<ExerciseUpdateReply>,
    user: RequestUser,
)
    requires
        acts_unwritten_for(flow, user),
        all_workouts_foreign(replies, user),
    ensures
        forall|i: int|
            0 <= i < exercise_update_trace(flow, replies).len() ==> !(
            #[trigger] exercise_update_trace(flow, replies)[i]).is_write(),
        exercise_update_trace(flow, replies).len() == replies.len(),
    decreases replies.len(),
{
    if replies.len() > 0 {
        let out = exercise_update_step_spec(flow, replies[0]);
        let rest = replies.drop_first();
        assert(!out.1.is_write() && acts_unwritten_for(out.0, user)) by {
            assert(replies[0] matches ExerciseUpdateReply::Workout(Ok(Some(workout)))
                ==> !may_modify(workout.user_id, user));
        }
        assert forall|i: int| 0 <= i < rest.len() implies (#[trigger] rest[i]
            matches ExerciseUpdateReply::Workout(Ok(Some(workout))) ==> !may_modify(
            workout.user_id,
            user,
        )) by {
            assert(rest[i] == replies[i + 1]);
        }
        lemma_foreign_caller_never_writes(out.0, rest, user);
        let tail = exercise_update_trace(out.0, rest);
        assert forall|i: int| 0 <= i < exercise_update_trace(flow, replies).len() implies !(
        #[trigger] exercise_update_trace(flow, replies)[i]).is_write() by {
            if i > 0 {
                assert(exercise_update_trace(flow, replies)[i] == tail[i - 1]);
            }
        }
    }
}

/// A write that changed no row is a failure of the application, never a
/// success; one that changed a row ends the command with the redirect.
pub proof fn lemma_empty_update_fails(redirect_to: Option<String>, rows: u64)
    ensures
        exercise_update_step_spec(
            ExerciseUpdateFlow::Updating { redirect_to },
            ExerciseUpdateReply::Updated(Ok(rows)),
        ).1 == if rows == 0 {
            StepView::<Option<String>>::Done(Err(exercise_not_updated()))
        } else {
            StepView::Done(Ok(redirect_to))
        },
{
}

/// Once the command has finished, no reply moves it or makes it act.
pub proof fn lemma_finished_stays_finished(reply: ExerciseUpdateReply)
    ensures
        exercise_update_step_spec(ExerciseUpdateFlow::Finished, reply) == (
            ExerciseUpdateFlow::Finished,
            StepView::<Option<String>>::Idle,
        ),
{
}

/// The address of a workout's page: `/users/`, the owner's name,
/// `/workouts/`, the date, `/`, and the workout's identifier in its text
/// form.
pub open spec fn workout_url_spec(username: Seq<char>, date: Seq<char>, workout_id: u128) -> Seq<
    char,
> {
    "/users/"@ + username + "/workouts/"@ + date + "/"@ + id_text_spec(workout_id)
}

/// The address of a workout's page, to which the form of the command sends
/// the browser back.
pub fn workout_url(username: &str, date: &str, workout_id: u128) -> (url: String)
    ensures
        url@ == workout_url_spec(username@, date@, workout_id),
{
    let mut url = String::from_str("/users/");
    url.append(username);
    url.append("/workouts/");
    url.append(date);
    url.append("/");
    let id = id_text(workout_id);
    url.append(id.as_str());
    url
}

/// What the form of the command carries: the hidden inputs, and the
/// movement that the select input starts on.
#[derive(Debug, Clone, PartialEq, Eq)]
pub struct ExerciseForm {
    pub redirect_to: String,
    /// The exercise's identifier in its text form.
    pub exercise_id: String,
    pub movement_id: u128,
}

/// Whether `form` is the form for `exercise` that sends the browser to
/// `redirect_to` afterwards.
pub open spec fn is_form_of(form: ExerciseForm, exercise: ExerciseModel, redirect_to: Seq<char>) -> bool {
    &&& form.redirect_to@ == redirect_to
    &&& form.exercise_id@ == id_text_spec(exercise.id)
    &&& form.movement_id == exercise.movement_id
}

/// Decides what the page of the command shows: the form for the exercise
/// once it is loaded, the failure's message where loading failed.
pub fn exercise_update_page(loaded: Loaded<ExerciseModel>, redirect_to: String) -> (state: ViewState<
    ExerciseForm,
>)
    ensures
        match loaded {
            None => state@ == ViewStateView::<ExerciseForm>::Loading,
            Some(Err(error)) => state@ == ViewStateView::<ExerciseForm>::Error {
                message: error@.message(),
            },
            Some(Ok(exercise)) => state@ matches ViewStateView::Populated { data } && is_form_of(
                data,
                exercise,
                redirect_to@,
            ),
        },
{
    match loaded {
        None => ViewState::Loading,
        Some(Err(error)) => ViewState::Error { message: error.message() },
        Some(Ok(exercise)) => ViewState::Populated {
            data: ExerciseForm {
                redirect_to,
                exercise_id: id_text(exercise.id),
                movement_id: exercise.movement_id,
            },
        },
    }
}

} // verus!
