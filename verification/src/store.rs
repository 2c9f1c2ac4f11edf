//! What the logic asks of the backing store, and how a flow reports what
//! comes next.
//!
//! The library never touches the database. A flow hands out a [`Request`],
//! the caller performs it and hands the reply back, and the flow decides
//! what follows, until it is done.

use crate::error::{Error, ErrorView};
use crate::list::ListScope;
use crate::user_block::BlockStatus;
use vstd::prelude::*;

verus! {

/// One call on the backing store.
#[derive(Debug, Clone, PartialEq, Eq)]
pub enum Request {
    /// How many rows of `scope` match `search`?
    Count { scope: ListScope, search: String },
    /// The rows of `scope` that match `search`, in `order`, page `page` of
    /// pages of `size` rows.
    Page { scope: ListScope, search: String, order: String, size: i64, page: i64 },
    FoodBySlug { slug: String },
    ExerciseById { id: u128 },
    WorkoutById { id: u128 },
    UserByUsername { username: String },
    /// Point the exercise at another movement.
    UpdateExercise { exercise_id: u128, workout_id: u128, movement_id: u128, user_id: u128 },
    /// Record that `blocker_id` blocks `blocked_id`.
    CreateUserBlock { blocker_id: u128, blocked_id: u128, status: BlockStatus },
    /// Set the status of the block that `blocker` holds on `blocked`.
    UpdateUserBlock { blocker: String, blocked: String, status: BlockStatus },
}

impl Request {
    /// Whether performing the request can change what is stored.
    pub open spec fn is_write_spec(self) -> bool {
        self is UpdateExercise || self is CreateUserBlock || self is UpdateUserBlock
    }

    /// Whether performing the request can change what is stored.
    pub fn is_write(&self) -> (write: bool)
        ensures
            write == self.is_write_spec(),
    {
        match self {
            Request::UpdateExercise { .. } => true,
            Request::CreateUserBlock { .. } => true,
            Request::UpdateUserBlock { .. } => true,
            _ => false,
        }
    }
}

/// What a flow wants after a step.
#[derive(Debug, PartialEq, Eq)]
pub enum Step<R> {
    /// Perform this request and come back with its reply.
    Ask(Request),
    /// The flow has ended with this outcome.
    Done(Result<R, Error>),
    /// The reply was not the one awaited, or the flow had ended: nothing
    /// changes and nothing is to be done.
    Idle,
}

/// The mathematical value of a [`Step`].
pub ghost enum StepView<R> {
    Ask(Request),
    Done(Result<R, ErrorView>),
    Idle,
}

impl<R> View for Step<R> {
    type V = StepView<R>;

    open spec fn view(&self) -> StepView<R> {
        match *self {
            Step::Ask(request) => StepView::Ask(request),
            Step::Done(Ok(value)) => StepView::Done(Ok(value)),
            Step::Done(Err(error)) => StepView::Done(Err(error@)),
            Step::Idle => StepView::Idle,
        }
    }
}

impl<R> StepView<R> {
    /// Whether the step asks the store to change something.
    pub open spec fn is_write(self) -> bool {
        self matches StepView::Ask(request) && request.is_write_spec()
    }
}

} // verus!
