//! Fetching one resource by its key.
//!
//! The store is asked once. An absent row is `NotFound`; a row that the
//! caller may not look at is `Forbidden`; otherwise the row is returned as
//! the store gave it.

use crate::error::{Error, ErrorView};
use crate::identity::RequestUser;
use crate::permission::may_view;
use crate::store::{Step, StepView};
use vstd::prelude::*;

verus! {

/// Where a fetch by key stands.
#[derive(Debug, Clone, PartialEq, Eq)]
pub enum DetailFlow {
    /// The row has been asked for, on behalf of `user`.
    Fetching { user: RequestUser },
    Finished,
}

/// What the caller gets for a row that the store looked up.
pub open spec fn detail_outcome_spec<T>(user: RequestUser, fetched: Option<T>) -> Result<T, Error> {
    match fetched {
        None => Err(Error::NotFound),
        Some(row) => if may_view(user) {
            Ok(row)
        } else {
            Err(Error::Forbidden)
        },
    }
}

/// How a fetch by key goes on when the store replies.
pub open spec fn detail_step_spec<T>(flow: DetailFlow, reply: Result<Option<T>, String>) -> (
    DetailFlow,
    StepView<T>,
) {
    match flow {
        DetailFlow::Fetching { user } => (
            DetailFlow::Finished,
            match reply {
                Ok(fetched) => match detail_outcome_spec(user, fetched) {
                    Ok(row) => StepView::Done(Ok(row)),
                    Err(error) => StepView::Done(Err(error@)),
                },
                Err(message) => StepView::Done(Err(ErrorView::Transport { message: message@ })),
            },
        ),
        DetailFlow::Finished => (flow, StepView::Idle),
    }
}

/// Decides what the caller gets for a row that the store looked up.
pub fn detail_outcome<T>(user: &RequestUser, fetched: Option<T>) -> (outcome: Result<T, Error>)
    ensures
        outcome == detail_outcome_spec(*user, fetched),
        fetched is None ==> outcome == Err::<T, Error>(Error::NotFound),
        fetched is Some && !user.is_active ==> outcome == Err::<T, Error>(Error::Forbidden),
        fetched is Some && user.is_active ==> outcome == Ok::<T, Error>(fetched->Some_0),
{
    match fetched {
        None => Err(Error::NotFound),
        Some(row) => if user.is_active {
            Ok(row)
        } else {
            Err(Error::Forbidden)
        },
    }
}

/// Takes the store's reply and ends the fetch.
pub fn detail_step<T>(flow: DetailFlow, reply: Result<Option<T>, String>) -> (out: (
    DetailFlow,
    Step<T>,
))
    ensures
        (out.0, out.1@) == detail_step_spec(flow, reply),
{
    match flow {
        DetailFlow::Fetching { user } => match reply {
            Ok(fetched) => (DetailFlow::Finished, Step::Done(detail_outcome(&user, fetched))),
            Err(message) => (DetailFlow::Finished, Step::Done(Err(Error::transport(message)))),
        },
        DetailFlow::Finished => (DetailFlow::Finished, Step::Idle),
    }
}

/// A fetch by key ends with its first reply, never writes, and gives
/// exactly one of four outcomes: the store's failure, `NotFound` for an
/// absent row, `Forbidden` for a row the caller may not see, and else the
/// row unchanged.
pub proof fn lemma_detail_outcomes<T>(user: RequestUser, reply: Result<Option<T>, String>)
    ensures
        ({
            let out = detail_step_spec(DetailFlow::Fetching { user }, reply);
            &&& out.0 == DetailFlow::Finished
            &&& !out.1.is_write()
            &&& match reply {
                Err(message) => out.1 == StepView::<T>::Done(
                    Err(ErrorView::Transport { message: message@ }),
                ),
                Ok(None) => out.1 == StepView::<T>::Done(Err(ErrorView::NotFound)),
                Ok(Some(row)) => if user.is_active {
                    out.1 == StepView::Done(Ok(row))
                } else {
                    out.1 == StepView::<T>::Done(Err(ErrorView::Forbidden))
                },
            }
        }),
{
}

} // verus!
