//! The state of an action that a form is bound to.
//!
//! An action counts how often it has completed; pages that list what the
//! action changes watch that count and ask again when it moves. A form
//! shows the failure of the latest completed submission: beside an input
//! where the failure names that input, and in the banner of the form
//! otherwise.

use crate::error::Error;
use crate::view::ListKey;
use vstd::prelude::*;
use vstd::string::*;

verus! {

/// An action and what became of its submissions.
#[derive(Debug, PartialEq, Eq)]
pub struct ActionState {
    /// How often a submission has completed.
    pub version: usize,
    /// Whether a submission is under way.
    pub pending: bool,
    /// The outcome of the latest completed submission.
    pub last: Option<Result<(), Error>>,
}

/// The message to show beside the input called `field`.
pub open spec fn field_error_spec(last: Option<Result<(), Error>>, field: Seq<char>) -> Option<
    Seq<char>,
> {
    match last {
        Some(Err(Error::Validation { field: named, message })) => if named@ == field {
            Some(message@)
        } else {
            None
        },
        _ => None,
    }
}

/// The message to show in the banner of the form.
pub open spec fn non_field_error_spec(last: Option<Result<(), Error>>) -> Option<Seq<char>> {
    match last {
        Some(Err(error)) => if error is Validation {
            None
        } else {
            Some(error@.message())
        },
        _ => None,
    }
}

impl ActionState {
    /// An action that was never submitted.
    pub fn new() -> (action: ActionState)
        ensures
            action == (ActionState { version: 0, pending: false, last: None }),
    {
        ActionState { version: 0, pending: false, last: None }
    }

    /// A submission begins.
    pub fn dispatch(&mut self)
        ensures
            final(self).pending,
            final(self).version == old(self).version,
            final(self).last == old(self).last,
    {
        self.pending = true;
    }

    /// The submission under way completes with `outcome`.
    pub fn settle(&mut self, outcome: Result<(), Error>)
        requires
            old(self).version < usize::MAX,
        ensures
            !final(self).pending,
            final(self).version == old(self).version + 1,
            final(self).last == Some(outcome),
    {
        self.pending = false;
        self.version = self.version + 1;
        self.last = Some(outcome);
    }

    /// The submission under way completes with `outcome`, unless the count
    /// of completions has reached what the machine can hold; then nothing
    /// changes and `false` is returned.
    pub fn try_settle(&mut self, outcome: Result<(), Error>) -> (settled: bool)
        ensures
            settled == (old(self).version < usize::MAX),
            settled ==> {
                &&& !final(self).pending
                &&& final(self).version == old(self).version + 1
                &&& final(self).last == Some(outcome)
            },
            !settled ==> *final(self) == *old(self),
    {
        if self.version < usize::MAX {
            self.settle(outcome);
            true
        } else {
            false
        }
    }

    /// The message to show beside the input called `field`: that of the
    /// latest failure, if it names this input.
    pub fn field_error(&self, field: &str) -> (message: Option<String>)
        ensures
            match message {
                Some(text) => field_error_spec(self.last, field@) == Some(text@),
                None => field_error_spec(self.last, field@) is None,
            },
    {
        match &self.last {
            Some(Err(Error::Validation { field: named, message })) => {
                let wanted = String::from_str(field);
                if *named == wanted {
                    Some(message.clone())
                } else {
                    None
                }
            },
            _ => None,
        }
    }

    /// The message to show in the banner of the form: that of the latest
    /// failure, unless it names an input.
    pub fn non_field_error(&self) -> (message: Option<String>)
        ensures
            match message {
                Some(text) => non_field_error_spec(self.last) == Some(text@),
                None => non_field_error_spec(self.last) is None,
            },
    {
        match &self.last {
            Some(Err(error)) => match error {
                Error::Validation { .. } => None,
                _ => Some(error.message()),
            },
            _ => None,
        }
    }
}

/// A failure shows in exactly one place: beside one input if it names an
/// input, in the banner if not. A success and an action never submitted
/// show nothing.
pub proof fn lemma_failure_shows_once(last: Option<Result<(), Error>>, field: Seq<char>)
    ensures
        !(field_error_spec(last, field) is Some && non_field_error_spec(last) is Some),
        last matches Some(Err(error)) ==> (non_field_error_spec(last) is Some <==> !(error
            is Validation)),
        last matches Some(Err(Error::Validation { field: named, message })) ==> (field_error_spec(
            last,
            named@,
        ) == Some(message@)),
        !(last matches Some(Err(_))) ==> field_error_spec(last, field) is None
            && non_field_error_spec(last) is None,
{
}

/// The completion of an action changes the key of every list page that
/// watches the action, so the page asks again.
pub proof fn lemma_completion_changes_key(key: ListKey, watched_first: bool)
    requires
        key.first_version < usize::MAX,
        key.second_version < usize::MAX,
    ensures
        !key.same_spec(
            if watched_first {
                ListKey { first_version: (key.first_version + 1) as usize, ..key }
            } else {
                ListKey { second_version: (key.second_version + 1) as usize, ..key }
            },
        ),
{
}

} // verus!
