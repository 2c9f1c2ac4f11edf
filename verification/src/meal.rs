//! Meals and who may touch them.

use crate::error::Error;
use crate::identity::RequestUser;
use crate::permission::{authorize_modify, authorize_view, may_modify, may_view, verdict};
use vstd::prelude::*;

verus! {

/// A meal as it is stored.
#[derive(Debug, Clone, PartialEq, Eq)]
pub struct Meal {
    pub id: u128,
    /// The owner.
    pub user_id: u128,
    pub name: String,
    /// Seconds since the epoch.
    pub created_at: i64,
    pub updated_at: Option<i64>,
}

/// A meal as a query returns it, with its owner's name joined in.
#[derive(Debug, Clone, PartialEq, Eq)]
pub struct MealQuery {
    pub id: u128,
    pub user_id: u128,
    pub username: String,
    pub name: String,
    pub created_at: i64,
    pub updated_at: Option<i64>,
}

impl Meal {
    /// Any active account may look at a meal.
    pub fn can_view(&self, user: &RequestUser) -> (outcome: Result<(), Error>)
        ensures
            outcome == verdict(may_view(*user)),
    {
        authorize_view(user)
    }

    /// Any active account may create a meal.
    pub fn can_create(user: &RequestUser) -> (outcome: Result<(), Error>)
        ensures
            outcome == verdict(may_view(*user)),
    {
        authorize_view(user)
    }

    /// Only the owner and superusers may change a meal.
    pub fn can_update(&self, request_user: &RequestUser) -> (outcome: Result<(), Error>)
        ensures
            outcome == verdict(may_modify(self.user_id, *request_user)),
    {
        authorize_modify(self.user_id, request_user)
    }

    /// Only the owner and superusers may delete a meal.
    pub fn can_delete(&self, request_user: &RequestUser) -> (outcome: Result<(), Error>)
        ensures
            outcome == verdict(may_modify(self.user_id, *request_user)),
    {
        authorize_modify(self.user_id, request_user)
    }
}

impl MealQuery {
    /// Any active account may look at a meal.
    pub fn can_view(&self, user: &RequestUser) -> (outcome: Result<(), Error>)
        ensures
            outcome == verdict(may_view(*user)),
    {
        authorize_view(user)
    }
}

} // verus!
