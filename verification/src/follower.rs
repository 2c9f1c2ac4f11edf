//! Followers: who follows whom, and the list of a user's followers.

use crate::identity::RequestUser;
use crate::list::{list_start, list_start_spec, ListFlow, ListQuery, ListResponse, ListScope};
use crate::store::Request;
use crate::view::{list_view, list_view_spec, EmptyRule, Loaded, ViewState};
use vstd::prelude::*;

verus! {

/// Where a request to follow stands.
#[derive(Debug, Clone, Copy, PartialEq, Eq, Structural)]
pub enum FollowerStatus {
    Pending,
    Accepted,
    Rejected,
}

/// One follower of a user.
#[derive(Debug, Clone, PartialEq, Eq)]
pub struct Follower {
    pub id: u128,
    /// The user who is followed.
    pub username: String,
    /// The user who follows.
    pub follower: String,
    pub status: FollowerStatus,
    /// Seconds since the epoch.
    pub created_at: i64,
}

/// Begins the list of the caller's own followers: the users whose request
/// to follow the caller has been accepted, narrowed by `search`.
pub fn get_request_user_follower_list(
    user: &RequestUser,
    search: String,
    order: String,
    size: i64,
    page: i64,
) -> (out: (ListFlow, Request))
    ensures
        out == list_start_spec(
            ListScope::FollowersOf { username: user.username, status: FollowerStatus::Accepted },
            ListQuery { search, order, size, page },
        ),
{
    let scope = ListScope::FollowersOf {
        username: user.username.clone(),
        status: FollowerStatus::Accepted,
    };
    list_start(scope, ListQuery { search, order, size, page })
}

/// Decides what the list of the caller's followers shows. The list is
/// empty where the page holds no rows.
pub fn current_user_follower_list(loaded: Loaded<ListResponse<Follower>>) -> (state: ViewState<
    ListResponse<Follower>,
>)
    ensures
        state@ == list_view_spec(loaded, EmptyRule::NoRows),
{
    list_view(loaded, EmptyRule::NoRows)
}

} // verus!
