//! Paginated list queries.
//!
//! A list query asks the store twice: first how many rows match the
//! filter, then for one page of them. The answer carries both. A failure
//! of either call ends the query; nothing partial is returned.

use crate::error::{Error, ErrorView};
use crate::follower::FollowerStatus;
use crate::store::{Request, Step, StepView};
use crate::user_block::BlockStatus;
use vstd::prelude::*;

verus! {

/// Which rows a list ranges over, before the search text narrows them.
#[derive(Debug, Clone, PartialEq, Eq)]
pub enum ListScope {
    /// Every training plan.
    TrainingPlans,
    /// The followers of `username` whose request stands at `status`.
    FollowersOf { username: String, status: FollowerStatus },
    /// The blocks that `username` holds, with the given status.
    BlocksBy { username: String, status: BlockStatus },
}

impl ListScope {
    /// A copy of the scope.
    pub fn duplicate(&self) -> (copy: ListScope)
        ensures
            copy == *self,
    {
        match self {
            ListScope::TrainingPlans => ListScope::TrainingPlans,
            ListScope::FollowersOf { username, status } => ListScope::FollowersOf {
                username: username.clone(),
                status: *status,
            },
            ListScope::BlocksBy { username, status } => ListScope::BlocksBy {
                username: username.clone(),
                status: *status,
            },
        }
    }
}

/// What a list request carries: the search text, the sort token, and the
/// page wanted.
#[derive(Debug, Clone, PartialEq, Eq)]
pub struct ListQuery {
    pub search: String,
    pub order: String,
    pub size: i64,
    pub page: i64,
}

impl ListQuery {
    /// How many matching rows stand before the page asked for: the pages
    /// before it, each of `size` rows. There is none where page or size is
    /// below one, or where the number does not fit.
    pub open spec fn offset_spec(self) -> Option<i64> {
        if self.page >= 1 && self.size >= 1 && (self.page - 1) * self.size <= i64::MAX {
            Some(((self.page - 1) * self.size) as i64)
        } else {
            None
        }
    }

    /// How many matching rows stand before the page asked for.
    pub fn offset(&self) -> (skip: Option<i64>)
        ensures
            skip == self.offset_spec(),
    {
        if self.page < 1 || self.size < 1 {
            return None;
        }
        let before: i64 = self.page - 1;
        before.checked_mul(self.size)
    }

    /// A copy of the query.
    pub fn duplicate(&self) -> (copy: ListQuery)
        ensures
            copy == *self,
    {
        ListQuery {
            search: self.search.clone(),
            order: self.order.clone(),
            size: self.size,
            page: self.page,
        }
    }
}

/// The answer to a list request.
#[derive(Debug, Clone, PartialEq, Eq)]
pub struct ListResponse<T> {
    /// How many rows match the filter, on all pages together.
    pub count: i64,
    /// The rows of the page asked for.
    pub results: Vec<T>,
}

/// Where a list query stands.
#[derive(Debug, Clone, PartialEq, Eq)]
pub enum ListFlow {
    /// The count has been asked for.
    Counting { scope: ListScope, query: ListQuery },
    /// The count is known and the page has been asked for.
    Paging { count: i64 },
    Finished,
}

/// A reply of the store to a list query. A failed call carries the
/// store's message.
#[derive(Debug, PartialEq, Eq)]
pub enum ListReply<T> {
    Counted(Result<i64, String>),
    Rows(Result<Vec<T>, String>),
}

/// How a list query begins: by asking for the count. The request names the
/// scope and the search text, and neither page nor size.
pub open spec fn list_start_spec(scope: ListScope, query: ListQuery) -> (ListFlow, Request) {
    (ListFlow::Counting { scope, query }, Request::Count { scope, search: query.search })
}

/// How a list query goes on when a reply arrives.
pub open spec fn list_step_spec<T>(flow: ListFlow, reply: ListReply<T>) -> (
    ListFlow,
    StepView<ListResponse<T>>,
) {
    match (flow, reply) {
        (ListFlow::Counting { scope, query }, ListReply::Counted(Ok(count))) => (
            ListFlow::Paging { count },
            StepView::Ask(
                Request::Page {
                    scope,
                    search: query.search,
                    order: query.order,
                    size: query.size,
                    page: query.page,
                },
            ),
        ),
        (ListFlow::Counting { .. }, ListReply::Counted(Err(message))) => (
            ListFlow::Finished,
            StepView::Done(Err(ErrorView::Transport { message: message@ })),
        ),
        (ListFlow::Paging { count }, ListReply::Rows(Ok(rows))) => (
            ListFlow::Finished,
            StepView::Done(Ok(ListResponse { count, results: rows })),
        ),
        (ListFlow::Paging { .. }, ListReply::Rows(Err(message))) => (
            ListFlow::Finished,
            StepView::Done(Err(ErrorView::Transport { message: message@ })),
        ),
        _ => (flow, StepView::Idle),
    }
}

/// Begins a list query over `scope`.
pub fn list_start(scope: ListScope, query: ListQuery) -> (out: (ListFlow, Request))
    ensures
        out == list_start_spec(scope, query),
{
    let request = Request::Count { scope: scope.duplicate(), search: query.search.clone() };
    (ListFlow::Counting { scope, query }, request)
}

/// Takes a reply of the store and says what the query does next.
pub fn list_step<T>(flow: ListFlow, reply: ListReply<T>) -> (out: (
    ListFlow,
    Step<ListResponse<T>>,
))
    ensures
        (out.0, out.1@) == list_step_spec(flow, reply),
{
    match flow {
        ListFlow::Counting { scope, query } => match reply {
            ListReply::Counted(Ok(count)) => {
                let request = Request::Page {
                    scope,
                    search: query.search,
                    order: query.order,
                    size: query.size,
                    page: query.page,
                };
                (ListFlow::Paging { count }, Step::Ask(request))
            },
            ListReply::Counted(Err(message)) => (
                ListFlow::Finished,
                Step::Done(Err(Error::transport(message))),
            ),
            ListReply::Rows(_) => (ListFlow::Counting { scope, query }, Step::Idle),
        },
        ListFlow::Paging { count } => match reply {
            ListReply::Rows(Ok(rows)) => (
                ListFlow::Finished,
                Step::Done(Ok(ListResponse { count, results: rows })),
            ),
            ListReply::Rows(Err(message)) => (
                ListFlow::Finished,
                Step::Done(Err(Error::transport(message))),
            ),
            ListReply::Counted(_) => (ListFlow::Paging { count }, Step::Idle),
        },
        ListFlow::Finished => (ListFlow::Finished, Step::Idle),
    }
}

/// What a list query ends in when the store answers the count with
/// `counted` and the page with `rows`.
pub open spec fn list_outcome_spec<T>(
    scope: ListScope,
    query: ListQuery,
    counted: Result<i64, String>,
    rows: Result<Vec<T>, String>,
) -> StepView<ListResponse<T>> {
    let counting = list_start_spec(scope, query).0;
    let after_count = list_step_spec::<T>(counting, ListReply::Counted(counted));
    if after_count.1 is Ask {
        list_step_spec::<T>(after_count.0, ListReply::Rows(rows)).1
    } else {
        after_count.1
    }
}

/// The count request of a list query depends on the scope and the search
/// text alone: two queries that differ in order, page or size ask the same
/// count of the store.
pub proof fn lemma_count_request_ignores_paging(scope: ListScope, a: ListQuery, b: ListQuery)
    requires
        a.search == b.search,
    ensures
        list_start_spec(scope, a).1 == list_start_spec(scope, b).1,
        list_start_spec(scope, a).1 == (Request::Count { scope, search: a.search }),
        !list_start_spec(scope, a).1.is_write_spec(),
{
}

/// The count of a list response is the number of rows of the store that
/// match the filter, and so is the same for two queries with the same
/// search text, whatever order, page and size each asks for and whatever
/// rows each page holds. Here `table` is what the store holds in the scope,
/// `matches` is its filter for the search text, and `counted` is what a
/// store that counts faithfully replies.
pub proof fn lemma_count_is_number_of_matching_rows<T>(
    table: Seq<T>,
    matches: spec_fn(T) -> bool,
    scope: ListScope,
    a: ListQuery,
    b: ListQuery,
    counted: i64,
    rows_a: Vec<T>,
    rows_b: Vec<T>,
)
    requires
        a.search == b.search,
        counted == table.filter(matches).len(),
    ensures
        list_outcome_spec(scope, a, Ok(counted), Ok(rows_a)) == StepView::Done(
            Ok(ListResponse { count: counted, results: rows_a }),
        ),
        list_outcome_spec(scope, b, Ok(counted), Ok(rows_b)) == StepView::Done(
            Ok(ListResponse { count: counted, results: rows_b }),
        ),
        list_outcome_spec(scope, a, Ok(counted), Ok(rows_a)) matches StepView::Done(Ok(first))
            && list_outcome_spec(scope, b, Ok(counted), Ok(rows_b)) matches StepView::Done(
            Ok(second),
        ) && first.count == second.count && first.count == table.filter(matches).len(),
{
}

/// A list query returns nothing partial: when the count fails the page is
/// never asked for, and when either call fails the outcome is that
/// failure, as a transport error with the store's message.
pub proof fn lemma_list_failure_is_whole<T>(
    scope: ListScope,
    query: ListQuery,
    counted: Result<i64, String>,
    rows: Result<Vec<T>, String>,
)
    ensures
        counted matches Err(message) ==> {
            let after_count = list_step_spec::<T>(
                list_start_spec(scope, query).0,
                ListReply::Counted(counted),
            );
            &&& after_count.0 == ListFlow::Finished
            &&& after_count.1 == StepView::<ListResponse<T>>::Done(
                Err(ErrorView::Transport { message: message@ }),
            )
        },
        (counted is Ok && rows is Err) ==> list_outcome_spec(scope, query, counted, rows)
            == StepView::<ListResponse<T>>::Done(
            Err(ErrorView::Transport { message: rows->Err_0@ }),
        ),
        counted is Err ==> list_outcome_spec(scope, query, counted, rows) == StepView::<
            ListResponse<T>,
        >::Done(Err(ErrorView::Transport { message: counted->Err_0@ })),
{
}

/// A list query never asks the store to change anything, and once it has
/// finished it stays finished.
pub proof fn lemma_list_never_writes<T>(flow: ListFlow, reply: ListReply<T>)
    ensures
        !list_step_spec(flow, reply).1.is_write(),
        flow is Finished ==> list_step_spec(flow, reply) == (
            ListFlow::Finished,
            StepView::<ListResponse<T>>::Idle,
        ),
{
}

} // verus!
