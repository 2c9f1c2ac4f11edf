//! What a page shows for each state of its request.
//!
//! A page is `Loading` until its request settles. Then it shows the
//! failure's message, or a placeholder where there is nothing to show, or
//! the data. Whenever what the request depends on changes (a parameter of
//! the address, or the completion of an action on the same page) the page
//! asks again and is `Loading` once more.

use crate::error::Error;
use crate::list::{ListQuery, ListResponse};
use vstd::prelude::*;

verus! {

/// What a page shows.
#[derive(Debug, PartialEq, Eq)]
pub enum ViewState<T> {
    Loading,
    Error { message: String },
    Empty,
    Populated { data: T },
}

/// The mathematical value of a [`ViewState`].
pub ghost enum ViewStateView<T> {
    Loading,
    Error { message: Seq<char> },
    Empty,
    Populated { data: T },
}

impl<T> View for ViewState<T> {
    type V = ViewStateView<T>;

    open spec fn view(&self) -> ViewStateView<T> {
        match *self {
            ViewState::Loading => ViewStateView::Loading,
            ViewState::Error { message } => ViewStateView::Error { message: message@ },
            ViewState::Empty => ViewStateView::Empty,
            ViewState::Populated { data } => ViewStateView::Populated { data },
        }
    }
}

/// How a list page tells that there is nothing to show.
#[derive(Debug, Clone, Copy, PartialEq, Eq, Structural)]
pub enum EmptyRule {
    /// The count of matching rows is zero.
    ZeroCount,
    /// The page of rows is empty.
    NoRows,
}

impl EmptyRule {
    /// Whether `response` has nothing to show under this rule.
    pub open spec fn holds<T>(self, response: ListResponse<T>) -> bool {
        match self {
            EmptyRule::ZeroCount => response.count == 0,
            EmptyRule::NoRows => response.results@.len() == 0,
        }
    }
}

/// What a request has come to: nothing yet, or its outcome.
pub type Loaded<T> = Option<Result<T, Error>>;

/// What a list page shows for the state of its request.
pub open spec fn list_view_spec<T>(loaded: Loaded<ListResponse<T>>, rule: EmptyRule) -> ViewStateView<
    ListResponse<T>,
> {
    match loaded {
        None => ViewStateView::Loading,
        Some(Err(error)) => ViewStateView::Error { message: error@.message() },
        Some(Ok(response)) => if rule.holds(response) {
            ViewStateView::Empty
        } else {
            ViewStateView::Populated { data: response }
        },
    }
}

/// What a detail page shows for the state of its request.
pub open spec fn detail_view_spec<T>(loaded: Loaded<T>) -> ViewStateView<T> {
    match loaded {
        None => ViewStateView::Loading,
        Some(Err(error)) => ViewStateView::Error { message: error@.message() },
        Some(Ok(data)) => ViewStateView::Populated { data },
    }
}

/// Decides what a list page shows.
pub fn list_view<T>(loaded: Loaded<ListResponse<T>>, rule: EmptyRule) -> (state: ViewState<
    ListResponse<T>,
>)
    ensures
        state@ == list_view_spec(loaded, rule),
{
    match loaded {
        None => ViewState::Loading,
        Some(Err(error)) => ViewState::Error { message: error.message() },
        Some(Ok(response)) => {
            let nothing = match rule {
                EmptyRule::ZeroCount => response.count == 0,
                EmptyRule::NoRows => response.results.len() == 0,
            };
            if nothing {
                ViewState::Empty
            } else {
                ViewState::Populated { data: response }
            }
        },
    }
}

/// Decides what a detail page shows.
pub fn detail_view<T>(loaded: Loaded<T>) -> (state: ViewState<T>)
    ensures
        state@ == detail_view_spec(loaded),
{
    match loaded {
        None => ViewState::Loading,
        Some(Err(error)) => ViewState::Error { message: error.message() },
        Some(Ok(data)) => ViewState::Populated { data },
    }
}

/// The count in the heading of a list: none while loading, the count of
/// the response once loaded, and zero where the request failed.
pub fn count_or_zero<T>(loaded: &Loaded<ListResponse<T>>) -> (count: Option<i64>)
    ensures
        count == match *loaded {
            None => None::<i64>,
            Some(Ok(response)) => Some(response.count),
            Some(Err(_)) => Some(0i64),
        },
{
    match loaded {
        None => None,
        Some(Ok(response)) => Some(response.count),
        Some(Err(_)) => Some(0),
    }
}

/// The count in the heading of a list: the count of the response once
/// loaded, and none while loading or where the request failed.
pub fn count_if_loaded<T>(loaded: &Loaded<ListResponse<T>>) -> (count: Option<i64>)
    ensures
        count == match *loaded {
            Some(Ok(response)) => Some(response.count),
            _ => None::<i64>,
        },
{
    match loaded {
        Some(Ok(response)) => Some(response.count),
        _ => None,
    }
}

/// What the request of a list page depends on: the parameters of the
/// address, and how often each of the two actions of the page has
/// completed.
#[derive(Debug, Clone, PartialEq, Eq)]
pub struct ListKey {
    pub query: ListQuery,
    /// How often the first action of the page has completed.
    pub first_version: usize,
    /// How often the second action of the page has completed.
    pub second_version: usize,
}

impl ListKey {
    /// Whether two keys stand for the same request.
    pub open spec fn same_spec(self, other: ListKey) -> bool {
        &&& self.query.search@ == other.query.search@
        &&& self.query.order@ == other.query.order@
        &&& self.query.size == other.query.size
        &&& self.query.page == other.query.page
        &&& self.first_version == other.first_version
        &&& self.second_version == other.second_version
    }

    /// Whether two keys stand for the same request.
    pub fn same(&self, other: &ListKey) -> (same: bool)
        ensures
            same == self.same_spec(*other),
    {
        self.query.search == other.query.search && self.query.order == other.query.order
            && self.query.size == other.query.size && self.query.page == other.query.page
            && self.first_version == other.first_version && self.second_version
            == other.second_version
    }
}

/// A list page: the key of its latest request, and what that request has
/// come to.
#[derive(Debug, PartialEq, Eq)]
pub struct ListPage<T> {
    pub key: ListKey,
    pub loaded: Loaded<ListResponse<T>>,
}

/// A page after its key was looked at again: a changed key makes the page
/// `Loading` under the new key, an unchanged key leaves it as it is.
pub open spec fn rekeyed_spec<T>(page: ListPage<T>, key: ListKey) -> ListPage<T> {
    if page.key.same_spec(key) {
        page
    } else {
        ListPage { key, loaded: None }
    }
}

/// A page after a reply arrived for the request with key `key`: the reply
/// settles the page if it answers the latest request, and is dropped if it
/// answers an earlier one.
pub open spec fn settled_spec<T>(
    page: ListPage<T>,
    key: ListKey,
    outcome: Result<ListResponse<T>, Error>,
) -> ListPage<T> {
    if page.key.same_spec(key) {
        ListPage { key: page.key, loaded: Some(outcome) }
    } else {
        page
    }
}

impl<T> ListPage<T> {
    /// Opens a page on `key`. The page is `Loading`, and the query returned
    /// is the one to send.
    pub fn open(key: ListKey) -> (out: (ListPage<T>, ListQuery))
        ensures
            out.0 == (ListPage::<T> { key, loaded: None }),
            out.1 == key.query,
    {
        let query = key.query.duplicate();
        (ListPage { key, loaded: None }, query)
    }

    /// Looks at the key again, after a parameter may have changed or an
    /// action may have completed. Where the key has changed the page is
    /// `Loading` again and the query to send is returned.
    pub fn rekey(self, key: ListKey) -> (out: (ListPage<T>, Option<ListQuery>))
        ensures
            out.0 == rekeyed_spec(self, key),
            out.1 == if self.key.same_spec(key) {
                None
            } else {
                Some(key.query)
            },
    {
        if self.key.same(&key) {
            (self, None)
        } else {
            let query = key.query.duplicate();
            (ListPage { key, loaded: None }, Some(query))
        }
    }

    /// Takes the reply to the request that was sent for `key`.
    pub fn settle(self, key: &ListKey, outcome: Result<ListResponse<T>, Error>) -> (page: ListPage<T>)
        ensures
            page == settled_spec(self, *key, outcome),
    {
        if self.key.same(key) {
            ListPage { key: self.key, loaded: Some(outcome) }
        } else {
            self
        }
    }

    /// What the page shows.
    pub fn state(self, rule: EmptyRule) -> (state: ViewState<ListResponse<T>>)
        ensures
            state@ == list_view_spec(self.loaded, rule),
    {
        list_view(self.loaded, rule)
    }
}

/// A change of any parameter, or of either action's count of completions,
/// makes the page `Loading` again, whatever it showed before.
pub proof fn lemma_changed_key_reloads<T>(page: ListPage<T>, key: ListKey, rule: EmptyRule)
    requires
        !page.key.same_spec(key),
    ensures
        list_view_spec(rekeyed_spec(page, key).loaded, rule) == ViewStateView::<
            ListResponse<T>,
        >::Loading,
        rekeyed_spec(page, key).key == key,
{
}

/// From `Loading` a page goes to exactly one of `Error`, `Empty` and
/// `Populated` when the reply to its latest request arrives, and a reply
/// to an earlier request changes nothing.
pub proof fn lemma_reply_settles_page<T>(
    page: ListPage<T>,
    key: ListKey,
    outcome: Result<ListResponse<T>, Error>,
    rule: EmptyRule,
)
    ensures
        page.key.same_spec(key) ==> {
            let shown = list_view_spec(settled_spec(page, key, outcome).loaded, rule);
            match outcome {
                Err(error) => shown == ViewStateView::<ListResponse<T>>::Error {
                    message: error@.message(),
                },
                Ok(response) => if rule.holds(response) {
                    shown == ViewStateView::<ListResponse<T>>::Empty
                } else {
                    shown == ViewStateView::Populated { data: response }
                },
            }
        },
        !page.key.same_spec(key) ==> settled_spec(page, key, outcome) == page,
{
}

} // verus!
