//! Training plans: their list, and the choice of one in a form.

use crate::ident::{id_text, id_text_spec};
use crate::identity::RequestUser;
use crate::list::{list_start, list_start_spec, ListFlow, ListQuery, ListResponse, ListScope};
use crate::store::Request;
use crate::view::{list_view, list_view_spec, EmptyRule, Loaded, ViewState, ViewStateView};
use std::collections::HashSet;
use vstd::prelude::*;

verus! {

/// A training plan as the list shows it, with the totals over its
/// workouts joined in.
#[derive(Debug, Clone, PartialEq, Eq)]
pub struct TrainingPlanQuery {
    pub id: u128,
    pub name: String,
    pub slug: String,
    pub workout_count: i64,
    pub exercise_count: i64,
    pub set_count: i64,
    pub rep_count: i64,
    pub duration_weeks: i32,
    /// Seconds since the epoch.
    pub created_at: i64,
    pub updated_at: Option<i64>,
}

/// Begins the list of training plans, narrowed by `search`. The caller
/// must be signed in; the list is the same for every caller.
pub fn get_training_plan_list(
    user: &RequestUser,
    search: String,
    order: String,
    size: i64,
    page: i64,
) -> (out: (ListFlow, Request))
    ensures
        out == list_start_spec(ListScope::TrainingPlans, ListQuery { search, order, size, page }),
{
    list_start(ListScope::TrainingPlans, ListQuery { search, order, size, page })
}

/// The identifiers of the given rows.
pub open spec fn row_ids(rows: Seq<TrainingPlanQuery>) -> Set<u128> {
    Set::new(|id: u128| exists|i: int| 0 <= i < rows.len() && #[trigger] rows[i].id == id)
}

/// Adds the identifiers of `rows` to `all_items`, the set of rows that the
/// page has shown and that "select all" ranges over.
pub fn register_rows(all_items: &mut HashSet<u128>, rows: &Vec<TrainingPlanQuery>)
    ensures
        final(all_items)@ == old(all_items)@.union(row_ids(rows@)),
{
    broadcast use vstd::std_specs::hash::group_hash_axioms;

    let mut at: usize = 0;
    assert(all_items@ =~= old(all_items)@.union(row_ids(rows@.take(0))));
    while at < rows.len()
        invariant
            at <= rows.len(),
            all_items@ == old(all_items)@.union(row_ids(rows@.take(at as int))),
        decreases rows.len() - at,
    {
        let id = rows[at].id;
        all_items.insert(id);
        proof {
            let before = rows@.take(at as int);
            let after = rows@.take(at + 1);
            assert(after[at as int].id == id);
            assert forall|other: u128| row_ids(after).contains(other) <==> (row_ids(
                before,
            ).contains(other) || other == id) by {
                if row_ids(after).contains(other) {
                    let i = choose|i: int| 0 <= i < after.len() && #[trigger] after[i].id == other;
                    if i < at {
                        assert(before[i].id == other);
                    }
                }
                if row_ids(before).contains(other) {
                    let i = choose|i: int| 0 <= i < before.len() && #[trigger] before[i].id == other;
                    assert(after[i].id == other);
                }
            }
            assert(all_items@ =~= old(all_items)@.union(row_ids(after)));
        }
        at += 1;
    }
    assert(rows@.take(at as int) =~= rows@);
}

/// Flips the checkbox of one row: a row that was checked is unchecked, and
/// one that was not is checked. No other row changes.
pub fn toggle_checked(checked_items: &mut HashSet<u128>, id: u128)
    ensures
        final(checked_items)@ == if old(checked_items)@.contains(id) {
            old(checked_items)@.remove(id)
        } else {
            old(checked_items)@.insert(id)
        },
{
    broadcast use vstd::std_specs::hash::group_hash_axioms;

    if checked_items.contains(&id) {
        checked_items.remove(&id);
    } else {
        checked_items.insert(id);
    }
}

/// Decides what the list of training plans shows, and notes the rows it
/// shows in `all_items`. The list is empty where the count is zero.
pub fn training_plan_list_page(
    loaded: Loaded<ListResponse<TrainingPlanQuery>>,
    all_items: &mut HashSet<u128>,
) -> (state: ViewState<ListResponse<TrainingPlanQuery>>)
    ensures
        state@ == list_view_spec(loaded, EmptyRule::ZeroCount),
        final(all_items)@ == match state@ {
            ViewStateView::Populated { data } => old(all_items)@.union(row_ids(data.results@)),
            _ => old(all_items)@,
        },
{
    let state = list_view(loaded, EmptyRule::ZeroCount);
    match &state {
        ViewState::Populated { data } => {
            register_rows(all_items, &data.results);
        },
        _ => {},
    }
    state
}

/// One choice of a select input: an identifier and the name shown for it.
#[derive(Debug, Clone, PartialEq, Eq)]
pub struct SelectUuidName {
    pub id: u128,
    pub name: String,
}

/// One `option` of a select input as it is rendered.
#[derive(Debug, Clone, PartialEq, Eq)]
pub struct SelectOption {
    /// The identifier in its text form.
    pub value: String,
    pub label: String,
    pub selected: bool,
}

/// Whether `rendered` is the option for `choice` in a select input whose
/// current value is `selected`.
pub open spec fn renders(rendered: SelectOption, choice: SelectUuidName, selected: u128) -> bool {
    &&& rendered.value@ == id_text_spec(choice.id)
    &&& rendered.label@ == choice.name@
    &&& rendered.selected == (choice.id == selected)
}

/// The options of the select input for a training plan: one for each
/// choice, in the order given, with the one marked whose identifier is
/// `selected`.
pub fn training_plan_select(options: &Vec<SelectUuidName>, selected: u128) -> (rendered: Vec<
    SelectOption,
>)
    ensures
        rendered@.len() == options@.len(),
        forall|i: int| 0 <= i < options@.len() ==> renders(#[trigger] rendered@[i], options@[i], selected),
{
    let mut rendered: Vec<SelectOption> = Vec::new();
    let mut at: usize = 0;
    while at < options.len()
        invariant
            at <= options.len(),
            rendered@.len() == at,
            forall|i: int| 0 <= i < at ==> renders(#[trigger] rendered@[i], options@[i], selected),
        decreases options.len() - at,
    {
        let choice = &options[at];
        rendered.push(
            SelectOption {
                value: id_text(choice.id),
                label: choice.name.clone(),
                selected: choice.id == selected,
            },
        );
        at += 1;
    }
    rendered
}

} // verus!
