//! Foods and their detail page.

use crate::detail::DetailFlow;
use crate::error::Error;
use crate::identity::RequestUser;
use crate::permission::{authorize_view, may_view, verdict};
use crate::store::Request;
use crate::view::{detail_view, detail_view_spec, Loaded, ViewState};
use vstd::prelude::*;
use vstd::string::*;

verus! {

/// A food as the detail page shows it, with its brand joined in.
#[derive(Debug, Clone, PartialEq, Eq)]
pub struct FoodQuery {
    pub id: u128,
    pub slug: String,
    pub name: String,
    pub brand_name: String,
    pub brand_slug: String,
    /// The amount the nutrition values refer to, in `data_measurement`.
    pub data_value: i32,
    /// The unit of `data_value`, such as `g` or `ml`.
    pub data_measurement: String,
    /// Seconds since the epoch.
    pub created_at: i64,
    pub updated_at: Option<i64>,
    pub created_by_id: u128,
}

impl FoodQuery {
    /// Any active account may look at a food.
    pub fn can_view(&self, user: &RequestUser) -> (outcome: Result<(), Error>)
        ensures
            outcome == verdict(may_view(*user)),
    {
        authorize_view(user)
    }
}

/// Begins the fetch of the food with the given slug, on behalf of `user`.
/// The reply goes to [`crate::detail::detail_step`].
pub fn get_food_detail(user: RequestUser, slug: String) -> (out: (DetailFlow, Request))
    ensures
        out == (DetailFlow::Fetching { user }, Request::FoodBySlug { slug }),
{
    (DetailFlow::Fetching { user }, Request::FoodBySlug { slug })
}

/// The label of the quantity input of a food: `Quantity (g)` for a food
/// measured in `g`.
pub fn quantity_label(data_measurement: &str) -> (label: String)
    ensures
        label@ == "Quantity ("@ + data_measurement@ + ")"@,
{
    let mut label = String::from_str("Quantity (");
    label.append(data_measurement);
    label.append(")");
    label
}

/// Decides what the detail page of a food shows.
pub fn food_detail_page(loaded: Loaded<FoodQuery>) -> (state: ViewState<FoodQuery>)
    ensures
        state@ == detail_view_spec(loaded),
{
    detail_view(loaded)
}

} // verus!
