use fitness_core::detail::{detail_outcome, detail_step, DetailFlow};
use fitness_core::error::Error;
use fitness_core::food::{food_detail_page, get_food_detail, quantity_label, FoodQuery};
use fitness_core::identity::RequestUser;
use fitness_core::store::{Request, Step};
use fitness_core::view::ViewState;

fn user(is_active: bool) -> RequestUser {
    RequestUser { id: 1, username: "ann".to_string(), is_active, is_superuser: false }
}

fn oats() -> FoodQuery {
    FoodQuery {
        id: 0x11,
        slug: "rolled-oats".to_string(),
        name: "Rolled oats".to_string(),
        brand_name: "Mill".to_string(),
        brand_slug: "mill".to_string(),
        data_value: 100,
        data_measurement: "g".to_string(),
        created_at: 1_700_000_000,
        updated_at: Some(1_700_000_500),
        created_by_id: 9,
    }
}

#[test]
fn fetch_food_by_nonexistent_slug_is_not_found() {
    let (flow, request) = get_food_detail(user(true), "nonexistent-slug".to_string());
    assert_eq!(request, Request::FoodBySlug { slug: "nonexistent-slug".to_string() });
    assert!(!request.is_write());
    let (flow, step) = detail_step::<FoodQuery>(flow, Ok(None));
    assert_eq!(flow, DetailFlow::Finished);
    assert_eq!(step, Step::Done(Err(Error::NotFound)));
}

#[test]
fn fetch_food_present_and_viewable_returns_the_row() {
    let (flow, _) = get_food_detail(user(true), "rolled-oats".to_string());
    let (_, step) = detail_step(flow, Ok(Some(oats())));
    assert_eq!(step, Step::Done(Ok(oats())));
}

#[test]
fn fetch_food_by_suspended_account_is_forbidden() {
    let (flow, _) = get_food_detail(user(false), "rolled-oats".to_string());
    let (_, step) = detail_step(flow, Ok(Some(oats())));
    assert_eq!(step, Step::Done(Err(Error::Forbidden)));
}

#[test]
fn fetch_of_absent_food_by_suspended_account_is_not_found() {
    assert_eq!(detail_outcome::<FoodQuery>(&user(false), None), Err(Error::NotFound));
}

#[test]
fn fetch_food_store_failure_is_a_transport_error() {
    let (flow, _) = get_food_detail(user(true), "rolled-oats".to_string());
    let (_, step) = detail_step::<FoodQuery>(flow, Err("no route to host".to_string()));
    assert_eq!(
        step,
        Step::Done(Err(Error::Transport { message: "no route to host".to_string() }))
    );
}

#[test]
fn finished_fetch_ignores_replies() {
    let (flow, step) = detail_step(DetailFlow::Finished, Ok(Some(oats())));
    assert_eq!(flow, DetailFlow::Finished);
    assert_eq!(step, Step::Idle);
}

#[test]
fn food_can_view_follows_the_account() {
    assert_eq!(oats().can_view(&user(true)), Ok(()));
    assert_eq!(oats().can_view(&user(false)), Err(Error::Forbidden));
}

#[test]
fn food_detail_page_states() {
    assert_eq!(food_detail_page(None), ViewState::Loading);
    assert_eq!(
        food_detail_page(Some(Err(Error::NotFound))),
        ViewState::Error { message: "Not found".to_string() }
    );
    assert_eq!(
        food_detail_page(Some(Err(Error::Forbidden))),
        ViewState::Error { message: "Forbidden".to_string() }
    );
    assert_eq!(food_detail_page(Some(Ok(oats()))), ViewState::Populated { data: oats() });
}

#[test]
fn quantity_label_names_the_measurement() {
    assert_eq!(quantity_label("g"), "Quantity (g)");
    assert_eq!(quantity_label("ml"), "Quantity (ml)");
    assert_eq!(quantity_label(""), "Quantity ()");
}
