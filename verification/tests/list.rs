use fitness_core::error::Error;
use fitness_core::follower::{get_request_user_follower_list, Follower, FollowerStatus};
use fitness_core::identity::RequestUser;
use fitness_core::list::{
    list_start, list_step, ListFlow, ListQuery, ListReply, ListResponse, ListScope,
};
use fitness_core::store::{Request, Step};
use fitness_core::training_plan::{get_training_plan_list, TrainingPlanQuery};
use fitness_core::user_block::{get_user_block_list, BlockStatus, UserBlock};

fn ann() -> RequestUser {
    RequestUser { id: 1, username: "ann".to_string(), is_active: true, is_superuser: false }
}

fn plan(id: u128, name: &str) -> TrainingPlanQuery {
    TrainingPlanQuery {
        id,
        name: name.to_string(),
        slug: name.replace(' ', "-"),
        workout_count: 3,
        exercise_count: 12,
        set_count: 36,
        rep_count: 360,
        duration_weeks: 8,
        created_at: 1_700_000_000,
        updated_at: None,
    }
}

/// A store of training plans held in memory, which answers the two
/// requests of a list query the way a database would.
fn answer(store: &[TrainingPlanQuery], request: &Request) -> ListReply<TrainingPlanQuery> {
    match request {
        Request::Count { scope: ListScope::TrainingPlans, search } => {
            let n = store.iter().filter(|row| row.name.contains(search.as_str())).count();
            ListReply::Counted(Ok(n as i64))
        }
        Request::Page { scope: ListScope::TrainingPlans, search, size, page, .. } => {
            let rows: Vec<TrainingPlanQuery> = store
                .iter()
                .filter(|row| row.name.contains(search.as_str()))
                .skip(((page - 1) * size) as usize)
                .take(*size as usize)
                .cloned()
                .collect();
            ListReply::Rows(Ok(rows))
        }
        other => panic!("a list query asked {:?}", other),
    }
}

fn run(
    store: &[TrainingPlanQuery],
    search: &str,
    page: i64,
    size: i64,
) -> Result<ListResponse<TrainingPlanQuery>, Error> {
    let (mut flow, first) =
        get_training_plan_list(&ann(), search.to_string(), "name".to_string(), size, page);
    let mut request = first;
    for _ in 0..4 {
        assert!(!request.is_write());
        let (next, step) = list_step(flow, answer(store, &request));
        flow = next;
        match step {
            Step::Ask(asked) => request = asked,
            Step::Done(outcome) => {
                assert_eq!(flow, ListFlow::Finished);
                return outcome;
            }
            Step::Idle => panic!("the query ignored a reply it had asked for"),
        }
    }
    panic!("the query did not end");
}

#[test]
fn list_training_plans_leg_day_three_rows() {
    let store = vec![
        plan(1, "leg day basics"),
        plan(2, "upper body"),
        plan(3, "heavy leg day"),
        plan(4, "leg day for runners"),
        plan(5, "rest"),
    ];
    let response = run(&store, "leg day", 1, 20).unwrap();
    assert_eq!(response.count, 3);
    assert_eq!(
        response.results,
        vec![plan(1, "leg day basics"), plan(3, "heavy leg day"), plan(4, "leg day for runners")]
    );
}

#[test]
fn list_count_does_not_depend_on_page_or_size() {
    let store = vec![
        plan(1, "leg day basics"),
        plan(2, "upper body"),
        plan(3, "heavy leg day"),
        plan(4, "leg day for runners"),
    ];
    let first = run(&store, "leg day", 1, 2).unwrap();
    let second = run(&store, "leg day", 2, 2).unwrap();
    let beyond = run(&store, "leg day", 7, 50).unwrap();
    assert_eq!(first.count, 3);
    assert_eq!(second.count, 3);
    assert_eq!(beyond.count, 3);
    assert_eq!(first.results.len(), 2);
    assert_eq!(second.results, vec![plan(4, "leg day for runners")]);
    assert!(beyond.results.is_empty());
}

#[test]
fn list_with_no_match_has_zero_count() {
    let store = vec![plan(2, "upper body")];
    let response = run(&store, "leg day", 1, 20).unwrap();
    assert_eq!(response, ListResponse { count: 0, results: vec![] });
}

#[test]
fn list_asks_count_then_page() {
    let (flow, first) =
        get_training_plan_list(&ann(), "leg day".to_string(), "-created_at".to_string(), 20, 1);
    assert_eq!(
        first,
        Request::Count { scope: ListScope::TrainingPlans, search: "leg day".to_string() }
    );
    let (flow, step) = list_step::<TrainingPlanQuery>(flow, ListReply::Counted(Ok(3)));
    assert_eq!(flow, ListFlow::Paging { count: 3 });
    assert_eq!(
        step,
        Step::Ask(Request::Page {
            scope: ListScope::TrainingPlans,
            search: "leg day".to_string(),
            order: "-created_at".to_string(),
            size: 20,
            page: 1,
        })
    );
}

#[test]
fn list_count_failure_ends_the_query_without_asking_for_rows() {
    let (flow, _) = get_training_plan_list(&ann(), String::new(), String::new(), 20, 1);
    let (flow, step) =
        list_step::<TrainingPlanQuery>(flow, ListReply::Counted(Err("pool timed out".into())));
    assert_eq!(flow, ListFlow::Finished);
    assert_eq!(step, Step::Done(Err(Error::Transport { message: "pool timed out".to_string() })));
}

#[test]
fn list_page_failure_returns_nothing_partial() {
    let (flow, _) = get_training_plan_list(&ann(), String::new(), String::new(), 20, 1);
    let (flow, _) = list_step::<TrainingPlanQuery>(flow, ListReply::Counted(Ok(9)));
    let (flow, step) =
        list_step::<TrainingPlanQuery>(flow, ListReply::Rows(Err("connection reset".into())));
    assert_eq!(flow, ListFlow::Finished);
    assert_eq!(
        step,
        Step::Done(Err(Error::Transport { message: "connection reset".to_string() }))
    );
}

#[test]
fn list_ignores_a_reply_it_did_not_await() {
    let (flow, _) = get_training_plan_list(&ann(), String::new(), String::new(), 20, 1);
    let before = flow.clone();
    let (flow, step) = list_step(flow, ListReply::Rows(Ok(vec![plan(1, "a")])));
    assert_eq!(flow, before);
    assert_eq!(step, Step::Idle);
    let (flow, _) = list_step::<TrainingPlanQuery>(flow, ListReply::Counted(Ok(1)));
    let (flow, step) = list_step::<TrainingPlanQuery>(flow, ListReply::Counted(Ok(5)));
    assert_eq!(flow, ListFlow::Paging { count: 1 });
    assert_eq!(step, Step::Idle);
}

#[test]
fn finished_list_stays_finished() {
    let (flow, step) =
        list_step::<TrainingPlanQuery>(ListFlow::Finished, ListReply::Counted(Ok(5)));
    assert_eq!(flow, ListFlow::Finished);
    assert_eq!(step, Step::Idle);
}

#[test]
fn follower_list_is_scoped_to_the_caller_and_accepted() {
    let (flow, first) = get_request_user_follower_list(
        &ann(),
        "bo".to_string(),
        "follower".to_string(),
        10,
        2,
    );
    let scope =
        ListScope::FollowersOf { username: "ann".to_string(), status: FollowerStatus::Accepted };
    assert_eq!(first, Request::Count { scope: scope.clone(), search: "bo".to_string() });
    let (flow, step) = list_step::<Follower>(flow, ListReply::Counted(Ok(1)));
    assert_eq!(
        step,
        Step::Ask(Request::Page {
            scope,
            search: "bo".to_string(),
            order: "follower".to_string(),
            size: 10,
            page: 2,
        })
    );
    let row = Follower {
        id: 7,
        username: "ann".to_string(),
        follower: "bob".to_string(),
        status: FollowerStatus::Accepted,
        created_at: 5,
    };
    let (_, step) = list_step(flow, ListReply::Rows(Ok(vec![row.clone()])));
    assert_eq!(step, Step::Done(Ok(ListResponse { count: 1, results: vec![row] })));
}

#[test]
fn block_list_is_scoped_to_the_caller_and_blocks_in_force() {
    let (flow, first) =
        get_user_block_list(&ann(), String::new(), String::new(), 20, 1);
    let scope = ListScope::BlocksBy { username: "ann".to_string(), status: BlockStatus::Active };
    assert_eq!(first, Request::Count { scope: scope.clone(), search: String::new() });
    let (flow, _) = list_step::<UserBlock>(flow, ListReply::Counted(Ok(0)));
    let (_, step) = list_step::<UserBlock>(flow, ListReply::Rows(Ok(vec![])));
    assert_eq!(step, Step::Done(Ok(ListResponse { count: 0, results: vec![] })));
}

#[test]
fn block_status_codes() {
    assert_eq!(BlockStatus::Active.code(), 1);
    assert_eq!(BlockStatus::Unblocked.code(), 0);
}

#[test]
fn list_start_keeps_scope_and_query() {
    let query = ListQuery { search: "x".to_string(), order: "y".to_string(), size: 5, page: 3 };
    let (flow, first) = list_start(ListScope::TrainingPlans, query.clone());
    assert_eq!(flow, ListFlow::Counting { scope: ListScope::TrainingPlans, query });
    assert_eq!(first, Request::Count { scope: ListScope::TrainingPlans, search: "x".to_string() });
    assert_eq!(ListScope::TrainingPlans.duplicate(), ListScope::TrainingPlans);
}

#[test]
fn offset_counts_the_rows_of_earlier_pages() {
    let query = |page: i64, size: i64| ListQuery {
        search: String::new(),
        order: String::new(),
        size,
        page,
    };
    assert_eq!(query(1, 20).offset(), Some(0));
    assert_eq!(query(2, 20).offset(), Some(20));
    assert_eq!(query(7, 50).offset(), Some(300));
    assert_eq!(query(i64::MAX, 1).offset(), Some(i64::MAX - 1));
    assert_eq!(query(i64::MAX, 2).offset(), None);
    assert_eq!(query(0, 20).offset(), None);
    assert_eq!(query(-1, 20).offset(), None);
    assert_eq!(query(1, 0).offset(), None);
    assert_eq!(query(1, -5).offset(), None);
    assert_eq!(query(3, 5).duplicate(), query(3, 5));
}
