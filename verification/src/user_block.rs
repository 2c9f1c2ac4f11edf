//! Blocking: the list of users a user has blocked, and the two commands
//! that block and unblock.

use crate::error::{Error, ErrorView};
use crate::identity::RequestUser;
use crate::permission::{targets_self, targets_self_spec};
use crate::list::{list_start, list_start_spec, ListFlow, ListQuery, ListResponse, ListScope};
use crate::store::{Request, Step, StepView};
use crate::view::{list_view, list_view_spec, EmptyRule, Loaded, ViewState};
use vstd::prelude::*;
use vstd::string::*;

verus! {

/// Whether a block is in force.
#[derive(Debug, Clone, Copy, PartialEq, Eq, Structural)]
pub enum BlockStatus {
    Unblocked,
    Active,
}

impl BlockStatus {
    /// The flag as it is stored: 1 for a block in force, 0 for one lifted.
    pub open spec fn code_spec(self) -> int {
        match self {
            BlockStatus::Unblocked => 0,
            BlockStatus::Active => 1,
        }
    }

    /// The flag as it is stored.
    pub fn code(self) -> (flag: i32)
        ensures
            flag == self.code_spec(),
    {
        match self {
            BlockStatus::Unblocked => 0,
            BlockStatus::Active => 1,
        }
    }
}

/// A user, as far as blocking needs to know one.
#[derive(Debug, Clone, PartialEq, Eq)]
pub struct User {
    pub id: u128,
    pub username: String,
}

/// One block: `blocker_username` has blocked `blocked_username`.
#[derive(Debug, Clone, PartialEq, Eq)]
pub struct UserBlock {
    pub id: u128,
    pub blocker_username: String,
    pub blocked_username: String,
    pub status: BlockStatus,
    /// Seconds since the epoch.
    pub blocked_at: i64,
}

/// Begins the list of the users the caller has blocked: the caller's
/// blocks that are in force, narrowed by `search`.
pub fn get_user_block_list(
    user: &RequestUser,
    search: String,
    order: String,
    size: i64,
    page: i64,
) -> (out: (ListFlow, Request))
    ensures
        out == list_start_spec(
            ListScope::BlocksBy { username: user.username, status: BlockStatus::Active },
            ListQuery { search, order, size, page },
        ),
{
    let scope = ListScope::BlocksBy { username: user.username.clone(), status: BlockStatus::Active };
    list_start(scope, ListQuery { search, order, size, page })
}

/// Which of the two commands a flow carries out.
#[derive(Debug, Clone, Copy, PartialEq, Eq, Structural)]
pub enum BlockCommand {
    /// Block the target.
    Create,
    /// Lift the block on the target.
    Update,
}

impl BlockCommand {
    /// What the caller is told who names themselves as the target.
    pub open spec fn self_target_message(self) -> Seq<char> {
        match self {
            BlockCommand::Create => "You cannot block yourself"@,
            BlockCommand::Update => "You cannot block/unblock yourself"@,
        }
    }

    /// What the caller is told when the write changed no row.
    pub open spec fn nothing_written_message(self) -> Seq<char> {
        match self {
            BlockCommand::Create => "Error creating user block"@,
            BlockCommand::Update => "Error updating user block"@,
        }
    }

    /// The write of the command, once the target is known. Blocking
    /// records a block in force between the two users; unblocking sets the
    /// caller's block on the target to lifted, whatever it was before.
    pub open spec fn write_spec(self, user: RequestUser, target: User) -> Request {
        match self {
            BlockCommand::Create => Request::CreateUserBlock {
                blocker_id: user.id,
                blocked_id: target.id,
                status: BlockStatus::Active,
            },
            BlockCommand::Update => Request::UpdateUserBlock {
                blocker: user.username,
                blocked: target.username,
                status: BlockStatus::Unblocked,
            },
        }
    }
}

/// Where a block or unblock command stands.
#[derive(Debug, Clone, PartialEq, Eq)]
pub enum UserBlockFlow {
    /// The target user has been asked for.
    FetchingTarget { user: RequestUser, command: BlockCommand },
    /// The target is known and the write has been asked for.
    Writing { command: BlockCommand },
    Finished,
}

/// A reply of the store to a block or unblock command. A failed call
/// carries the store's message; a write reports how many rows it changed.
#[derive(Debug, PartialEq, Eq)]
pub enum UserBlockReply {
    Target(Result<Option<User>, String>),
    Written(Result<u64, String>),
}

/// How a command begins. A caller who names themselves is turned away at
/// once, before the store is asked anything.
pub open spec fn user_block_start_spec(command: BlockCommand, user: RequestUser, username: String) -> (
    UserBlockFlow,
    StepView<()>,
) {
    if targets_self_spec(user, username@) {
        (
            UserBlockFlow::Finished,
            StepView::Done(Err(ErrorView::Application { message: command.self_target_message() })),
        )
    } else {
        (
            UserBlockFlow::FetchingTarget { user, command },
            StepView::Ask(Request::UserByUsername { username }),
        )
    }
}

/// How a command goes on when a reply arrives.
pub open spec fn user_block_step_spec(flow: UserBlockFlow, reply: UserBlockReply) -> (
    UserBlockFlow,
    StepView<()>,
) {
    match (flow, reply) {
        (UserBlockFlow::FetchingTarget { user, command }, UserBlockReply::Target(fetched)) => match fetched {
            Ok(Some(target)) => (
                UserBlockFlow::Writing { command },
                StepView::Ask(command.write_spec(user, target)),
            ),
            Ok(None) => (UserBlockFlow::Finished, StepView::Done(Err(ErrorView::NotFound))),
            Err(message) => (
                UserBlockFlow::Finished,
                StepView::Done(Err(ErrorView::Transport { message: message@ })),
            ),
        },
        (UserBlockFlow::Writing { command }, UserBlockReply::Written(written)) => (
            UserBlockFlow::Finished,
            match written {
                Ok(rows) => if rows == 0 {
                    StepView::Done(
                        Err(ErrorView::Application { message: command.nothing_written_message() }),
                    )
                } else {
                    StepView::Done(Ok(()))
                },
                Err(message) => StepView::Done(Err(ErrorView::Transport { message: message@ })),
            },
        ),
        _ => (flow, StepView::Idle),
    }
}

fn user_block_start(command: BlockCommand, user: RequestUser, username: String) -> (out: (
    UserBlockFlow,
    Step<()>,
))
    ensures
        (out.0, out.1@) == user_block_start_spec(command, user, username),
{
    if targets_self(&user, &username) {
        let refusal = match command {
            BlockCommand::Create => Error::application("You cannot block yourself"),
            BlockCommand::Update => Error::application("You cannot block/unblock yourself"),
        };
        (UserBlockFlow::Finished, Step::Done(Err(refusal)))
    } else {
        (
            UserBlockFlow::FetchingTarget { user, command },
            Step::Ask(Request::UserByUsername { username }),
        )
    }
}

/// Begins the command by which `user` blocks the user called `username`.
pub fn create_user_block(user: RequestUser, username: String) -> (out: (UserBlockFlow, Step<()>))
    ensures
        (out.0, out.1@) == user_block_start_spec(BlockCommand::Create, user, username),
{
    user_block_start(BlockCommand::Create, user, username)
}

/// Begins the command by which `user` lifts the block on the user called
/// `username`.
pub fn update_user_block(user: RequestUser, username: String) -> (out: (UserBlockFlow, Step<()>))
    ensures
        (out.0, out.1@) == user_block_start_spec(BlockCommand::Update, user, username),
{
    user_block_start(BlockCommand::Update, user, username)
}

/// Takes a reply of the store and says what the command does next.
pub fn user_block_step(flow: UserBlockFlow, reply: UserBlockReply) -> (out: (
    UserBlockFlow,
    Step<()>,
))
    ensures
        (out.0, out.1@) == user_block_step_spec(flow, reply),
{
    match flow {
        UserBlockFlow::FetchingTarget { user, command } => match reply {
            UserBlockReply::Target(Ok(Some(target))) => {
                let request = match command {
                    BlockCommand::Create => Request::CreateUserBlock {
                        blocker_id: user.id,
                        blocked_id: target.id,
                        status: BlockStatus::Active,
                    },
                    BlockCommand::Update => Request::UpdateUserBlock {
                        blocker: user.username,
                        blocked: target.username,
                        status: BlockStatus::Unblocked,
                    },
                };
                (UserBlockFlow::Writing { command }, Step::Ask(request))
            },
            UserBlockReply::Target(Ok(None)) => (
                UserBlockFlow::Finished,
                Step::Done(Err(Error::NotFound)),
            ),
            UserBlockReply::Target(Err(message)) => (
                UserBlockFlow::Finished,
                Step::Done(Err(Error::transport(message))),
            ),
            UserBlockReply::Written(_) => (
                UserBlockFlow::FetchingTarget { user, command },
                Step::Idle,
            ),
        },
        UserBlockFlow::Writing { command } => match reply {
            UserBlockReply::Written(Ok(rows)) => if rows == 0 {
                let failure = match command {
                    BlockCommand::Create => Error::application("Error creating user block"),
                    BlockCommand::Update => Error::application("Error updating user block"),
                };
                (UserBlockFlow::Finished, Step::Done(Err(failure)))
            } else {
                (UserBlockFlow::Finished, Step::Done(Ok(())))
            },
            UserBlockReply::Written(Err(message)) => (
                UserBlockFlow::Finished,
                Step::Done(Err(Error::transport(message))),
            ),
            UserBlockReply::Target(_) => (UserBlockFlow::Writing { command }, Step::Idle),
        },
        UserBlockFlow::Finished => (UserBlockFlow::Finished, Step::Idle),
    }
}

/// The steps a command takes from `flow` when the replies arrive in the
/// given order.
pub open spec fn user_block_trace(flow: UserBlockFlow, replies: Seq<UserBlockReply>) -> Seq<
    StepView<()>,
>
    decreases replies.len(),
{
    if replies.len() == 0 {
        Seq::empty()
    } else {
        let out = user_block_step_spec(flow, replies[0]);
        seq![out.1] + user_block_trace(out.0, replies.drop_first())
    }
}

/// A finished command does nothing, whatever replies still arrive.
pub proof fn lemma_finished_block_flow_is_idle(replies: Seq<UserBlockReply>)
    ensures
        user_block_trace(UserBlockFlow::Finished, replies).len() == replies.len(),
        forall|i: int|
            0 <= i < replies.len() ==> #[trigger] user_block_trace(
                UserBlockFlow::Finished,
                replies,
            )[i] == StepView::<()>::Idle,
    decreases replies.len(),
{
    if replies.len() > 0 {
        let rest = replies.drop_first();
        lemma_finished_block_flow_is_idle(rest);
        let tail = user_block_trace(UserBlockFlow::Finished, rest);
        assert forall|i: int| 0 <= i < replies.len() implies #[trigger] user_block_trace(
            UserBlockFlow::Finished,
            replies,
        )[i] == StepView::<()>::Idle by {
            if i > 0 {
                assert(user_block_trace(UserBlockFlow::Finished, replies)[i] == tail[i - 1]);
            }
        }
    }
}

/// A caller who names themselves as the target fails at once with the
/// command's message, and the store is never asked anything, neither to
/// read nor to write, whatever replies arrive afterwards.
pub proof fn lemma_self_target_fails_before_any_write(
    command: BlockCommand,
    user: RequestUser,
    username: String,
    replies: Seq<UserBlockReply>,
)
    requires
        targets_self_spec(user, username@),
    ensures
        user_block_start_spec(command, user, username) == (
            UserBlockFlow::Finished,
            StepView::<()>::Done(
                Err(ErrorView::Application { message: command.self_target_message() }),
            ),
        ),
        forall|i: int|
            0 <= i < replies.len() ==> !(#[trigger] user_block_trace(
                user_block_start_spec(command, user, username).0,
                replies,
            )[i] is Ask),
{
    lemma_finished_block_flow_is_idle(replies);
}

/// The write is asked for only on the reply that shows the target, so only
/// for a target that exists and that is not the caller's own name.
pub proof fn lemma_block_write_needs_target(flow: UserBlockFlow, reply: UserBlockReply)
    ensures
        user_block_step_spec(flow, reply).1.is_write() ==> {
            &&& flow is FetchingTarget
            &&& reply matches UserBlockReply::Target(Ok(Some(_)))
        },
{
}

/// A write that changed no row is a failure of the application, with the
/// command's message, never a success.
pub proof fn lemma_empty_block_write_fails(command: BlockCommand, rows: u64)
    ensures
        user_block_step_spec(
            UserBlockFlow::Writing { command },
            UserBlockReply::Written(Ok(rows)),
        ) == (
            UserBlockFlow::Finished,
            if rows == 0 {
                StepView::<()>::Done(
                    Err(ErrorView::Application { message: command.nothing_written_message() }),
                )
            } else {
                StepView::<()>::Done(Ok(()))
            },
        ),
{
}

/// Decides what the list of blocked users shows. The list is empty where
/// the count is zero.
pub fn user_block_list_page(loaded: Loaded<ListResponse<UserBlock>>) -> (state: ViewState<
    ListResponse<UserBlock>,
>)
    ensures
        state@ == list_view_spec(loaded, EmptyRule::ZeroCount),
{
    list_view(loaded, EmptyRule::ZeroCount)
}

/// The address of the page of the blocked user, to which an item of the
/// list links: `/users/` and the user's name.
pub fn user_block_list_item(data: &UserBlock) -> (href: String)
    ensures
        href@ == "/users/"@ + data.blocked_username@,
{
    let mut href = String::from_str("/users/");
    href.append(data.blocked_username.as_str());
    href
}

} // verus!
