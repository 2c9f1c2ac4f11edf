//! The two authorization rules of the application.
//!
//! Viewing and creating ask only that the caller's account is active.
//! Updating and deleting ask that the caller owns the resource or is a
//! superuser. Nothing else decides access.

use crate::error::Error;
use crate::identity::RequestUser;
use vstd::prelude::*;

verus! {

/// Whether `user` may look at, or create, a resource.
pub open spec fn may_view(user: RequestUser) -> bool {
    user.is_active
}

/// Whether `user` may change or delete a resource owned by `owner_id`.
pub open spec fn may_modify(owner_id: u128, user: RequestUser) -> bool {
    owner_id == user.id || user.is_superuser
}

/// The outcome of a check: success where it allows, `Forbidden` where not.
pub open spec fn verdict(allowed: bool) -> Result<(), Error> {
    if allowed {
        Ok(())
    } else {
        Err(Error::Forbidden)
    }
}

/// Checks that `user` may look at, or create, a resource.
pub fn authorize_view(user: &RequestUser) -> (outcome: Result<(), Error>)
    ensures
        outcome == verdict(may_view(*user)),
{
    if user.is_active {
        Ok(())
    } else {
        Err(Error::Forbidden)
    }
}

/// Checks that `user` may change or delete a resource owned by `owner_id`.
pub fn authorize_modify(owner_id: u128, user: &RequestUser) -> (outcome: Result<(), Error>)
    ensures
        outcome == verdict(may_modify(owner_id, *user)),
{
    if owner_id == user.id || user.is_superuser {
        Ok(())
    } else {
        Err(Error::Forbidden)
    }
}

/// Whether a command on the relation between two users names the caller
/// as its own target. Such a command is turned away before it touches the
/// store.
pub open spec fn targets_self_spec(user: RequestUser, username: Seq<char>) -> bool {
    user.username@ == username
}

/// Whether a command on the relation between two users names the caller
/// as its own target.
pub fn targets_self(user: &RequestUser, username: &String) -> (own: bool)
    ensures
        own == targets_self_spec(*user, username@),
{
    user.username == *username
}

/// A caller who neither owns a resource nor is a superuser is refused, and
/// with `Forbidden`; an owner and a superuser are let through, whether or
/// not the account is active.
pub proof fn lemma_modify_needs_owner_or_superuser(owner_id: u128, user: RequestUser)
    ensures
        (owner_id != user.id && !user.is_superuser) ==> verdict(may_modify(owner_id, user)) == Err::<
            (),
            Error,
        >(Error::Forbidden),
        (owner_id == user.id || user.is_superuser) ==> verdict(may_modify(owner_id, user)) is Ok,
{
}

/// Viewing depends on the account alone: two callers with the same
/// `is_active` flag get the same answer, whoever owns the resource.
pub proof fn lemma_view_ignores_ownership(a: RequestUser, b: RequestUser)
    requires
        a.is_active == b.is_active,
    ensures
        verdict(may_view(a)) == verdict(may_view(b)),
        verdict(may_view(a)) is Ok <==> a.is_active,
{
}

} // verus!
