//! The identity on whose behalf a request runs.

use vstd::prelude::*;

verus! {

/// The authenticated caller of a request.
#[derive(Debug, Clone, PartialEq, Eq)]
pub struct RequestUser {
    pub id: u128,
    pub username: String,
    /// False for a suspended account.
    pub is_active: bool,
    pub is_superuser: bool,
}

} // verus!
