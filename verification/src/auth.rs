//! The authenticated caller of a mutating use case, used purely for audit
//! attribution, never for authorization.
use vstd::prelude::*;

verus! {

/// The caller identity a transport layer resolved.
#[derive(Debug, Clone, Copy, PartialEq, Eq)]
pub struct AuthenticatedUser {
    /// The unique identifier of the caller.
    pub user_id: u128,
}

} // verus!
