//! Invitations to sign up.

use vstd::prelude::*;

verus! {

/// A request to invite someone.
#[derive(Debug, Clone, PartialEq, Eq)]
pub struct CreateInviteRequest {
    pub email: String,
    /// After how many days the invitation lapses.
    pub expires_days: i64,
}

/// An invitation as it is answered.
#[derive(Debug, Clone, PartialEq, Eq)]
pub struct InviteResponse {
    pub invite_code: String,
    pub email: String,
    pub expires_at: String,
    pub status: String,
}

/// The lifetime of an invitation, in days, where the request names none.
pub fn default_expires_days() -> (days: i64)
    ensures
        days == 7,
{
    7
}

} // verus!
