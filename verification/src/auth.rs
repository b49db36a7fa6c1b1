//! The shapes of the sign-in and sign-up exchange.

use vstd::prelude::*;

verus! {

/// A request to sign in.
#[derive(Debug, Clone, PartialEq, Eq)]
pub struct LoginRequest {
    pub email: String,
    pub password: String,
}

/// A request to sign up with an invitation.
#[derive(Debug, Clone, PartialEq, Eq)]
pub struct SignupRequest {
    pub email: String,
    pub password: String,
    pub invite_code: String,
}

/// The tokens handed out on sign-in.
#[derive(Debug, Clone, PartialEq, Eq)]
pub struct LoginResponse {
    pub id_token: String,
    pub access_token: String,
    pub refresh_token: String,
    /// Seconds until the tokens lapse.
    pub expires_in: i32,
}

/// An error as it is answered.
#[derive(Debug, Clone, PartialEq, Eq)]
pub struct ErrorResponse {
    pub error: String,
    pub message: String,
}

} // verus!
