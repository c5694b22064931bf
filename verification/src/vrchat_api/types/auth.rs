//! What logging in takes and gives.

use vstd::prelude::*;
use super::enums::UserStatus;
use super::user::User;

verus! {

/// What a user logs in with.
#[derive(Debug, Clone)]
pub struct LoginCredentials {
    pub email: String,
    pub password: String,
}

/// How a login attempt ended.
#[derive(Debug, Clone)]
pub enum LoginResult {
    /// The user is logged in.
    Success { user: User },
    /// A second factor is asked for, by one of these methods.
    TwoFactorRequired { methods: Vec<String> },
}

/// The service's answer to a login that needs a second factor.
#[derive(Debug, Clone)]
pub struct TwoFactorAuthResponse {
    pub requires_two_factor_auth: Option<Vec<String>>,
}

/// The code of a second factor.
#[derive(Debug, Clone)]
pub struct TwoFactorCode {
    pub code: String,
}

/// The service's answer to a second factor.
#[derive(Debug, Clone)]
pub struct TwoFactorVerifyResponse {
    pub verified: bool,
}

/// A request to change the authenticated user's status.
#[derive(Debug, Clone)]
pub struct UpdateStatusRequest {
    pub status: UserStatus,
    pub status_description: String,
}

} // verus!
