//! The bodies of the web site's form posts.

use vstd::prelude::*;

verus! {

/// A registration form.
#[derive(Debug)]
pub struct RegisterInput {
    pub username: String,
    pub role: String,
    pub password: String,
    pub password_conf: String,
    pub battletag: String,
    pub email: String,
    pub bracket_key: String,
}

/// A login form.
#[derive(Debug)]
pub struct LoginInput {
    pub username: String,
    pub password: String,
}

/// A request for a password reset email.
#[derive(Debug)]
pub struct ForgotPasswordInput {
    pub email: String,
}

/// A password reset with the token from the email.
#[derive(Debug)]
pub struct ResetPasswordInput {
    pub token: String,
    pub new_password: String,
}

/// A request to join a queue.
#[derive(Debug)]
pub struct JoinQueueInput {
    pub queue_id: String,
}

/// A request to leave a queue; the user is known from the session cookie.
#[derive(Debug)]
pub struct LeaveQueueInput {
    pub queue_id: String,
}

/// New account settings.
#[derive(Debug)]
pub struct UpdateSettingsInput {
    pub battletag: String,
    pub role: String,
}

} // verus!
