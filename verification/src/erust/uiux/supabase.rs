//! What the sign-in provider reports of a user, and the requests to it.

use crate::erust::uiux::javascript_interop::{carries, send_action_message, ActionMessage};
use vstd::prelude::*;

verus! {

/// A user as the sign-in provider reports it.
#[derive(Debug)]
pub struct SupabaseUserRaw {
    pub id: String,
    pub aud: String,
    pub role: String,
    pub email: String,
    pub email_confirmed_at: Option<String>,
    pub phone: Option<String>,
    pub confirmed_at: Option<String>,
    pub last_sign_in_at: Option<String>,
    pub app_metadata: AppMetadata,
    pub user_metadata: UserMetadata,
    pub identities: Vec<Identity>,
    pub created_at: Option<String>,
    pub updated_at: Option<String>,
    pub is_anonymous: Option<bool>,
}

#[derive(Debug)]
pub struct AppMetadata {
    pub provider: Option<String>,
    pub providers: Option<Vec<String>>,
}

#[derive(Debug)]
pub struct UserMetadata {
    pub email: Option<String>,
    pub email_verified: Option<bool>,
    pub phone_verified: Option<bool>,
    pub sub: Option<String>,
}

#[derive(Debug)]
pub struct Identity {
    pub identity_id: Option<String>,
    pub id: Option<String>,
    pub user_id: Option<String>,
    pub identity_data: Option<UserMetadata>,
    pub provider: Option<String>,
    pub last_sign_in_at: Option<String>,
    pub created_at: Option<String>,
    pub updated_at: Option<String>,
    pub email: Option<String>,
}

/// An answer of the sign-in provider: either data or an error.
#[derive(Debug)]
pub struct SupabaseResponse<T> {
    pub success: bool,
    pub data: Option<T>,
    pub error: Option<String>,
}

#[derive(Debug)]
pub struct AuthPayload {
    pub email: String,
    pub password: String,
}

#[derive(Debug)]
pub struct ProfilePayload {
    pub user_id: String,
}

#[derive(Debug)]
pub struct RegisterPayload {
    pub email: String,
    pub password: String,
    pub captcha_token: String,
}

/// Builds the request that registers a new user.
pub fn register(email: &str, password: &str, captcha_token: &str) -> (message: ActionMessage)
    ensures
        carries(message, "register"@, email@, password@, captcha_token@),
{
    send_action_message("register", email, password, captcha_token)
}

/// Builds the request that signs a user in.
pub fn login(email: &str, password: &str, captcha_token: &str) -> (message: ActionMessage)
    ensures
        carries(message, "login"@, email@, password@, captcha_token@),
{
    send_action_message("login", email, password, captcha_token)
}

} // verus!
