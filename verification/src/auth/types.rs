//! The data exchanged with the authentication endpoints.

use vstd::prelude::*;

use crate::json::{json_as_i64, json_as_str, JsonValue, JsonView};
use crate::text::{ascii_lower, str_eq, to_ascii_lowercase};
use crate::timestamp::Timestamp;

verus! {

/// A boolean that Flowless may send as a boolean, a number (non-zero is
/// true) or a string (`1`, `true` or `yes`, in any ASCII case, is true).
#[derive(Debug, Clone, Copy, Default, PartialEq, Eq)]
pub struct FlexibleBool(pub bool);

/// How a JSON document reads as a flexible boolean, and nothing when it
/// does not: a boolean as itself; a number as true when it is an integer
/// that fits in an `i64` and is not zero; a string as true when its ASCII
/// lowercase form is `1`, `true` or `yes`.
pub open spec fn flexible_bool_of(v: JsonView) -> Option<bool> {
    match v {
        JsonView::Bool(b) => Some(b),
        JsonView::Number(_) | JsonView::Fraction(_) => Some(
            match json_as_i64(v) {
                Some(n) => n != 0,
                None => false,
            },
        ),
        JsonView::Str(s) => Some(
            ascii_lower(s) == "1"@ || ascii_lower(s) == "true"@ || ascii_lower(s) == "yes"@,
        ),
        _ => None,
    }
}

impl FlexibleBool {
    /// Reads a JSON document as a flexible boolean.
    pub fn from_json(value: &JsonValue) -> (r: Option<FlexibleBool>)
        ensures
            match r {
                Some(b) => flexible_bool_of(value@) == Some(b.0),
                None => flexible_bool_of(value@).is_none(),
            },
    {
        match value {
            JsonValue::Bool(b) => Some(FlexibleBool(*b)),
            JsonValue::Number(n) => {
                let v = match n.as_i64() {
                    Some(i) => i,
                    None => 0,
                };
                Some(FlexibleBool(v != 0))
            },
            JsonValue::String(s) => {
                let lower = to_ascii_lowercase(s.as_str());
                let truthy = str_eq(lower.as_str(), "1") || str_eq(lower.as_str(), "true") || str_eq(
                    lower.as_str(),
                    "yes",
                );
                Some(FlexibleBool(truthy))
            },
            _ => None,
        }
    }
}

/// A Flowless user.
#[derive(Debug, Clone, PartialEq)]
pub struct User {
    pub id: String,
    pub email: String,
    pub name: String,
    pub last_name: Option<String>,
    pub user_name: Option<String>,
    pub user_type: Option<String>,
    pub picture: Option<String>,
    pub phone: Option<String>,
    pub mobile: Option<String>,
    pub is_verified: FlexibleBool,
    pub two_factor: FlexibleBool,
    pub lang: Option<String>,
    pub tmz: Option<String>,
    pub bio: Option<String>,
    pub dob: Option<String>,
    pub gender: Option<String>,
    pub display_name: Option<String>,
    pub recovery_email: Option<String>,
    pub reference_id: Option<String>,
    pub first_time: Option<bool>,
    pub deleted_at: Option<Timestamp>,
    pub deletion_reason: Option<String>,
    pub created_at: Option<Timestamp>,
    pub updated_at: Option<Timestamp>,
}

/// A signed-in session.
#[derive(Debug, Clone, PartialEq)]
pub struct Session {
    pub id: String,
    pub user_id: String,
    pub expires_at: Option<Timestamp>,
    pub ip_address: Option<String>,
    pub user_agent: Option<String>,
    pub last_used_at: Option<Timestamp>,
}

#[derive(Debug, Clone, PartialEq, Eq)]
pub struct LoginCredentials {
    pub password: String,
    pub email: Option<String>,
    pub user_name: Option<String>,
}

#[derive(Debug, Clone, PartialEq, Eq)]
pub struct RegisterData {
    pub email: String,
    pub password: String,
    pub name: String,
    pub last_name: Option<String>,
    pub user_name: Option<String>,
    pub phone: Option<String>,
    pub user_type: Option<String>,
}

/// The answer to a login or registration.
#[derive(Debug, Clone, PartialEq)]
pub struct LoginResult {
    pub success: bool,
    pub user: User,
    pub session_id: String,
    pub expires_at: Option<Timestamp>,
    pub message: Option<String>,
    pub is_new_user: Option<bool>,
}

#[derive(Debug, Clone, PartialEq, Eq)]
pub struct PasswordResetRequest {
    pub email: String,
    pub reset_url: Option<String>,
}

#[derive(Debug, Clone, PartialEq, Eq)]
pub struct PasswordResetComplete {
    pub token: String,
    pub password: String,
}

#[derive(Debug, Clone, PartialEq, Eq)]
pub struct PasswordChange {
    pub current_password: String,
    pub new_password: String,
}

#[derive(Debug, Clone, PartialEq, Eq)]
pub struct ResendVerification {
    pub email: String,
}

#[derive(Debug, Clone, PartialEq, Eq)]
pub struct TokenValidation {
    pub token: String,
}

#[derive(Debug, Clone, PartialEq, Eq)]
pub struct ValidationResult {
    pub success: bool,
    pub valid: bool,
    pub message: Option<String>,
}

#[derive(Debug, Clone, PartialEq, Eq)]
pub struct TokenCreate {
    pub email: Option<String>,
    pub phone: Option<String>,
    pub method: String,
    pub login_url: Option<String>,
}

#[derive(Debug, Clone, PartialEq, Eq)]
pub struct TokenCreateResult {
    pub success: bool,
    pub message: Option<String>,
    pub method: Option<String>,
    pub expires_in: Option<u64>,
}

/// A social login provider.
#[derive(Debug, Clone, Copy, PartialEq, Eq)]
pub enum SocialProvider {
    Google,
    Github,
    Facebook,
    Apple,
    Discord,
    Microsoft,
}

/// The name of a provider in URLs and JSON: its name in lowercase.
pub open spec fn provider_name(p: SocialProvider) -> Seq<char> {
    match p {
        SocialProvider::Google => "google"@,
        SocialProvider::Github => "github"@,
        SocialProvider::Facebook => "facebook"@,
        SocialProvider::Apple => "apple"@,
        SocialProvider::Discord => "discord"@,
        SocialProvider::Microsoft => "microsoft"@,
    }
}

impl SocialProvider {
    /// The provider's name, as it appears in URLs and JSON.
    pub fn as_str(self) -> (s: &'static str)
        ensures
            s@ == provider_name(self),
    {
        match self {
            SocialProvider::Google => "google",
            SocialProvider::Github => "github",
            SocialProvider::Facebook => "facebook",
            SocialProvider::Apple => "apple",
            SocialProvider::Discord => "discord",
            SocialProvider::Microsoft => "microsoft",
        }
    }
}

#[derive(Debug, Clone, PartialEq)]
pub struct SocialProviderInfo {
    pub provider: SocialProvider,
    pub enabled: bool,
    pub login_url: Option<String>,
    pub api_login_url: Option<String>,
}

#[derive(Debug, Clone, PartialEq)]
pub struct SocialProvidersResult {
    pub success: bool,
    pub providers: Vec<SocialProviderInfo>,
    pub all_providers: Vec<SocialProviderInfo>,
}

#[derive(Debug, Clone, PartialEq, Eq)]
pub struct SocialLoginData {
    pub access_token: String,
}

#[derive(Debug, Clone, PartialEq)]
pub struct SocialAccount {
    pub provider: SocialProvider,
    pub provider_user_id: Option<String>,
    pub email: Option<String>,
    pub linked_at: Option<Timestamp>,
}

#[derive(Debug, Clone, PartialEq)]
pub struct SocialAccountsResult {
    pub success: bool,
    pub accounts: Vec<SocialAccount>,
}

/// The answer to a session validation.
#[derive(Debug, Clone, PartialEq)]
pub struct SessionValidationResult {
    pub success: bool,
    pub valid: bool,
    pub user: Option<User>,
    pub session: Option<Session>,
}

#[derive(Debug, Clone, PartialEq, Eq)]
pub struct ProfileUpdate {
    pub name: Option<String>,
    pub last_name: Option<String>,
    pub phone: Option<String>,
    pub user_type: Option<String>,
}

} // verus!
