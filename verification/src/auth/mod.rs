//! Authentication: the data of the auth endpoints, the endpoints
//! themselves, and what a client keeps from their answers.

pub mod types;

pub use types::{
    FlexibleBool, LoginCredentials, LoginResult, PasswordChange, PasswordResetComplete,
    PasswordResetRequest, ProfileUpdate, RegisterData, ResendVerification, Session,
    SessionValidationResult, SocialAccount, SocialAccountsResult, SocialLoginData, SocialProvider,
    SocialProviderInfo, SocialProvidersResult, TokenCreate, TokenCreateResult, TokenValidation, User,
    ValidationResult,
};

use vstd::prelude::*;

use crate::auth::types::provider_name;
use crate::json::{json_as_str, json_get, JsonValue, JsonView};
use crate::text::concat;

verus! {

/// The endpoint that checks a password-reset token; the token goes into
/// the query as it is.
pub fn password_reset_validate_endpoint(token: &str) -> (r: String)
    ensures
        r@ == "/auth/password-reset/validate?token="@ + token@,
{
    concat("/auth/password-reset/validate?token=", token)
}

/// The endpoint that checks an access token with a GET; the token goes into
/// the query as it is.
pub fn token_validate_endpoint(token: &str) -> (r: String)
    ensures
        r@ == "/auth/token/validate?token="@ + token@,
{
    concat("/auth/token/validate?token=", token)
}

/// The endpoint that starts the OAuth flow of a provider.
pub fn social_login_endpoint(provider: SocialProvider) -> (r: String)
    ensures
        r@ == "/auth/social/"@ + provider_name(provider) + "/login"@,
{
    let head = concat("/auth/social/", provider.as_str());
    concat(head.as_str(), "/login")
}

/// The endpoint that signs in with a provider's access token.
pub fn social_login_api_endpoint(provider: SocialProvider) -> (r: String)
    ensures
        r@ == "/auth/social/"@ + provider_name(provider) + "/login-api"@,
{
    let head = concat("/auth/social/", provider.as_str());
    concat(head.as_str(), "/login-api")
}

/// The endpoint that unlinks a provider from the account.
pub fn social_unlink_endpoint(provider: SocialProvider) -> (r: String)
    ensures
        r@ == "/auth/social/accounts/"@ + provider_name(provider),
{
    concat("/auth/social/accounts/", provider.as_str())
}

/// The part of an answer that holds a value: the member named `field` when
/// the answer is an object that has one, and the whole answer otherwise.
pub open spec fn top_level_field(v: JsonView, field: Seq<char>) -> JsonView {
    match json_get(v, field) {
        Some(inner) => inner,
        None => v,
    }
}

/// Picks the part of an answer that holds a value (see `top_level_field`).
pub fn extract_field(value: JsonValue, field: &str) -> (r: JsonValue)
    ensures
        r@ == top_level_field(value@, field@),
{
    match value.get(field) {
        Some(inner) => inner.duplicate(),
        None => value,
    }
}

/// The OAuth address in the answer of a login start: the `url` member when
/// it is a string, else the `login_url` member when it is a string, else
/// the answer itself when it is a string; nothing otherwise.
pub open spec fn oauth_url_of(v: JsonView) -> Option<Seq<char>> {
    let from_url = match json_get(v, "url"@) {
        Some(u) => json_as_str(u),
        None => None,
    };
    let from_login_url = match json_get(v, "login_url"@) {
        Some(u) => json_as_str(u),
        None => None,
    };
    match from_url {
        Some(u) => Some(u),
        None => match from_login_url {
            Some(u) => Some(u),
            None => json_as_str(v),
        },
    }
}

/// Reads the OAuth address out of the answer of a login start (see
/// `oauth_url_of`).
pub fn oauth_url(value: &JsonValue) -> (r: Option<String>)
    ensures
        r.deep_view() == oauth_url_of(value@),
{
    if let Some(u) = value.get("url") {
        if let Some(s) = u.as_str() {
            return Some(s.clone());
        }
    }
    if let Some(u) = value.get("login_url") {
        if let Some(s) = u.as_str() {
            return Some(s.clone());
        }
    }
    match value.as_str() {
        Some(s) => Some(s.clone()),
        None => None,
    }
}

/// The session a login answer leaves to be stored: its session id, unless
/// that is empty.
pub fn session_to_persist(result: &LoginResult) -> (r: Option<String>)
    ensures
        r.deep_view() == if result.session_id@.len() > 0 { Some(result.session_id@) } else { None::<Seq<char>> },
{
    if result.session_id.as_str().is_empty() {
        None
    } else {
        Some(result.session_id.clone())
    }
}

} // verus!
