use std::time::Duration;

use flowfull::auth::types::{Session, SessionValidationResult};
use flowfull::auth::{
    extract_field, oauth_url, password_reset_validate_endpoint, session_to_persist,
    social_login_api_endpoint, social_login_endpoint, social_unlink_endpoint,
    token_validate_endpoint, FlexibleBool, LoginResult, SocialProvider, User,
};
use flowfull::bridge::validator::{session_data_from, BridgeRequestBody};
use flowfull::json::JsonValue;
use flowfull::middleware::axum::{
    auth_admission, extract_query_session, extract_session_cookie, extract_session_id, require_user_type,
    Admission, AxumAuthState,
};
use flowfull::timestamp::Timestamp;
use flowfull::{
    BridgeValidator, FlowfullError, RetryConfig, SessionData, ValidationMode, ValidationOptions,
};

fn text(s: &str) -> JsonValue {
    JsonValue::from_text(s)
}

fn object(members: Vec<(&str, JsonValue)>) -> JsonValue {
    JsonValue::Object(members.into_iter().map(|(k, v)| (k.to_string(), v)).collect())
}

fn user(id: &str, user_type: Option<&str>) -> User {
    User {
        id: id.to_string(),
        email: format!("{id}@example.com"),
        name: "Jane".to_string(),
        last_name: None,
        user_name: None,
        user_type: user_type.map(|s| s.to_string()),
        picture: None,
        phone: None,
        mobile: None,
        is_verified: FlexibleBool(true),
        two_factor: FlexibleBool(false),
        lang: None,
        tmz: None,
        bio: None,
        dob: None,
        gender: None,
        display_name: None,
        recovery_email: None,
        reference_id: None,
        first_time: None,
        deleted_at: None,
        deletion_reason: None,
        created_at: None,
        updated_at: None,
    }
}

fn some(s: &str) -> Option<String> {
    Some(s.to_string())
}

#[test]
fn auth_endpoints() {
    assert_eq!(password_reset_validate_endpoint("tok"), "/auth/password-reset/validate?token=tok");
    assert_eq!(token_validate_endpoint("a b"), "/auth/token/validate?token=a b");
    assert_eq!(social_login_endpoint(SocialProvider::Github), "/auth/social/github/login");
    assert_eq!(social_login_api_endpoint(SocialProvider::Google), "/auth/social/google/login-api");
    assert_eq!(social_unlink_endpoint(SocialProvider::Microsoft), "/auth/social/accounts/microsoft");
    assert_eq!(SocialProvider::Facebook.as_str(), "facebook");
    assert_eq!(SocialProvider::Apple.as_str(), "apple");
    assert_eq!(SocialProvider::Discord.as_str(), "discord");
}

#[test]
fn top_level_field_is_taken_when_present() {
    let inner = object(vec![("id", text("usr_1"))]);
    let answer = object(vec![("success", JsonValue::from_bool(true)), ("user", inner)]);
    let picked = extract_field(answer, "user");
    assert_eq!(picked.get("id").and_then(|v| v.as_str()).map(|s| s.as_str()), Some("usr_1"));

    let bare = object(vec![("id", text("usr_2"))]);
    let picked = extract_field(bare, "user");
    assert_eq!(picked.get("id").and_then(|v| v.as_str()).map(|s| s.as_str()), Some("usr_2"));

    let not_object = text("plain");
    assert_eq!(extract_field(not_object, "user").as_str().map(|s| s.as_str()), Some("plain"));
}

#[test]
fn oauth_url_prefers_url_then_login_url_then_a_bare_string() {
    let both = object(vec![("login_url", text("https://b")), ("url", text("https://a"))]);
    assert_eq!(oauth_url(&both), some("https://a"));
    let login = object(vec![("url", JsonValue::from_i64(1)), ("login_url", text("https://b"))]);
    assert_eq!(oauth_url(&login), some("https://b"));
    assert_eq!(oauth_url(&text("https://c")), some("https://c"));
    assert_eq!(oauth_url(&object(vec![("other", text("x"))])), None);
    assert_eq!(oauth_url(&JsonValue::Null), None);
}

#[test]
fn login_persists_only_a_non_empty_session() {
    let mut result = LoginResult {
        success: true,
        user: user("usr_1", None),
        session_id: "ses_1".to_string(),
        expires_at: None,
        message: None,
        is_new_user: None,
    };
    assert_eq!(session_to_persist(&result), some("ses_1"));
    result.session_id = String::new();
    assert_eq!(session_to_persist(&result), None);
}

#[test]
fn validation_modes_forward_more_details_as_they_get_stricter() {
    let full = || (some("1.2.3.4"), some("agent"), some("device"));
    let (ip, ua, dev) = full();
    assert_eq!(ValidationMode::Disabled.build_options(ip, ua, dev), ValidationOptions::default());
    let (ip, ua, dev) = full();
    assert_eq!(
        ValidationMode::Standard.build_options(ip, ua, dev),
        ValidationOptions { ip: some("1.2.3.4"), user_agent: None, device_id: None }
    );
    let (ip, ua, dev) = full();
    assert_eq!(
        ValidationMode::Advanced.build_options(ip, ua, dev),
        ValidationOptions { ip: some("1.2.3.4"), user_agent: some("agent"), device_id: None }
    );
    let (ip, ua, dev) = full();
    assert_eq!(
        ValidationMode::Strict.build_options(ip, ua, dev),
        ValidationOptions { ip: some("1.2.3.4"), user_agent: some("agent"), device_id: some("device") }
    );
}

#[test]
fn bridge_validator_builds_its_client_configuration() {
    let v: BridgeValidator<(), ()> = BridgeValidator::<(), ()>::builder("https://auth.example.com")
        .bridge_secret("s3cret")
        .endpoint("/custom/validate")
        .timeout(Duration::from_secs(2))
        .retry(RetryConfig::default())
        .include_secret_in_body(true)
        .build()
        .unwrap();
    assert_eq!(v.config.base_url, "https://auth.example.com/");
    assert_eq!(v.config.timeout, Duration::from_secs(2));
    assert_eq!(v.config.headers.get("x-bridge-secret").as_deref(), Some("s3cret"));
    assert!(!v.config.include_session);
    assert_eq!(v.endpoint, "/custom/validate");
    let body = v.request_body("ses_1", ValidationOptions { ip: some("ip"), user_agent: None, device_id: None });
    assert_eq!(
        body,
        BridgeRequestBody {
            session_id: "ses_1".to_string(),
            bridge_secret: some("s3cret"),
            ip: some("ip"),
            user_agent: None,
            device_id: None,
        }
    );

    let plain: BridgeValidator<(), ()> =
        BridgeValidator::<(), ()>::builder("https://auth.example.com").build().unwrap();
    assert_eq!(plain.endpoint, "/auth/bridge/validate");
    assert_eq!(plain.config.timeout, Duration::from_secs(5));
    assert_eq!(plain.config.retry.attempts, 3);
    assert!(plain.config.retry.exponential);
    assert_eq!(plain.config.headers.len(), 0);
    assert_eq!(plain.request_body("s", ValidationOptions::default()).bridge_secret, None);

    match BridgeValidator::<(), ()>::builder("https://auth.example.com").bridge_secret("bad\nsecret").build::<(), ()>() {
        Err(FlowfullError::Config(_)) => {}
        other => panic!("{:?}", other.map(|_| ())),
    }
    assert!(matches!(
        BridgeValidator::<(), ()>::builder("::nope").build::<(), ()>(),
        Err(FlowfullError::Url(_))
    ));
}

#[test]
fn session_data_comes_from_the_validated_user() {
    let at = Timestamp { seconds: 1_700_000_000, nanos: 5 };
    let expiry = Timestamp { seconds: 1_800_000_000, nanos: 0 };
    let result = SessionValidationResult {
        success: true,
        valid: true,
        user: Some(user("usr_1", Some("admin"))),
        session: Some(Session {
            id: "ses".to_string(),
            user_id: "usr_1".to_string(),
            expires_at: Some(expiry),
            ip_address: None,
            user_agent: None,
            last_used_at: None,
        }),
    };
    let data = session_data_from(result, at).unwrap();
    assert_eq!(data.user_id, "usr_1");
    assert_eq!(data.email, "usr_1@example.com");
    assert_eq!(data.name, some("Jane"));
    assert_eq!(data.user_type, some("admin"));
    assert_eq!(data.expires_at, Some(expiry));
    assert_eq!(data.validated_at, at);
    assert!(data.permissions.is_empty());

    let empty = SessionValidationResult { success: true, valid: false, user: None, session: None };
    match session_data_from(empty, at) {
        Err(FlowfullError::Session(m)) => assert_eq!(m, "bridge validation returned no user"),
        other => panic!("{other:?}"),
    }
}

fn state(allow_query: bool) -> AxumAuthState<BridgeValidator<(), ()>> {
    let v = BridgeValidator::<(), ()>::builder("https://auth.example.com").build().unwrap();
    let mut s = AxumAuthState::new(v);
    s.allow_query_session = allow_query;
    s
}

#[test]
fn axum_state_defaults() {
    let s = state(false);
    assert_eq!(s.session_header, "X-Session-ID");
    assert_eq!(s.validation_mode, ValidationMode::Standard);
    assert!(!s.allow_query_session);
}

#[test]
fn session_cookie_is_found_among_cookies() {
    assert_eq!(extract_session_cookie("theme=dark; session_id=abc; other=1"), some("abc"));
    assert_eq!(extract_session_cookie("session_id=a=b"), some("a=b"));
    assert_eq!(extract_session_cookie("  session_id=x  ;session_id=y"), some("x"));
    assert_eq!(extract_session_cookie("\tsession_id=tab\t"), some("tab"));
    assert_eq!(extract_session_cookie("session_id"), None);
    assert_eq!(extract_session_cookie("sessionid=1; SESSION_ID=2"), None);
    assert_eq!(extract_session_cookie(""), None);
    assert_eq!(extract_session_cookie("session_id="), some(""));
}

#[test]
fn query_session_is_read_without_trimming() {
    assert_eq!(extract_query_session("a=1&session_id=q1&session_id=q2"), some("q1"));
    assert_eq!(extract_query_session(" session_id=x"), None);
    assert_eq!(extract_query_session("session_id"), None);
}

#[test]
fn session_id_comes_from_header_then_cookie_then_query() {
    let open = state(true);
    let closed = state(false);
    assert_eq!(
        extract_session_id(Some("hdr"), Some("session_id=ck"), Some("session_id=q"), &open),
        some("hdr")
    );
    assert_eq!(extract_session_id(None, Some("session_id=ck"), Some("session_id=q"), &open), some("ck"));
    assert_eq!(extract_session_id(None, Some("x=1"), Some("session_id=q"), &open), some("q"));
    assert_eq!(extract_session_id(None, Some("x=1"), Some("session_id=q"), &closed), None);
    assert_eq!(extract_session_id(None, None, None, &open), None);
}

fn session_of(user_type: Option<&str>) -> SessionData {
    SessionData {
        user_id: "usr".to_string(),
        email: "usr@example.com".to_string(),
        name: None,
        user_type: user_type.map(|s| s.to_string()),
        organization_id: None,
        permissions: Vec::new(),
        expires_at: None,
        validated_at: Timestamp { seconds: 0, nanos: 0 },
        user: None,
    }
}

#[test]
fn user_types_are_let_through_or_refused() {
    let allowed = vec!["admin".to_string(), "staff".to_string()];
    assert_eq!(require_user_type(&allowed, None), Admission::Unauthorized);
    assert_eq!(require_user_type(&allowed, Some(&session_of(Some("staff")))), Admission::Proceed);
    assert_eq!(require_user_type(&allowed, Some(&session_of(Some("guest")))), Admission::Forbidden);
    assert_eq!(require_user_type(&allowed, Some(&session_of(None))), Admission::Forbidden);
    let with_empty = vec![String::new()];
    assert_eq!(require_user_type(&with_empty, Some(&session_of(None))), Admission::Proceed);
    assert_eq!(Admission::Unauthorized.status(), Some(401));
    assert_eq!(Admission::Forbidden.status(), Some(403));
    assert_eq!(Admission::Proceed.status(), None);
}

#[test]
fn require_auth_lets_through_only_validated_sessions() {
    let ok: Result<u8, ()> = Ok(1);
    let failed: Result<u8, ()> = Err(());
    assert_eq!(auth_admission(Some(&ok)), Admission::Proceed);
    assert_eq!(auth_admission(Some(&failed)), Admission::Unauthorized);
    assert_eq!(auth_admission::<u8, ()>(None), Admission::Unauthorized);
}
