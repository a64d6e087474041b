//! Validating a user's session against Flowless from a backend, with the
//! backend's Bridge secret.

use vstd::prelude::*;

use crate::auth::types::{SessionValidationResult, User};
use crate::bridge::types::{SessionData, ValidationOptions};
use crate::config::{
    duration_from_millis, duration_from_secs, duration_nanos, is_default_retry, normalized_base_url,
    ClientConfig, ClientConfigBuilder, RetryConfig, default_retry_statuses,
};
use crate::error::{FlowfullError, Result};
use crate::headers::{header_insert, valid_header_value};
use crate::text::owned;
use crate::timestamp::Timestamp;
use core::time::Duration;

verus! {

/// Validates sessions against one Flowless instance.
#[derive(Debug, Clone)]
pub struct BridgeValidator<S, P> {
    pub config: ClientConfig<S, P>,
    pub endpoint: String,
    pub include_secret_in_body: bool,
    pub bridge_secret: Option<String>,
}

/// Builds a `BridgeValidator`.
#[derive(Debug, Clone)]
pub struct BridgeValidatorBuilder {
    base_url: String,
    bridge_secret: Option<String>,
    endpoint: String,
    timeout: Duration,
    retry: RetryConfig,
    include_secret_in_body: bool,
}

/// The content of a validator being built.
pub struct BridgeValidatorBuilderView {
    pub base_url: Seq<char>,
    pub bridge_secret: Option<Seq<char>>,
    pub endpoint: Seq<char>,
    pub timeout: Duration,
    pub retry: RetryConfig,
    pub include_secret_in_body: bool,
}

impl View for BridgeValidatorBuilder {
    type V = BridgeValidatorBuilderView;

    closed spec fn view(&self) -> BridgeValidatorBuilderView {
        BridgeValidatorBuilderView {
            base_url: self.base_url@,
            bridge_secret: match self.bridge_secret {
                Some(s) => Some(s@),
                None => None,
            },
            endpoint: self.endpoint@,
            timeout: self.timeout,
            retry: self.retry,
            include_secret_in_body: self.include_secret_in_body,
        }
    }
}

/// The body of a validation request. Absent members are left out of the
/// JSON.
#[derive(Debug, Clone, PartialEq, Eq)]
pub struct BridgeRequestBody {
    pub session_id: String,
    pub bridge_secret: Option<String>,
    pub ip: Option<String>,
    pub user_agent: Option<String>,
    pub device_id: Option<String>,
}

impl<S, P> BridgeValidator<S, P> {
    /// A builder for `base_url`: endpoint `/auth/bridge/validate`, no
    /// secret, a five-second timeout, three attempts with a delay doubling
    /// from 100 ms, and the secret sent as a header only.
    pub fn builder(base_url: &str) -> (b: BridgeValidatorBuilder)
        ensures
            b@.base_url == base_url@,
            b@.bridge_secret.is_none(),
            b@.endpoint == "/auth/bridge/validate"@,
            duration_nanos(b@.timeout) == 5_000_000_000,
            b@.retry.attempts == 3,
            duration_nanos(b@.retry.delay) == 100_000_000,
            b@.retry.exponential,
            b@.retry.max_delay.is_some() && duration_nanos(b@.retry.max_delay.unwrap()) == 30_000_000_000,
            b@.retry.retry_statuses@ == default_retry_statuses(),
            !b@.retry.retry_non_idempotent,
            !b@.include_secret_in_body,
    {
        BridgeValidatorBuilder {
            base_url: owned(base_url),
            bridge_secret: None,
            endpoint: owned("/auth/bridge/validate"),
            timeout: duration_from_secs(5),
            retry: RetryConfig::exponential(3, duration_from_millis(100)),
            include_secret_in_body: false,
        }
    }

    /// The body that validates `session_id`: the session, the secret when
    /// the validator sends it in the body and has one, and the client
    /// details of `options`.
    pub fn request_body(&self, session_id: &str, options: ValidationOptions) -> (r: BridgeRequestBody)
        ensures
            r.session_id@ == session_id@,
            r.bridge_secret == if self.include_secret_in_body { self.bridge_secret } else { None },
            r.ip == options.ip,
            r.user_agent == options.user_agent,
            r.device_id == options.device_id,
    {
        BridgeRequestBody {
            session_id: owned(session_id),
            bridge_secret: if self.include_secret_in_body { self.bridge_secret.clone() } else { None },
            ip: options.ip,
            user_agent: options.user_agent,
            device_id: options.device_id,
        }
    }
}

/// The session data of a validation answer, validated at `validated_at`:
/// the user's id, email, name and type, no organization or permissions,
/// the session's expiry, and the user. An answer without a user is a
/// session error.
pub fn session_data_from(result: SessionValidationResult, validated_at: Timestamp) -> (r: Result<SessionData>)
    ensures
        match result.user {
            None => r matches Err(FlowfullError::Session(m)) && m@ == "bridge validation returned no user"@,
            Some(u) => r matches Ok(d) && {
                &&& d.user_id == u.id
                &&& d.email == u.email
                &&& d.name == Some(u.name)
                &&& d.user_type == u.user_type
                &&& d.organization_id.is_none()
                &&& d.permissions@.len() == 0
                &&& d.expires_at == match result.session {
                    Some(s) => s.expires_at,
                    None => None,
                }
                &&& d.validated_at == validated_at
                &&& d.user == Some(u)
            },
        },
{
    let user = match result.user {
        Some(u) => u,
        None => return Err(FlowfullError::Session(owned("bridge validation returned no user"))),
    };
    let expires_at = match result.session {
        Some(s) => s.expires_at,
        None => None,
    };
    Ok(SessionData {
        user_id: user.id.clone(),
        email: user.email.clone(),
        name: Some(user.name.clone()),
        user_type: user.user_type.clone(),
        organization_id: None,
        permissions: Vec::new(),
        expires_at,
        validated_at,
        user: Some(user),
    })
}

impl BridgeValidatorBuilder {
    pub fn bridge_secret(self, secret: &str) -> (b: BridgeValidatorBuilder)
        ensures
            b@ == (BridgeValidatorBuilderView { bridge_secret: Some(secret@), ..self@ }),
    {
        let mut b = self;
        b.bridge_secret = Some(owned(secret));
        b
    }

    pub fn endpoint(self, endpoint: &str) -> (b: BridgeValidatorBuilder)
        ensures
            b@ == (BridgeValidatorBuilderView { endpoint: endpoint@, ..self@ }),
    {
        let mut b = self;
        b.endpoint = owned(endpoint);
        b
    }

    pub fn timeout(self, timeout: Duration) -> (b: BridgeValidatorBuilder)
        ensures
            b@ == (BridgeValidatorBuilderView { timeout, ..self@ }),
    {
        let mut b = self;
        b.timeout = timeout;
        b
    }

    pub fn retry(self, retry: RetryConfig) -> (b: BridgeValidatorBuilder)
        ensures
            b@ == (BridgeValidatorBuilderView { retry, ..self@ }),
    {
        let mut b = self;
        b.retry = retry;
        b
    }

    pub fn include_secret_in_body(self, enabled: bool) -> (b: BridgeValidatorBuilder)
        ensures
            b@ == (BridgeValidatorBuilderView { include_secret_in_body: enabled, ..self@ }),
    {
        let mut b = self;
        b.include_secret_in_body = enabled;
        b
    }

    /// The validator: a client configuration for the base URL with the
    /// builder's timeout and retry policy, and the secret in the
    /// `x-bridge-secret` header when there is one. An unparsable URL is a
    /// URL error, and a secret that is no valid header value a
    /// configuration error.
    pub fn build<S, P>(self) -> (r: Result<BridgeValidator<S, P>>)
        ensures
            match r {
                Ok(v) => {
                    &&& normalized_base_url(self@.base_url) == Ok::<Seq<char>, url::ParseError>(v.config.base_url@)
                    &&& v.config.timeout == self@.timeout
                    &&& v.config.retry == self@.retry
                    &&& v.config.headers@ == match self@.bridge_secret {
                        Some(s) => header_insert(Seq::empty(), "x-bridge-secret"@, s),
                        None => Seq::empty(),
                    }
                    &&& match self@.bridge_secret {
                        Some(s) => valid_header_value(s),
                        None => true,
                    }
                    &&& v.config.session_id.is_none()
                    &&& v.config.session_provider.is_none()
                    &&& v.config.storage.is_none()
                    &&& !v.config.include_session
                    &&& v.config.session_header@ == "x-session-id"@
                    &&& v.endpoint@ == self@.endpoint
                    &&& v.include_secret_in_body == self@.include_secret_in_body
                    &&& match v.bridge_secret {
                        Some(s) => self@.bridge_secret == Some(s@),
                        None => self@.bridge_secret.is_none(),
                    }
                },
                Err(FlowfullError::Url(e)) => normalized_base_url(self@.base_url) == Err::<Seq<char>, url::ParseError>(e),
                Err(FlowfullError::Config(_)) => normalized_base_url(self@.base_url) is Ok && self@.bridge_secret.is_some()
                    && !valid_header_value(self@.bridge_secret.unwrap()),
                Err(_) => false,
            },
    {
        let ghost view = self@;
        let builder: ClientConfigBuilder<S, P> = match ClientConfigBuilder::new(self.base_url.as_str()) {
            Ok(b) => b,
            Err(e) => return Err(e),
        };
        let mut builder = builder.timeout(self.timeout).retry(self.retry);
        match &self.bridge_secret {
            Some(secret) => {
                proof {
                    reveal_strlit("X-Bridge-Secret");
                    reveal_strlit("x-bridge-secret");
                    assert(crate::text::ascii_lower("X-Bridge-Secret"@) =~= "x-bridge-secret"@);
                    assert(crate::headers::valid_header_name("X-Bridge-Secret"@));
                }
                builder = match builder.header("X-Bridge-Secret", secret.as_str()) {
                    Ok(b) => b,
                    Err(e) => return Err(e),
                };
            },
            None => {},
        }
        let config = match builder.build() {
            Ok(c) => c,
            Err(e) => return Err(e),
        };
        Ok(BridgeValidator {
            config,
            endpoint: self.endpoint,
            include_secret_in_body: self.include_secret_in_body,
            bridge_secret: self.bridge_secret,
        })
    }
}

} // verus!
