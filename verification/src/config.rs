//! Client configuration: base URL, session handling, timeout, default
//! headers and the retry policy.

use vstd::prelude::*;

use crate::error::{FlowfullError, Result};
use crate::headers::{header_insert, header_map_room, parse_header_name, valid_header_name, valid_header_value, Headers};
use crate::request::{bad_header_name_message, checked_header};
use crate::text::ascii_lower;
use crate::text::{concat, ends_with_char, has_suffix, owned};
use crate::urls::{url_parse, url_parse_spec, url_path, url_path_spec, url_set_path, url_set_path_spec};
use core::time::Duration;

verus! {

/// The length of a `Duration` in nanoseconds (`Duration::as_nanos`).
pub uninterp spec fn duration_nanos(d: Duration) -> nat;

/// The nanoseconds of `Duration::MAX`: `u64::MAX` seconds and 999,999,999
/// nanoseconds.
pub open spec fn max_duration_nanos() -> nat {
    18446744073709551615nat * 1_000_000_000nat + 999_999_999nat
}

/// `Duration::as_nanos`: the length in nanoseconds, never above that of
/// `Duration::MAX`.
#[verifier::external_body]
pub(crate) fn nanos_of(d: Duration) -> (n: u128)
    ensures
        n == duration_nanos(d),
        n <= max_duration_nanos(),
{
    d.as_nanos()
}

/// `Duration::from_secs`: `secs` whole seconds.
#[verifier::external_body]
pub(crate) fn duration_from_secs(secs: u64) -> (d: Duration)
    ensures
        duration_nanos(d) == secs * 1_000_000_000,
{
    Duration::from_secs(secs)
}

/// `Duration::from_millis`: `millis` milliseconds.
#[verifier::external_body]
pub(crate) fn duration_from_millis(millis: u64) -> (d: Duration)
    ensures
        duration_nanos(d) == millis * 1_000_000,
{
    Duration::from_millis(millis)
}

/// `Duration::saturating_mul`: `d` times `k`, or `Duration::MAX` where that
/// would not fit.
#[verifier::external_body]
pub(crate) fn duration_saturating_mul(d: Duration, k: u32) -> (r: Duration)
    ensures
        duration_nanos(r) == if duration_nanos(d) * k <= max_duration_nanos() {
            duration_nanos(d) * k
        } else {
            max_duration_nanos() as int
        },
{
    d.saturating_mul(k)
}

/// `Duration` is `Copy`: its `clone` is the value itself.
pub assume_specification[ <core::time::Duration as core::clone::Clone>::clone ](d: &core::time::Duration) -> (r: core::time::Duration)
    ensures
        r == *d,
;

/// When and how often a failed request is tried again.
#[derive(Debug, Clone)]
pub struct RetryConfig {
    /// How many times a request is sent at most (at least once).
    pub attempts: usize,
    pub delay: Duration,
    /// Whether the delay doubles after each attempt.
    pub exponential: bool,
    pub max_delay: Option<Duration>,
    /// Response statuses that count as failures worth another attempt.
    pub retry_statuses: Vec<u16>,
    /// Whether POST, PATCH and the like are tried again too.
    pub retry_non_idempotent: bool,
}

/// The statuses retried by default: 408, 429, 500, 502, 503, 504.
pub open spec fn default_retry_statuses() -> Seq<u16> {
    seq![408u16, 429u16, 500u16, 502u16, 503u16, 504u16]
}

/// The default policy: one attempt, a one-second linear delay capped at
/// thirty seconds, the default statuses, idempotent methods only.
pub open spec fn is_default_retry(r: RetryConfig) -> bool {
    &&& r.attempts == 1
    &&& duration_nanos(r.delay) == 1_000_000_000
    &&& !r.exponential
    &&& r.max_delay.is_some() && duration_nanos(r.max_delay.unwrap()) == 30_000_000_000
    &&& r.retry_statuses@ == default_retry_statuses()
    &&& !r.retry_non_idempotent
}

impl Default for RetryConfig {
    fn default() -> (r: RetryConfig)
        ensures
            is_default_retry(r),
    {
        let mut statuses: Vec<u16> = Vec::new();
        statuses.push(408);
        statuses.push(429);
        statuses.push(500);
        statuses.push(502);
        statuses.push(503);
        statuses.push(504);
        assert(statuses@ =~= default_retry_statuses());
        RetryConfig {
            attempts: 1,
            delay: duration_from_secs(1),
            exponential: false,
            max_delay: Some(duration_from_secs(30)),
            retry_statuses: statuses,
            retry_non_idempotent: false,
        }
    }
}

impl RetryConfig {
    /// An exponential back-off policy: `attempts` attempts (at least one)
    /// and a delay doubling from `delay`; otherwise the defaults.
    pub fn exponential(attempts: usize, delay: Duration) -> (r: RetryConfig)
        ensures
            r.attempts == if attempts >= 1 { attempts } else { 1 },
            r.delay == delay,
            r.exponential,
            r.max_delay.is_some() && duration_nanos(r.max_delay.unwrap()) == 30_000_000_000,
            r.retry_statuses@ == default_retry_statuses(),
            !r.retry_non_idempotent,
    {
        let d = RetryConfig::default();
        RetryConfig {
            attempts: if attempts >= 1 { attempts } else { 1 },
            delay,
            exponential: true,
            ..d
        }
    }
}

/// The base URL the builder keeps: the parsed URL, with `/` added to its
/// path when the path does not end with one, so that relative endpoints
/// resolve under it.
pub open spec fn normalized_base_url(input: Seq<char>) -> core::result::Result<Seq<char>, url::ParseError> {
    match url_parse_spec(input) {
        Err(e) => Err(e),
        Ok(u) => match url_path_spec(u) {
            Err(e) => Err(e),
            Ok(p) => if p.len() > 0 && p.last() == '/' {
                Ok(u)
            } else {
                url_set_path_spec(u, p + "/"@)
            },
        },
    }
}

/// Everything a client needs before it sends a request. `S` is the shared
/// session storage and `P` the session provider, both carried as given.
#[derive(Debug, Clone)]
pub struct ClientConfig<S, P> {
    pub base_url: String,
    pub session_id: Option<String>,
    pub session_provider: Option<P>,
    /// Whether requests carry the stored session unless told otherwise.
    pub include_session: bool,
    /// The header that carries the session id, lowercased.
    pub session_header: String,
    pub session_cookie: String,
    pub timeout: Duration,
    pub headers: Headers,
    pub retry: RetryConfig,
    pub storage: Option<S>,
}

/// Builds a `ClientConfig`.
#[derive(Debug, Clone)]
pub struct ClientConfigBuilder<S, P> {
    base_url: String,
    session_id: Option<String>,
    session_provider: Option<P>,
    include_session: bool,
    session_header: String,
    session_cookie: String,
    timeout: Duration,
    headers: Headers,
    retry: RetryConfig,
    storage: Option<S>,
}

/// The message of the configuration error for a session header name that
/// `HeaderName::from_bytes` refused.
pub open spec fn bad_session_header_message() -> Seq<char> {
    "invalid session header: "@ + "invalid HTTP header name"@
}

impl<S, P> ClientConfigBuilder<S, P> {
    /// The configuration so far, as `build` gives it.
    pub closed spec fn spec_config(self) -> ClientConfig<S, P> {
        ClientConfig {
            base_url: self.base_url,
            session_id: self.session_id,
            session_provider: self.session_provider,
            include_session: self.include_session,
            session_header: self.session_header,
            session_cookie: self.session_cookie,
            timeout: self.timeout,
            headers: self.headers,
            retry: self.retry,
            storage: self.storage,
        }
    }

    /// A builder for `base_url`: no session id, provider or storage, the
    /// stored session not sent by default, the session in `x-session-id`
    /// and the cookie `session_id`, a thirty-second timeout, no default
    /// headers, and the default retry policy. A URL error comes exactly
    /// when `base_url` does not parse.
    pub fn new(base_url: &str) -> (r: Result<ClientConfigBuilder<S, P>>)
        ensures
            match r {
                Ok(b) => {
                    let c = b.spec_config();
                    &&& normalized_base_url(base_url@) == Ok::<Seq<char>, url::ParseError>(c.base_url@)
                    &&& c.session_id.is_none()
                    &&& c.session_provider.is_none()
                    &&& !c.include_session
                    &&& c.session_header@ == "x-session-id"@
                    &&& c.session_cookie@ == "session_id"@
                    &&& duration_nanos(c.timeout) == 30_000_000_000
                    &&& c.headers@ == Seq::<(Seq<char>, Seq<char>)>::empty()
                    &&& is_default_retry(c.retry)
                    &&& c.storage.is_none()
                },
                Err(FlowfullError::Url(e)) => url_parse_spec(base_url@) == Err::<Seq<char>, url::ParseError>(e)
                    && normalized_base_url(base_url@) == Err::<Seq<char>, url::ParseError>(e),
                Err(_) => false,
            },
    {
        let parsed = match url_parse(base_url) {
            Ok(u) => u,
            Err(e) => return Err(FlowfullError::Url(e)),
        };
        let path = match url_path(parsed.as_str()) {
            Ok(p) => p,
            Err(e) => return Err(FlowfullError::Url(e)),
        };
        let base = if ends_with_char(path.as_str(), '/') {
            parsed
        } else {
            let with_slash = concat(path.as_str(), "/");
            match url_set_path(parsed.as_str(), with_slash.as_str()) {
                Ok(u) => u,
                Err(e) => return Err(FlowfullError::Url(e)),
            }
        };
        Ok(ClientConfigBuilder {
            base_url: base,
            session_id: None,
            session_provider: None,
            include_session: false,
            session_header: owned("x-session-id"),
            session_cookie: owned("session_id"),
            timeout: duration_from_secs(30),
            headers: Headers::new(),
            retry: RetryConfig::default(),
            storage: None,
        })
    }

    /// A fixed session id, sent ahead of any provided or stored one.
    pub fn session_id(self, session_id: &str) -> (r: ClientConfigBuilder<S, P>)
        ensures
            r.spec_config().session_id.is_some(),
            r.spec_config().session_id.unwrap()@ == session_id@,
            r.spec_config() == (ClientConfig { session_id: r.spec_config().session_id, ..self.spec_config() }),
    {
        let mut b = self;
        b.session_id = Some(owned(session_id));
        b
    }

    /// A provider asked for the session id when there is no fixed one.
    pub fn session_provider(self, provider: P) -> (r: ClientConfigBuilder<S, P>)
        ensures
            r.spec_config() == (ClientConfig { session_provider: Some(provider), ..self.spec_config() }),
    {
        let mut b = self;
        b.session_provider = Some(provider);
        b
    }

    /// Whether requests carry the session unless told otherwise.
    pub fn include_session(self, include_session: bool) -> (r: ClientConfigBuilder<S, P>)
        ensures
            r.spec_config() == (ClientConfig { include_session, ..self.spec_config() }),
    {
        let mut b = self;
        b.include_session = include_session;
        b
    }

    /// The header that carries the session id. A name HTTP refuses is a
    /// configuration error.
    pub fn session_header(self, header: &str) -> (r: Result<ClientConfigBuilder<S, P>>)
        ensures
            match r {
                Ok(b) => valid_header_name(header@)
                    && b.spec_config().session_header@ == ascii_lower(header@)
                    && b.spec_config() == (ClientConfig { session_header: b.spec_config().session_header, ..self.spec_config() }),
                Err(FlowfullError::Config(m)) => !valid_header_name(header@) && m@ == bad_session_header_message(),
                Err(_) => false,
            },
    {
        match parse_header_name(header) {
            Ok(n) => {
                let mut b = self;
                b.session_header = n;
                Ok(b)
            },
            Err(e) => Err(FlowfullError::Config(concat("invalid session header: ", e.as_str()))),
        }
    }

    /// The cookie that carries the session id.
    pub fn session_cookie(self, cookie: &str) -> (r: ClientConfigBuilder<S, P>)
        ensures
            r.spec_config().session_cookie@ == cookie@,
            r.spec_config() == (ClientConfig { session_cookie: r.spec_config().session_cookie, ..self.spec_config() }),
    {
        let mut b = self;
        b.session_cookie = owned(cookie);
        b
    }

    /// The timeout of every request.
    pub fn timeout(self, timeout: Duration) -> (r: ClientConfigBuilder<S, P>)
        ensures
            r.spec_config() == (ClientConfig { timeout, ..self.spec_config() }),
    {
        let mut b = self;
        b.timeout = timeout;
        b
    }

    /// Adds a header sent with every request. A name or value HTTP refuses
    /// is a configuration error. The headers have room for one more (a
    /// full `HeaderMap` panics).
    pub fn header(self, key: &str, value: &str) -> (r: Result<ClientConfigBuilder<S, P>>)
        requires
            self.spec_config().headers@.len() < header_map_room(),
        ensures
            match r {
                Ok(b) => valid_header_name(key@) && valid_header_value(value@)
                    && b.spec_config().headers@ == header_insert(self.spec_config().headers@, ascii_lower(key@), value@)
                    && b.spec_config() == (ClientConfig { headers: b.spec_config().headers, ..self.spec_config() }),
                Err(FlowfullError::Config(m)) => {
                    if !valid_header_name(key@) {
                        m@ == bad_header_name_message()
                    } else {
                        !valid_header_value(value@) && m@ == "invalid header value: "@ + "failed to parse header value"@
                    }
                },
                Err(_) => false,
            },
    {
        match checked_header(key, value, "invalid header value: ") {
            Ok((name, v)) => {
                let mut b = self;
                b.headers.insert(name, v);
                Ok(b)
            },
            Err(e) => Err(e),
        }
    }

    /// Replaces the headers sent with every request.
    pub fn headers(self, headers: Headers) -> (r: ClientConfigBuilder<S, P>)
        ensures
            r.spec_config() == (ClientConfig { headers, ..self.spec_config() }),
    {
        let mut b = self;
        b.headers = headers;
        b
    }

    /// The retry policy.
    pub fn retry(self, retry: RetryConfig) -> (r: ClientConfigBuilder<S, P>)
        ensures
            r.spec_config() == (ClientConfig { retry, ..self.spec_config() }),
    {
        let mut b = self;
        b.retry = retry;
        b
    }

    /// The storage that keeps the session between runs.
    pub fn storage(self, storage: S) -> (r: ClientConfigBuilder<S, P>)
        ensures
            r.spec_config() == (ClientConfig { storage: Some(storage), ..self.spec_config() }),
    {
        let mut b = self;
        b.storage = Some(storage);
        b
    }

    /// The storage that keeps the session between runs, already shared with
    /// other owners.
    pub fn shared_storage(self, storage: S) -> (r: ClientConfigBuilder<S, P>)
        ensures
            r.spec_config() == (ClientConfig { storage: Some(storage), ..self.spec_config() }),
    {
        self.storage(storage)
    }

    /// The configuration.
    pub fn build(self) -> (r: Result<ClientConfig<S, P>>)
        ensures
            r matches Ok(c) && c == self.spec_config(),
    {
        Ok(ClientConfig {
            base_url: self.base_url,
            session_id: self.session_id,
            session_provider: self.session_provider,
            include_session: self.include_session,
            session_header: self.session_header,
            session_cookie: self.session_cookie,
            timeout: self.timeout,
            headers: self.headers,
            retry: self.retry,
            storage: self.storage,
        })
    }
}

} // verus!
