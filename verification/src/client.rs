//! The decisions a client makes around each request: the URL it goes to,
//! the headers and session it carries, and whether and when a failed
//! attempt is repeated. The transport itself lies outside the library.

use vstd::prelude::*;

use crate::config::{
    duration_nanos, duration_saturating_mul, max_duration_nanos, nanos_of, ClientConfig,
    RetryConfig,
};
use crate::error::{FlowfullError, Result};
use vstd::arithmetic::power2::{lemma2_to64, lemma_pow2_strictly_increases, lemma_pow2_unfold, pow2};
use crate::headers::pairs_view;
use crate::request::RequestOptions;
use crate::response::{utf8_lossy, RawResponse};
use crate::text::{concat, decimal, has_prefix, owned, starts_with, trim_start, trim_start_char, u64_to_decimal};
use crate::urls::{url_append_pair, url_append_pair_spec, url_join, url_join_spec, url_parse, url_parse_spec};
use core::time::Duration;

verus! {

/// An HTTP method.
#[derive(Debug, Clone, PartialEq, Eq)]
pub enum Method {
    Get,
    Post,
    Put,
    Patch,
    Delete,
    Head,
    Options,
    Connect,
    Trace,
    /// Any other method, by name.
    Extension(String),
}

/// Whether repeating a request with this method is harmless: GET, HEAD,
/// PUT, DELETE and OPTIONS.
pub open spec fn idempotent(method: Method) -> bool {
    match method {
        Method::Get | Method::Head | Method::Put | Method::Delete | Method::Options => true,
        _ => false,
    }
}

pub fn is_idempotent(method: &Method) -> (r: bool)
    ensures
        r == idempotent(*method),
{
    match method {
        Method::Get | Method::Head | Method::Put | Method::Delete | Method::Options => true,
        _ => false,
    }
}

/// `2u32.saturating_pow(e)`: two to the power `e`, or `u32::MAX` where
/// that does not fit.
pub open spec fn saturating_two_to(e: u32) -> nat {
    if pow2(e as nat) <= u32::MAX { pow2(e as nat) } else { u32::MAX as nat }
}

/// `2u32.saturating_pow(e)`.
fn saturating_pow2(e: u32) -> (r: u32)
    ensures
        r == saturating_two_to(e),
{
    proof {
        lemma2_to64();
    }
    if e >= 32 {
        proof {
            if e > 32 {
                lemma_pow2_strictly_increases(32, e as nat);
            }
        }
        return u32::MAX;
    }
    let mut r: u32 = 1;
    let mut i: u32 = 0;
    while i < e
        invariant
            i <= e < 32,
            r == pow2(i as nat),
        decreases e - i,
    {
        proof {
            lemma_pow2_unfold((i + 1) as nat);
            lemma2_to64();
            if i + 1 < 31 {
                lemma_pow2_strictly_increases((i + 1) as nat, 31);
            }
        }
        r = r * 2;
        i = i + 1;
    }
    proof {
        lemma2_to64();
        if e < 31 {
            lemma_pow2_strictly_increases(e as nat, 31);
        }
    }
    r
}

/// The length in nanoseconds of the wait before the attempt after
/// `attempt` (counted from zero): the configured delay, doubled once per
/// earlier attempt when exponential (saturating), and no longer than the
/// maximum delay when one is set.
pub open spec fn retry_delay_nanos(retry: RetryConfig, attempt: usize) -> nat {
    let base = duration_nanos(retry.delay);
    let grown = if retry.exponential {
        let scaled = base * saturating_two_to(attempt as u32);
        if scaled <= max_duration_nanos() { scaled } else { max_duration_nanos() }
    } else {
        base
    };
    match retry.max_delay {
        Some(m) => if duration_nanos(m) < grown { duration_nanos(m) } else { grown },
        None => grown,
    }
}

/// Whether a failed attempt of a request with `method` may be repeated at
/// all under `retry`.
pub open spec fn may_repeat(retry: RetryConfig, method: Method) -> bool {
    idempotent(method) || retry.retry_non_idempotent
}

impl RetryConfig {
    /// Whether an attempt that ended in a transport error is repeated:
    /// another attempt is left and the method may be repeated.
    pub fn should_retry_error(&self, method: &Method, attempt: usize, attempts: usize) -> (r: bool)
        ensures
            r == (attempt + 1 < attempts && may_repeat(*self, *method)),
    {
        attempt < attempts && attempt + 1 < attempts && (is_idempotent(method) || self.retry_non_idempotent)
    }

    /// Whether an attempt answered with `status` is repeated: another
    /// attempt is left, the status is one of the retried ones, and the
    /// method may be repeated.
    pub fn should_retry_status(&self, method: &Method, status: u16, attempt: usize, attempts: usize) -> (r: bool)
        ensures
            r == (attempt + 1 < attempts && self.retry_statuses@.contains(status) && may_repeat(*self, *method)),
    {
        if !(attempt < attempts && attempt + 1 < attempts) {
            return false;
        }
        let mut found = false;
        let mut i: usize = 0;
        while i < self.retry_statuses.len()
            invariant
                i <= self.retry_statuses.len(),
                found == exists|j: int| 0 <= j < i && self.retry_statuses@[j] == status,
            decreases self.retry_statuses.len() - i,
        {
            if self.retry_statuses[i] == status {
                found = true;
            }
            i = i + 1;
        }
        proof {
            if found {
                let j = choose|j: int| 0 <= j < self.retry_statuses.len() && self.retry_statuses@[j] == status;
                assert(self.retry_statuses@.contains(status));
            }
        }
        found && (is_idempotent(method) || self.retry_non_idempotent)
    }

    /// The wait before the attempt after `attempt`.
    pub fn retry_delay(&self, attempt: usize) -> (d: Duration)
        ensures
            duration_nanos(d) == retry_delay_nanos(*self, attempt),
    {
        let mut delay = self.delay;
        if self.exponential {
            let factor = saturating_pow2(attempt as u32);
            delay = duration_saturating_mul(delay, factor);
        }
        match self.max_delay {
            Some(max_delay) => {
                if nanos_of(max_delay) < nanos_of(delay) {
                    max_delay
                } else {
                    delay
                }
            },
            None => delay,
        }
    }
}

/// A request being tried: which attempt comes next and what went wrong
/// last.
#[derive(Debug)]
pub struct RetryLoop {
    attempt: usize,
    attempts: usize,
    method: Method,
    last_error: Option<FlowfullError>,
}

/// What to do after an attempt.
#[derive(Debug)]
pub enum RetryStep {
    /// The request is over, with this result.
    Finished(Result<RawResponse>),
    /// Wait, then send the request again.
    Retry { wait: Duration, next: RetryLoop },
}

/// The message recorded when an attempt is answered with a status worth
/// repeating.
pub open spec fn retryable_status_message(status: u16) -> Seq<char> {
    "retryable status "@ + decimal(status as nat)
}

impl RetryLoop {
    /// The zero-based number of the attempt about to be sent.
    pub closed spec fn attempt(self) -> nat {
        self.attempt as nat
    }

    /// How many attempts the request gets in all.
    pub closed spec fn attempts(self) -> nat {
        self.attempts as nat
    }

    pub closed spec fn method(self) -> Method {
        self.method
    }

    /// The error recorded by the last failed attempt.
    pub closed spec fn last_error(self) -> Option<FlowfullError> {
        self.last_error
    }

    /// Each loop sends one attempt more than its number, and never more
    /// than it has.
    #[verifier::type_invariant]
    pub closed spec fn wf(self) -> bool {
        self.attempt < self.attempts
    }

    /// The first attempt of a request with `method`: as many attempts as
    /// the policy allows, and at least one.
    pub fn start(retry: &RetryConfig, method: Method) -> (l: RetryLoop)
        ensures
            l.wf(),
            l.attempt() == 0,
            l.attempts() == if retry.attempts >= 1 { retry.attempts as nat } else { 1 },
            l.method() == method,
            l.last_error().is_none(),
    {
        RetryLoop {
            attempt: 0,
            attempts: if retry.attempts >= 1 { retry.attempts } else { 1 },
            method,
            last_error: None,
        }
    }

    /// Judges the outcome of the current attempt: a response with a status
    /// worth repeating, or a transport error, is recorded and the request
    /// is sent again after the back-off delay, while attempts are left and
    /// the method may be repeated; anything else ends the request with
    /// that outcome.
    pub fn on_outcome(self, retry: &RetryConfig, outcome: Result<RawResponse>) -> (step: RetryStep)
        ensures
            self.wf(),
            match step {
                RetryStep::Retry { wait, next } => {
                    &&& self.attempt() + 1 < self.attempts()
                    &&& may_repeat(*retry, self.method())
                    &&& next.wf()
                    &&& next.attempt() == self.attempt() + 1
                    &&& next.attempts() == self.attempts()
                    &&& next.method() == self.method()
                    &&& duration_nanos(wait) == retry_delay_nanos(*retry, self.attempt() as usize)
                    &&& match outcome {
                        Ok(resp) => retry.retry_statuses@.contains(resp.status) && (next.last_error() matches Some(
                            FlowfullError::Api { status, message, body },
                        ) && status == resp.status && message@ == retryable_status_message(resp.status)
                            && body.is_some() && body.unwrap()@ == utf8_lossy(resp.body@)),
                        Err(e) => next.last_error() == Some(e),
                    }
                },
                RetryStep::Finished(r) => match outcome {
                    Ok(resp) => !(self.attempt() + 1 < self.attempts()
                        && retry.retry_statuses@.contains(resp.status) && may_repeat(*retry, self.method()))
                        && r == Ok::<RawResponse, FlowfullError>(resp),
                    Err(e) => !(self.attempt() + 1 < self.attempts() && may_repeat(*retry, self.method()))
                        && r == Err::<RawResponse, FlowfullError>(e),
                },
            },
    {
        proof {
            use_type_invariant(&self);
        }
        let attempt = self.attempt;
        let attempts = self.attempts;
        let method = self.method;
        let last_error = match outcome {
            Ok(resp) => {
                if retry.should_retry_status(&method, resp.status, attempt, attempts) {
                    let prefix = owned("retryable status ");
                    let digits = u64_to_decimal(resp.status as u64);
                    let message = concat(prefix.as_str(), digits.as_str());
                    Some(FlowfullError::Api { status: resp.status, message, body: Some(resp.text()) })
                } else {
                    return RetryStep::Finished(Ok(resp));
                }
            },
            Err(e) => {
                if retry.should_retry_error(&method, attempt, attempts) {
                    Some(e)
                } else {
                    return RetryStep::Finished(Err(e));
                }
            },
        };
        if attempt + 1 < attempts {
            RetryStep::Retry {
                wait: retry.retry_delay(attempt),
                next: RetryLoop { attempt: attempt + 1, attempts, method, last_error },
            }
        } else {
            // not reached: an outcome is only recorded while attempts are left
            match last_error {
                Some(e) => RetryStep::Finished(Err(e)),
                None => RetryStep::Finished(Err(FlowfullError::RequestFailed)),
            }
        }
    }
}

/// How many attempts a policy allows a request: its `attempts`, and at
/// least one.
pub open spec fn allowed_attempts(retry: RetryConfig) -> nat {
    if retry.attempts >= 1 { retry.attempts as nat } else { 1 }
}

/// Whether `run` is the loops of one request, in order: the first as
/// `start` gives it, and each next one as a `Retry` of `on_outcome` on the
/// one before gives it. Each loop of a run sends one attempt.
pub open spec fn is_run(retry: RetryConfig, run: Seq<RetryLoop>) -> bool {
    &&& run.len() > 0
    &&& run[0].attempt() == 0
    &&& run[0].attempts() == allowed_attempts(retry)
    &&& forall|i: int| 0 <= i < run.len() ==> (#[trigger] run[i]).wf()
    &&& forall|i: int|
        1 <= i < run.len() ==> (#[trigger] run[i]).attempt() == run[i - 1].attempt() + 1
            && run[i].attempts() == run[i - 1].attempts()
}

proof fn lemma_run_position(retry: RetryConfig, run: Seq<RetryLoop>, i: int)
    requires
        is_run(retry, run),
        0 <= i < run.len(),
    ensures
        run[i].attempt() == i,
        run[i].attempts() == allowed_attempts(retry),
    decreases i,
{
    if i > 0 {
        lemma_run_position(retry, run, i - 1);
        assert(run[i].attempt() == run[i - 1].attempt() + 1);
    }
}

/// A request is sent at most as many times as its policy allows: a run of
/// the retry loop has no more loops than `allowed_attempts`.
pub proof fn lemma_run_sends_at_most_allowed(retry: RetryConfig, run: Seq<RetryLoop>)
    requires
        is_run(retry, run),
    ensures
        run.len() <= allowed_attempts(retry),
{
    let last = run.len() - 1;
    lemma_run_position(retry, run, last);
    assert(run[last].wf());
}

/// The wait before a later attempt is never shorter than the wait before an
/// earlier one. Attempt numbers are read as a `u32` by `retry_delay`, so
/// the law is stated for numbers up to `u32::MAX`.
pub proof fn lemma_delay_never_shrinks(retry: RetryConfig, a: usize, b: usize)
    requires
        a <= b,
        b <= u32::MAX,
    ensures
        retry_delay_nanos(retry, a) <= retry_delay_nanos(retry, b),
{
    let ea = a as u32;
    let eb = b as u32;
    assert(ea as nat <= eb as nat);
    if ea < eb {
        lemma_pow2_strictly_increases(ea as nat, eb as nat);
    }
    let sa = saturating_two_to(ea);
    let sb = saturating_two_to(eb);
    assert(sa <= sb);
    let base = duration_nanos(retry.delay);
    assert(base * sa <= base * sb) by (nonlinear_arith)
        requires
            sa <= sb,
    ;
}

/// A set maximum delay bounds every wait, for a linear policy as for an
/// exponential one; a linear policy without a maximum waits its delay.
pub proof fn lemma_delay_capped(retry: RetryConfig, attempt: usize)
    ensures
        retry.max_delay matches Some(m) ==> retry_delay_nanos(retry, attempt) <= duration_nanos(m),
        !retry.exponential && retry.max_delay.is_none() ==> retry_delay_nanos(retry, attempt)
            == duration_nanos(retry.delay),
{
}

/// Where the session of a request comes from.
#[derive(Debug, Clone, PartialEq, Eq)]
pub enum SessionSource {
    /// The session the request options name.
    Given(String),
    /// The session manager's current session.
    Lookup,
    /// The request goes without a session.
    Omitted,
}

/// The header pairs a request carries, in the order they are appended: the
/// client's headers, the request's headers, then the session header when
/// the session is set and not empty.
pub open spec fn request_header_list<S, P>(
    config: ClientConfig<S, P>,
    options: RequestOptions,
    session: Option<Seq<char>>,
) -> Seq<(Seq<char>, Seq<char>)> {
    config.headers@ + options.headers@ + match session {
        Some(id) => if id.len() > 0 { seq![(config.session_header@, id)] } else { Seq::empty() },
        None => Seq::empty(),
    }
}

/// Whether an absolute URL stands in place of an endpoint.
pub open spec fn is_absolute_endpoint(endpoint: Seq<char>) -> bool {
    has_prefix(endpoint, "http://"@) || has_prefix(endpoint, "https://"@)
}

/// The URL of an endpoint: an absolute URL parsed as it is, anything else
/// joined to the base URL without its leading slashes.
pub open spec fn endpoint_url(base: Seq<char>, endpoint: Seq<char>) -> core::result::Result<Seq<char>, url::ParseError> {
    if is_absolute_endpoint(endpoint) {
        url_parse_spec(endpoint)
    } else {
        url_join_spec(base, trim_start_char(endpoint, '/'))
    }
}

/// `url` with the query pairs added in order.
pub open spec fn with_query_pairs(
    url: core::result::Result<Seq<char>, url::ParseError>,
    pairs: Seq<(Seq<char>, Seq<char>)>,
) -> core::result::Result<Seq<char>, url::ParseError>
    decreases pairs.len(),
{
    if pairs.len() == 0 {
        url
    } else {
        match with_query_pairs(url, pairs.drop_last()) {
            Err(e) => Err(e),
            Ok(u) => url_append_pair_spec(u, pairs.last().0, pairs.last().1),
        }
    }
}

impl<S, P> ClientConfig<S, P> {
    /// Where a request with `options` takes its session from: the session
    /// the options name; else, when the options or else the client say so,
    /// the session manager; else nowhere.
    pub fn session_source(&self, options: &RequestOptions) -> (r: SessionSource)
        ensures
            match options.session_id {
                Some(id) => r matches SessionSource::Given(s) && s@ == id@,
                None => {
                    let with_session = match options.include_session {
                        Some(b) => b,
                        None => self.include_session,
                    };
                    if with_session { r == SessionSource::Lookup } else { r == SessionSource::Omitted }
                },
            },
    {
        match &options.session_id {
            Some(id) => SessionSource::Given(id.clone()),
            None => {
                let with_session = match options.include_session {
                    Some(b) => b,
                    None => self.include_session,
                };
                if with_session {
                    SessionSource::Lookup
                } else {
                    SessionSource::Omitted
                }
            },
        }
    }

    /// The headers of a request with `options` and the session `session`.
    pub fn request_headers(&self, options: &RequestOptions, session: Option<&str>) -> (r: Vec<(String, String)>)
        ensures
            pairs_view(r@) == request_header_list(
                *self,
                *options,
                match session {
                    Some(s) => Some(s@),
                    None => None,
                },
            ),
    {
        let mut out: Vec<(String, String)> = Vec::new();
        let config_headers = self.headers.entries();
        let option_headers = options.headers.entries();
        let mut i: usize = 0;
        while i < config_headers.len()
            invariant
                i <= config_headers.len(),
                pairs_view(config_headers@) == self.headers@,
                pairs_view(out@) == self.headers@.take(i as int),
            decreases config_headers.len() - i,
        {
            let ghost before = out@;
            out.push((config_headers[i].0.clone(), config_headers[i].1.clone()));
            assert(pairs_view(out@) =~= pairs_view(before).push(self.headers@[i as int]));
            assert(self.headers@.take(i + 1) =~= self.headers@.take(i as int).push(self.headers@[i as int]));
            i = i + 1;
        }
        assert(self.headers@.take(config_headers.len() as int) =~= self.headers@);
        let mut j: usize = 0;
        while j < option_headers.len()
            invariant
                j <= option_headers.len(),
                pairs_view(option_headers@) == options.headers@,
                pairs_view(out@) == self.headers@ + options.headers@.take(j as int),
            decreases option_headers.len() - j,
        {
            let ghost before = out@;
            out.push((option_headers[j].0.clone(), option_headers[j].1.clone()));
            assert(pairs_view(out@) =~= pairs_view(before).push(options.headers@[j as int]));
            assert(options.headers@.take(j + 1) =~= options.headers@.take(j as int).push(options.headers@[j as int]));
            j = j + 1;
        }
        assert(options.headers@.take(option_headers.len() as int) =~= options.headers@);
        let ghost before = out@;
        match session {
            Some(id) => {
                if !id.is_empty() {
                    out.push((self.session_header.clone(), owned(id)));
                    assert(pairs_view(out@) =~= pairs_view(before) + seq![(self.session_header@, id@)]);
                } else {
                    assert(pairs_view(out@) =~= pairs_view(before) + Seq::<(Seq<char>, Seq<char>)>::empty());
                }
            },
            None => {
                assert(pairs_view(out@) =~= pairs_view(before) + Seq::<(Seq<char>, Seq<char>)>::empty());
            },
        }
        out
    }

    /// The URL of a request to `endpoint` with the query pairs of `options`.
    /// A URL error comes exactly when the endpoint does not parse (an
    /// absolute one) or does not join to the base URL (a relative one);
    /// adding the query pairs does not fail.
    pub fn build_url(&self, endpoint: &str, options: &RequestOptions) -> (r: Result<String>)
        ensures
            match r {
                Ok(u) => with_query_pairs(endpoint_url(self.base_url@, endpoint@), pairs_view(options.query@))
                    == Ok::<Seq<char>, url::ParseError>(u@),
                Err(FlowfullError::Url(e)) => endpoint_url(self.base_url@, endpoint@) == Err::<Seq<char>, url::ParseError>(e)
                    && with_query_pairs(endpoint_url(self.base_url@, endpoint@), pairs_view(options.query@))
                    == Err::<Seq<char>, url::ParseError>(e),
                Err(_) => false,
            },
    {
        let absolute = starts_with(endpoint, "http://") || starts_with(endpoint, "https://");
        let first = if absolute {
            url_parse(endpoint)
        } else {
            let relative = trim_start(endpoint, '/');
            url_join(self.base_url.as_str(), relative.as_str())
        };
        let mut url = match first {
            Ok(u) => u,
            Err(e) => {
                proof {
                    lemma_error_stays(endpoint_url(self.base_url@, endpoint@), pairs_view(options.query@), e);
                }
                return Err(FlowfullError::Url(e));
            },
        };
        let ghost pairs = pairs_view(options.query@);
        let ghost start = endpoint_url(self.base_url@, endpoint@);
        let mut i: usize = 0;
        while i < options.query.len()
            invariant
                i <= options.query.len(),
                pairs == pairs_view(options.query@),
                start == endpoint_url(self.base_url@, endpoint@),
                with_query_pairs(start, pairs.take(i as int)) == Ok::<Seq<char>, url::ParseError>(url@),
                url_parse_spec(url@) == Ok::<Seq<char>, url::ParseError>(url@),
            decreases options.query.len() - i,
        {
            proof {
                assert(pairs.take(i + 1).drop_last() == pairs.take(i as int));
                assert(pairs.take(i + 1).last() == pairs[i as int]);
            }
            match url_append_pair(url.as_str(), options.query[i].0.as_str(), options.query[i].1.as_str()) {
                Ok(u) => {
                    url = u;
                },
                Err(e) => {
                    proof {
                        lemma_error_stays_from(start, pairs, (i + 1) as int, e);
                    }
                    return Err(FlowfullError::Url(e));
                },
            }
            i = i + 1;
        }
        assert(pairs.take(options.query.len() as int) =~= pairs);
        Ok(url)
    }
}

/// Once adding query pairs has failed, adding more keeps the error.
proof fn lemma_error_stays_from(
    url: core::result::Result<Seq<char>, url::ParseError>,
    pairs: Seq<(Seq<char>, Seq<char>)>,
    k: int,
    e: url::ParseError,
)
    requires
        0 <= k <= pairs.len(),
        with_query_pairs(url, pairs.take(k)) == Err::<Seq<char>, url::ParseError>(e),
    ensures
        with_query_pairs(url, pairs) == Err::<Seq<char>, url::ParseError>(e),
    decreases pairs.len() - k,
{
    if k < pairs.len() {
        assert(pairs.take(k + 1).drop_last() == pairs.take(k));
        lemma_error_stays_from(url, pairs, k + 1, e);
    } else {
        assert(pairs.take(k) == pairs);
    }
}

proof fn lemma_error_stays(
    url: core::result::Result<Seq<char>, url::ParseError>,
    pairs: Seq<(Seq<char>, Seq<char>)>,
    e: url::ParseError,
)
    requires
        url == Err::<Seq<char>, url::ParseError>(e),
    ensures
        with_query_pairs(url, pairs) == Err::<Seq<char>, url::ParseError>(e),
{
    assert(pairs.take(0) =~= Seq::<(Seq<char>, Seq<char>)>::empty());
    lemma_error_stays_from(url, pairs, 0, e);
}

} // verus!
