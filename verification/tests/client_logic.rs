use std::time::Duration;

use flowfull::client::{is_idempotent, Method, RetryLoop, RetryStep, SessionSource};
use flowfull::json::JsonValue;
use flowfull::response::{check_status, is_envelope, select_payload, Payload};
use flowfull::{
    ApiResponse, ClientConfig, ClientConfigBuilder, FlowfullError, RawResponse, RequestOptions,
    RetryConfig,
};

type Config = ClientConfig<(), ()>;

fn builder(base: &str) -> ClientConfigBuilder<(), ()> {
    ClientConfigBuilder::new(base).unwrap()
}

fn config(base: &str) -> Config {
    builder(base).build().unwrap()
}

fn response(status: u16, body: &str) -> RawResponse {
    RawResponse { status, headers: Vec::new(), body: body.as_bytes().to_vec() }
}

fn pairs(list: &[(&str, &str)]) -> Vec<(String, String)> {
    list.iter().map(|(k, v)| (k.to_string(), v.to_string())).collect()
}

#[test]
fn builder_defaults_are_backend_safe() {
    let c = config("https://api.example.com");
    assert_eq!(c.base_url, "https://api.example.com/");
    assert!(!c.include_session);
    assert_eq!(c.session_header, "x-session-id");
    assert_eq!(c.session_cookie, "session_id");
    assert_eq!(c.timeout, Duration::from_secs(30));
    assert_eq!(c.headers.len(), 0);
    assert!(c.session_id.is_none());
    assert_eq!(c.retry.attempts, 1);
    assert_eq!(c.retry.delay, Duration::from_secs(1));
    assert!(!c.retry.exponential);
    assert_eq!(c.retry.max_delay, Some(Duration::from_secs(30)));
    assert_eq!(c.retry.retry_statuses, vec![408, 429, 500, 502, 503, 504]);
    assert!(!c.retry.retry_non_idempotent);
}

#[test]
fn base_url_path_gets_a_trailing_slash() {
    assert_eq!(config("https://api.example.com/v1").base_url, "https://api.example.com/v1/");
    assert_eq!(config("https://api.example.com/v1/").base_url, "https://api.example.com/v1/");
    assert!(matches!(ClientConfigBuilder::<(), ()>::new("not a url"), Err(FlowfullError::Url(_))));
}

#[test]
fn urls_join_relative_endpoints_and_keep_absolute_ones() {
    let c = config("https://api.example.com/v1");
    let plain = RequestOptions::new();
    assert_eq!(c.build_url("/users", &plain).unwrap(), "https://api.example.com/v1/users");
    assert_eq!(c.build_url("users/7", &plain).unwrap(), "https://api.example.com/v1/users/7");
    assert_eq!(
        c.build_url("https://other.example.com/x", &plain).unwrap(),
        "https://other.example.com/x"
    );
    let options = RequestOptions::new().query("page", "1").query("q", "a b");
    assert_eq!(
        c.build_url("/search", &options).unwrap(),
        "https://api.example.com/v1/search?page=1&q=a+b"
    );
}

#[test]
fn session_source_follows_options_then_client() {
    let c = config("https://api.example.com");
    assert_eq!(c.session_source(&RequestOptions::new()), SessionSource::Omitted);
    assert_eq!(
        c.session_source(&RequestOptions::new().include_session(true)),
        SessionSource::Lookup
    );
    assert_eq!(
        c.session_source(&RequestOptions::new().session_id("ses_9")),
        SessionSource::Given("ses_9".to_string())
    );
    let with = builder("https://api.example.com").include_session(true).build().unwrap();
    assert_eq!(with.session_source(&RequestOptions::new()), SessionSource::Lookup);
    assert_eq!(
        with.session_source(&RequestOptions::new().include_session(false)),
        SessionSource::Omitted
    );
}

#[test]
fn request_headers_come_in_order_with_the_session_last() {
    let c = builder("https://api.example.com")
        .header("X-Api-Key", "k1")
        .unwrap()
        .session_header("X-Custom-Session")
        .unwrap()
        .build()
        .unwrap();
    let options = RequestOptions::new().header("X-Trace", "t1").unwrap();
    assert_eq!(
        c.request_headers(&options, Some("ses")),
        pairs(&[("x-api-key", "k1"), ("x-trace", "t1"), ("x-custom-session", "ses")])
    );
    assert_eq!(c.request_headers(&options, Some("")), pairs(&[("x-api-key", "k1"), ("x-trace", "t1")]));
    assert_eq!(c.request_headers(&options, None), pairs(&[("x-api-key", "k1"), ("x-trace", "t1")]));
}

#[test]
fn bad_headers_are_configuration_errors() {
    match builder("https://api.example.com").header("bad name", "v") {
        Err(FlowfullError::Config(m)) => assert_eq!(m, "invalid header name: invalid HTTP header name"),
        other => panic!("{:?}", other.map(|_| ())),
    }
    match builder("https://api.example.com").header("x-ok", "line\nbreak") {
        Err(FlowfullError::Config(m)) => assert_eq!(m, "invalid header value: failed to parse header value"),
        other => panic!("{:?}", other.map(|_| ())),
    }
    match builder("https://api.example.com").session_header("") {
        Err(FlowfullError::Config(m)) => assert_eq!(m, "invalid session header: invalid HTTP header name"),
        other => panic!("{:?}", other.map(|_| ())),
    }
    match RequestOptions::new().header("x-ok", "\u{7f}") {
        Err(FlowfullError::Config(m)) => {
            assert_eq!(m, "invalid header value for request option: failed to parse header value")
        }
        other => panic!("{:?}", other.map(|_| ())),
    }
}

#[test]
fn header_set_twice_keeps_the_last_value() {
    let c = builder("https://api.example.com")
        .header("X-A", "1")
        .unwrap()
        .header("x-a", "2")
        .unwrap()
        .build()
        .unwrap();
    assert_eq!(c.headers.get("x-a").as_deref(), Some("2"));
    assert_eq!(c.headers.get("X-A").as_deref(), Some("2"));
    assert_eq!(c.headers.get("bad name"), None);
    assert_eq!(c.headers.entries(), pairs(&[("x-a", "2")]));
    assert_eq!(c.headers.len(), 1);
}

#[test]
fn idempotent_methods() {
    for m in [Method::Get, Method::Head, Method::Put, Method::Delete, Method::Options] {
        assert!(is_idempotent(&m));
    }
    for m in [Method::Post, Method::Patch, Method::Connect, Method::Trace, Method::Extension("X".to_string())] {
        assert!(!is_idempotent(&m));
    }
}

#[test]
fn retry_delay_doubles_up_to_the_cap() {
    let r = RetryConfig::exponential(3, Duration::from_millis(100));
    assert_eq!(r.retry_delay(0), Duration::from_millis(100));
    assert_eq!(r.retry_delay(1), Duration::from_millis(200));
    assert_eq!(r.retry_delay(3), Duration::from_millis(800));
    assert_eq!(r.retry_delay(10), Duration::from_secs(30));
    assert_eq!(r.retry_delay(64), Duration::from_secs(30));
    let linear = RetryConfig::default();
    assert_eq!(linear.retry_delay(5), Duration::from_secs(1));
    assert_eq!(RetryConfig::exponential(0, Duration::from_millis(1)).attempts, 1);
}

#[test]
fn retry_decisions() {
    let r = RetryConfig::exponential(3, Duration::from_millis(100));
    assert!(r.should_retry_status(&Method::Get, 503, 0, 3));
    assert!(!r.should_retry_status(&Method::Get, 404, 0, 3));
    assert!(!r.should_retry_status(&Method::Get, 503, 2, 3));
    assert!(!r.should_retry_status(&Method::Post, 503, 0, 3));
    assert!(r.should_retry_error(&Method::Get, 1, 3));
    assert!(!r.should_retry_error(&Method::Post, 0, 3));
    let mut any = r.clone();
    any.retry_non_idempotent = true;
    assert!(any.should_retry_error(&Method::Post, 0, 3));
}

#[test]
fn retry_loop_repeats_retryable_statuses_then_gives_the_last_answer() {
    let r = RetryConfig::exponential(3, Duration::from_millis(100));
    let first = RetryLoop::start(&r, Method::Get);
    let second = match first.on_outcome(&r, Ok(response(503, "busy"))) {
        RetryStep::Retry { wait, next } => {
            assert_eq!(wait, Duration::from_millis(100));
            next
        }
        RetryStep::Finished(_) => panic!("expected a retry"),
    };
    let third = match second.on_outcome(&r, Ok(response(502, "bad gateway"))) {
        RetryStep::Retry { wait, next } => {
            assert_eq!(wait, Duration::from_millis(200));
            next
        }
        RetryStep::Finished(_) => panic!("expected a retry"),
    };
    match third.on_outcome(&r, Ok(response(503, "still busy"))) {
        RetryStep::Finished(Ok(resp)) => {
            assert_eq!(resp.status, 503);
            assert_eq!(resp.text(), "still busy");
        }
        _ => panic!("expected the last answer"),
    }
}

#[test]
fn retry_loop_ends_at_once_for_success_and_for_post() {
    let r = RetryConfig::exponential(3, Duration::from_millis(100));
    match RetryLoop::start(&r, Method::Get).on_outcome(&r, Ok(response(200, "{}"))) {
        RetryStep::Finished(Ok(resp)) => assert_eq!(resp.status, 200),
        _ => panic!("expected the answer"),
    }
    match RetryLoop::start(&r, Method::Post).on_outcome(&r, Ok(response(503, "busy"))) {
        RetryStep::Finished(Ok(resp)) => assert_eq!(resp.status, 503),
        _ => panic!("expected the answer"),
    }
    match RetryLoop::start(&RetryConfig::default(), Method::Get)
        .on_outcome(&RetryConfig::default(), Err(FlowfullError::Session("down".to_string())))
    {
        RetryStep::Finished(Err(FlowfullError::Session(m))) => assert_eq!(m, "down"),
        _ => panic!("expected the error"),
    }
}

#[test]
fn status_outside_2xx_is_an_api_error() {
    assert!(check_status(&response(204, "")).is_ok());
    match check_status(&response(404, "not found")) {
        Err(FlowfullError::Api { status, message, body }) => {
            assert_eq!(status, 404);
            assert_eq!(message, "not found");
            assert_eq!(body, Some("not found".to_string()));
        }
        other => panic!("{other:?}"),
    }
    assert!(check_status(&response(300, "")).is_err());
    assert_eq!(response(200, "caf\u{e9}").text(), "caf\u{e9}");
    let invalid = RawResponse { status: 200, headers: Vec::new(), body: vec![0x61, 0xff, 0x62] };
    assert_eq!(invalid.text(), "a\u{fffd}b");
}

fn envelope(success: bool, data: Option<u32>, error: Option<&str>, message: Option<&str>) -> ApiResponse<u32> {
    ApiResponse {
        success,
        data,
        error: error.map(|s| s.to_string()),
        message: message.map(|s| s.to_string()),
        status: None,
        meta: None,
    }
}

#[test]
fn envelopes_select_data_or_fail() {
    assert!(matches!(select_payload::<u32>(200, "{}".to_string(), None), Ok(Payload::Whole)));
    assert!(matches!(
        select_payload(200, "b".to_string(), Some(envelope(true, Some(7), None, None))),
        Ok(Payload::Data(7))
    ));
    assert!(matches!(
        select_payload(200, "b".to_string(), Some(envelope(true, None, None, None))),
        Ok(Payload::Whole)
    ));
    let cases = [
        (envelope(false, None, Some("bad"), Some("msg")), "bad"),
        (envelope(false, None, None, Some("msg")), "msg"),
        (envelope(false, Some(1), None, None), "request failed"),
    ];
    for (env, expected) in cases {
        match select_payload(201, "body".to_string(), Some(env)) {
            Err(FlowfullError::Api { status, message, body }) => {
                assert_eq!(status, 201);
                assert_eq!(message, expected);
                assert_eq!(body, Some("body".to_string()));
            }
            other => panic!("{other:?}"),
        }
    }
}

#[test]
fn envelopes_are_objects_with_a_success_member() {
    let envelope = JsonValue::Object(vec![("success".to_string(), JsonValue::from_bool(false))]);
    assert!(is_envelope(&envelope));
    let plain = JsonValue::Object(vec![("data".to_string(), JsonValue::Null)]);
    assert!(!is_envelope(&plain));
    assert!(!is_envelope(&JsonValue::Array(vec![])));
}

#[test]
fn a_base_that_cannot_take_relative_endpoints_fails_only_on_join() {
    let c = config("mailto:someone@example.com");
    assert!(matches!(c.build_url("/users", &RequestOptions::new()), Err(FlowfullError::Url(_))));
    let absolute = c.build_url("https://api.example.com/x", &RequestOptions::new().query("a", "1"));
    assert_eq!(absolute.unwrap(), "https://api.example.com/x?a=1");
}
