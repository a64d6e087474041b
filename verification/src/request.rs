//! Per-request options: extra headers, query pairs, session handling and a
//! timeout.

use vstd::prelude::*;

use crate::error::{FlowfullError, Result};
use crate::headers::{
    check_header_value, header_insert, header_map_room, parse_header_name, valid_entry, valid_header_name,
    valid_header_value, pairs_view, Headers,
};
use crate::text::ascii_lower;
use crate::text::{concat, owned};
use core::time::Duration;

verus! {

/// Options that apply to one request.
#[derive(Debug, Clone)]
pub struct RequestOptions {
    pub headers: Headers,
    pub query: Vec<(String, String)>,
    pub include_session: Option<bool>,
    pub session_id: Option<String>,
    pub timeout: Option<Duration>,
}

/// The message of the configuration error for a header name that
/// `HeaderName::from_bytes` refused.
pub open spec fn bad_header_name_message() -> Seq<char> {
    "invalid header name: "@ + "invalid HTTP header name"@
}

/// Validates a header pair the way `HeaderName::from_bytes` and
/// `HeaderValue::from_str` do; on success, the lowercased name and the value.
/// `value_context` names the value in the error message.
pub(crate) fn checked_header(key: &str, value: &str, value_context: &str) -> (r: Result<(String, String)>)
    ensures
        match r {
            Ok(pair) => valid_header_name(key@) && valid_header_value(value@)
                && pair.0@ == ascii_lower(key@) && pair.1@ == value@ && valid_entry((pair.0@, pair.1@)),
            Err(FlowfullError::Config(m)) => {
                if !valid_header_name(key@) {
                    m@ == bad_header_name_message()
                } else {
                    !valid_header_value(value@) && m@ == value_context@ + "failed to parse header value"@
                }
            },
            Err(_) => false,
        },
{
    let name = match parse_header_name(key) {
        Ok(n) => n,
        Err(e) => {
            let m = concat("invalid header name: ", e.as_str());
            return Err(FlowfullError::Config(m));
        },
    };
    match check_header_value(value) {
        Ok(()) => Ok((name, owned(value))),
        Err(e) => {
            let m = concat(value_context, e.as_str());
            Err(FlowfullError::Config(m))
        },
    }
}

impl RequestOptions {
    /// No extra headers or query pairs, and no session or timeout override.
    pub fn new() -> (r: RequestOptions)
        ensures
            r.headers@ == Seq::<(Seq<char>, Seq<char>)>::empty(),
            r.query@ == Seq::<(String, String)>::empty(),
            r.include_session.is_none(),
            r.session_id.is_none(),
            r.timeout.is_none(),
    {
        RequestOptions {
            headers: Headers::new(),
            query: Vec::new(),
            include_session: None,
            session_id: None,
            timeout: None,
        }
    }

    /// Sets a header for this request. A name or value that HTTP refuses is
    /// a configuration error, and the options are then dropped. The headers
    /// have room for one more (a full `HeaderMap` panics).
    pub fn header(self, key: &str, value: &str) -> (r: Result<RequestOptions>)
        requires
            self.headers@.len() < header_map_room(),
        ensures
            match r {
                Ok(o) => valid_header_name(key@) && valid_header_value(value@)
                    && o.headers@ == header_insert(self.headers@, ascii_lower(key@), value@)
                    && o.query == self.query && o.include_session == self.include_session
                    && o.session_id == self.session_id && o.timeout == self.timeout,
                Err(FlowfullError::Config(m)) => {
                    if !valid_header_name(key@) {
                        m@ == bad_header_name_message()
                    } else {
                        !valid_header_value(value@)
                            && m@ == "invalid header value for request option: "@ + "failed to parse header value"@
                    }
                },
                Err(_) => false,
            },
    {
        let pair = checked_header(key, value, "invalid header value for request option: ");
        proof {
            reveal_strlit("invalid header value for request option: ");
        }
        match pair {
            Ok((name, v)) => {
                let mut o = self;
                o.headers.insert(name, v);
                Ok(o)
            },
            Err(e) => Err(e),
        }
    }

    /// Adds a query pair after those already set.
    pub fn query(self, key: &str, value: &str) -> (r: RequestOptions)
        ensures
            pairs_view(r.query@) == pairs_view(self.query@).push((key@, value@)),
            r.headers@ == self.headers@,
            r.include_session == self.include_session,
            r.session_id == self.session_id,
            r.timeout == self.timeout,
    {
        let mut o = self;
        o.query.push((owned(key), owned(value)));
        assert(pairs_view(o.query@) =~= pairs_view(self.query@).push((key@, value@)));
        o
    }

    /// Whether this request carries the stored session, whatever the client
    /// default.
    pub fn include_session(self, include_session: bool) -> (r: RequestOptions)
        ensures
            r.include_session == Some(include_session),
            r.headers@ == self.headers@,
            r.query == self.query,
            r.session_id == self.session_id,
            r.timeout == self.timeout,
    {
        let mut o = self;
        o.include_session = Some(include_session);
        o
    }

    /// The session this request carries, in place of any stored one.
    pub fn session_id(self, session_id: &str) -> (r: RequestOptions)
        ensures
            r.session_id.is_some() && r.session_id.unwrap()@ == session_id@,
            r.headers@ == self.headers@,
            r.query == self.query,
            r.include_session == self.include_session,
            r.timeout == self.timeout,
    {
        let mut o = self;
        o.session_id = Some(owned(session_id));
        o
    }

    /// The timeout of this request, in place of the client's.
    pub fn timeout(self, timeout: Duration) -> (r: RequestOptions)
        ensures
            r.timeout == Some(timeout),
            r.headers@ == self.headers@,
            r.query == self.query,
            r.include_session == self.include_session,
            r.session_id == self.session_id,
    {
        let mut o = self;
        o.timeout = Some(timeout);
        o
    }
}

impl Default for RequestOptions {
    fn default() -> (r: RequestOptions)
        ensures
            r.headers@ == Seq::<(Seq<char>, Seq<char>)>::empty(),
            r.query@ == Seq::<(String, String)>::empty(),
            r.include_session.is_none(),
            r.session_id.is_none(),
            r.timeout.is_none(),
    {
        RequestOptions::new()
    }
}

} // verus!
