//! The decisions of the Axum authentication middleware: where a request's
//! session comes from, which client details its validation forwards, and
//! whether a user type is let through.

use vstd::prelude::*;

use crate::bridge::types::{SessionData, ValidationMode};
use crate::pieces::{first_found, split_char, split_once, split_once_char, split_pieces, texts_view, trim, trim_ws};
use crate::text::{owned, str_eq};
use std::sync::Arc;

verus! {

/// What the middleware needs: the validator (a `BridgeValidator`, or one
/// that sends its requests), the validation mode, the header that carries
/// the session, and whether a `session_id` query parameter is accepted.
#[derive(Clone)]
pub struct AxumAuthState<V> {
    pub validator: Arc<V>,
    pub validation_mode: ValidationMode,
    pub session_header: String,
    pub allow_query_session: bool,
}

impl<V> AxumAuthState<V> {
    /// Standard validation, the session in `X-Session-ID`, and no session
    /// from the query.
    pub fn new(validator: V) -> (r: AxumAuthState<V>)
        ensures
            *r.validator == validator,
            r.validation_mode == ValidationMode::Standard,
            r.session_header@ == "X-Session-ID"@,
            !r.allow_query_session,
    {
        AxumAuthState {
            validator: Arc::new(validator),
            validation_mode: ValidationMode::Standard,
            session_header: owned("X-Session-ID"),
            allow_query_session: false,
        }
    }
}

/// The value of a `session_id=value` pair, and nothing for any other
/// piece.
pub open spec fn session_pair_value(piece: Seq<char>) -> Option<Seq<char>> {
    match split_once_char(piece, '=') {
        Some(p) => if p.0 == "session_id"@ { Some(p.1) } else { None },
        None => None,
    }
}

/// How one piece of a cookie header (trimmed) or of a query (as it is)
/// gives a session.
pub open spec fn piece_rule(trimmed: bool) -> spec_fn(Seq<char>) -> Option<Seq<char>> {
    |piece: Seq<char>| if trimmed { session_pair_value(trim_ws(piece)) } else { session_pair_value(piece) }
}

/// The session of a `Cookie` header: the value of the first cookie named
/// `session_id`, its name and value split at the first `=`.
pub open spec fn cookie_session_id(header: Seq<char>) -> Option<Seq<char>> {
    first_found(split_pieces(header, ';'), piece_rule(true))
}

/// The session of a query string: the value of the first `session_id`
/// pair.
pub open spec fn query_session_id(query: Seq<char>) -> Option<Seq<char>> {
    first_found(split_pieces(query, '&'), piece_rule(false))
}

/// Where a request's session comes from, in order: the session header, the
/// `session_id` cookie, and the `session_id` query parameter where the
/// query is allowed.
pub open spec fn session_id_of(
    header: Option<Seq<char>>,
    cookie: Option<Seq<char>>,
    query: Option<Seq<char>>,
    allow_query: bool,
) -> Option<Seq<char>> {
    match header {
        Some(h) => Some(h),
        None => {
            let from_cookie = match cookie {
                Some(c) => cookie_session_id(c),
                None => None,
            };
            match from_cookie {
                Some(v) => Some(v),
                None => if allow_query {
                    match query {
                        Some(q) => query_session_id(q),
                        None => None,
                    }
                } else {
                    None
                },
            }
        },
    }
}

fn session_pair(piece: &str) -> (r: Option<String>)
    ensures
        r.deep_view() == session_pair_value(piece@),
{
    match split_once(piece, '=') {
        Some((key, value)) => {
            proof {
                reveal_strlit("session_id");
            }
            if str_eq(key.as_str(), "session_id") {
                Some(value)
            } else {
                None
            }
        },
        None => None,
    }
}

fn first_session(pieces: &Vec<String>, trimmed: bool) -> (r: Option<String>)
    ensures
        r.deep_view() == first_found(texts_view(pieces@), piece_rule(trimmed)),
{
    let ghost all = texts_view(pieces@);
    let mut i: usize = 0;
    assert(all.skip(0) =~= all);
    while i < pieces.len()
        invariant
            i <= pieces.len(),
            all == texts_view(pieces@),
            first_found(all, piece_rule(trimmed)) == first_found(all.skip(i as int), piece_rule(trimmed)),
        decreases pieces.len() - i,
    {
        let found = if trimmed {
            let t = trim(pieces[i].as_str());
            session_pair(t.as_str())
        } else {
            session_pair(pieces[i].as_str())
        };
        assert(all.skip(i as int)[0] == all[i as int]);
        assert(all.skip(i as int).drop_first() =~= all.skip(i + 1));
        if found.is_some() {
            return found;
        }
        i = i + 1;
    }
    None
}

/// The value of the first cookie named `session_id` in a `Cookie` header.
pub fn extract_session_cookie(cookie_header: &str) -> (r: Option<String>)
    ensures
        r.deep_view() == cookie_session_id(cookie_header@),
{
    let pieces = split_char(cookie_header, ';');
    first_session(&pieces, true)
}

/// The value of the first `session_id` pair of a query string.
pub fn extract_query_session(query: &str) -> (r: Option<String>)
    ensures
        r.deep_view() == query_session_id(query@),
{
    let pieces = split_char(query, '&');
    first_session(&pieces, false)
}

/// The session of a request, from the text of its session header and of
/// its `Cookie` header (where they are present and visible ASCII) and from
/// its query string: the header first, then the `session_id` cookie, then
/// the `session_id` query parameter where the state allows it.
pub fn extract_session_id<V>(
    header: Option<&str>,
    cookie: Option<&str>,
    query: Option<&str>,
    state: &AxumAuthState<V>,
) -> (r: Option<String>)
    ensures
        r.deep_view() == session_id_of(
            match header { Some(h) => Some(h@), None => None },
            match cookie { Some(c) => Some(c@), None => None },
            match query { Some(q) => Some(q@), None => None },
            state.allow_query_session,
        ),
{
    if let Some(h) = header {
        return Some(owned(h));
    }
    if let Some(c) = cookie {
        let found = extract_session_cookie(c);
        if found.is_some() {
            return found;
        }
    }
    if state.allow_query_session {
        if let Some(q) = query {
            return extract_query_session(q);
        }
    }
    None
}

/// The answer to a request that names its session: let through, or the
/// HTTP status it is refused with.
#[derive(Debug, Clone, Copy, PartialEq, Eq)]
pub enum Admission {
    /// The request goes on.
    Proceed,
    /// 401: no validated session.
    Unauthorized,
    /// 403: a validated session of a user type not allowed.
    Forbidden,
}

impl Admission {
    /// The HTTP status of a refusal, and nothing when the request goes on.
    pub fn status(self) -> (r: Option<u16>)
        ensures
            r == match self {
                Admission::Proceed => None,
                Admission::Unauthorized => Some(401u16),
                Admission::Forbidden => Some(403u16),
            },
    {
        match self {
            Admission::Proceed => None,
            Admission::Unauthorized => Some(401),
            Admission::Forbidden => Some(403),
        }
    }
}

/// The decision of `require_auth`: a request goes on when it names a
/// session and that session validates, and is unauthorized when it names
/// none (`validation` is nothing) or the validation fails.
pub fn auth_admission<T, E>(validation: Option<&core::result::Result<T, E>>) -> (r: Admission)
    ensures
        r == match validation {
            Some(Ok(_)) => Admission::Proceed,
            _ => Admission::Unauthorized,
        },
{
    match validation {
        Some(Ok(_)) => Admission::Proceed,
        _ => Admission::Unauthorized,
    }
}

/// The user type a session counts as: its own, or the empty text.
pub open spec fn effective_user_type(session: SessionData) -> Seq<char> {
    match session.user_type {
        Some(t) => t@,
        None => Seq::<char>::empty(),
    }
}

/// Whether a user type is one of the allowed ones.
pub open spec fn user_type_listed(allowed: Seq<String>, user_type: Seq<char>) -> bool {
    exists|i: int| 0 <= i < allowed.len() && allowed[i]@ == user_type
}

/// The decision of `require_user_type`: a request without a validated
/// session is unauthorized; one whose user type (the empty text when it has
/// none) is allowed goes on; any other is forbidden.
pub fn require_user_type(allowed: &Vec<String>, session: Option<&SessionData>) -> (r: Admission)
    ensures
        r == match session {
            None => Admission::Unauthorized,
            Some(s) => if user_type_listed(allowed@, effective_user_type(*s)) {
                Admission::Proceed
            } else {
                Admission::Forbidden
            },
        },
{
    let s = match session {
        None => return Admission::Unauthorized,
        Some(s) => s,
    };
    let user_type: &str = match &s.user_type {
        Some(t) => t.as_str(),
        None => "",
    };
    proof {
        reveal_strlit("");
    }
    let mut i: usize = 0;
    while i < allowed.len()
        invariant
            i <= allowed.len(),
            user_type@ == effective_user_type(*s),
            session == Some(s),
            forall|j: int| 0 <= j < i ==> allowed@[j]@ != user_type@,
        decreases allowed.len() - i,
    {
        if str_eq(allowed[i].as_str(), user_type) {
            assert(allowed@[i as int]@ == user_type@);
            return Admission::Proceed;
        }
        i = i + 1;
    }
    Admission::Forbidden
}

} // verus!
