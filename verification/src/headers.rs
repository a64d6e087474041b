//! HTTP headers in a `HeaderMap`, their contents as an ordered list with the
//! replacement rule of `HeaderMap::insert`, and the validity rules of header
//! names and values.

use vstd::prelude::*;

use crate::text::ascii_lower;

verus! {

/// The contents of a list of string pairs.
pub open spec fn pairs_view(s: Seq<(String, String)>) -> Seq<(Seq<char>, Seq<char>)> {
    Seq::new(s.len(), |i: int| (s[i].0@, s[i].1@))
}

/// `s` without the entries named `name`.
pub open spec fn remove_named(s: Seq<(Seq<char>, Seq<char>)>, name: Seq<char>) -> Seq<(Seq<char>, Seq<char>)>
    decreases s.len(),
{
    if s.len() == 0 {
        s
    } else if s[0].0 == name {
        remove_named(s.drop_first(), name)
    } else {
        seq![s[0]] + remove_named(s.drop_first(), name)
    }
}

/// `HeaderMap::insert`: the first entry named `name` takes the value
/// `value` in its place and every later entry of that name goes; with no
/// such entry, the pair is added at the end.
pub open spec fn header_insert(s: Seq<(Seq<char>, Seq<char>)>, name: Seq<char>, value: Seq<char>) -> Seq<(Seq<char>, Seq<char>)>
    decreases s.len(),
{
    if s.len() == 0 {
        seq![(name, value)]
    } else if s[0].0 == name {
        seq![(name, value)] + remove_named(s.drop_first(), name)
    } else {
        seq![s[0]] + header_insert(s.drop_first(), name, value)
    }
}

/// The value of the first entry named `name`.
pub open spec fn header_get(s: Seq<(Seq<char>, Seq<char>)>, name: Seq<char>) -> Option<Seq<char>>
    decreases s.len(),
{
    if s.len() == 0 {
        None
    } else if s[0].0 == name {
        Some(s[0].1)
    } else {
        header_get(s.drop_first(), name)
    }
}

/// The characters HTTP allows in a header name (RFC 7230 `tchar`).
pub open spec fn is_token_char(c: char) -> bool {
    ||| ('a' <= c && c <= 'z')
    ||| ('A' <= c && c <= 'Z')
    ||| ('0' <= c && c <= '9')
    ||| c == '!' || c == '#' || c == '$' || c == '%' || c == '&' || c == '\'' || c == '*'
    ||| c == '+' || c == '-' || c == '.' || c == '^' || c == '_' || c == '`' || c == '|' || c == '~'
}

/// Whether `HeaderName::from_bytes` accepts the bytes of `s`: between one
/// and 65535 characters, each a token character.
pub open spec fn valid_header_name(s: Seq<char>) -> bool {
    &&& 1 <= s.len() <= 65535
    &&& forall|i: int| 0 <= i < s.len() ==> is_token_char(#[trigger] s[i])
}

/// Whether `HeaderValue::from_str` accepts `s`: no control character other
/// than a tab, and no DEL.
pub open spec fn valid_header_value(s: Seq<char>) -> bool {
    forall|i: int| 0 <= i < s.len() ==> (#[trigger] s[i] == '\t' || (s[i] as u32 >= 32 && s[i] as u32 != 127))
}

/// `HeaderName::from_bytes` on the bytes of `name`, then `HeaderName::as_str`.
/// The `http` source accepts exactly the names of `valid_header_name` and
/// stores them lowercased; its error displays as "invalid HTTP header name".
#[verifier::external_body]
pub(crate) fn parse_header_name(name: &str) -> (r: core::result::Result<String, String>)
    ensures
        match r {
            Ok(n) => valid_header_name(name@) && n@ == ascii_lower(name@) && valid_header_name(n@)
                && ascii_lower(n@) == n@,
            Err(e) => !valid_header_name(name@) && e@ == "invalid HTTP header name"@,
        },
{
    match reqwest::header::HeaderName::from_bytes(name.as_bytes()) {
        Ok(n) => Ok(n.as_str().to_string()),
        Err(e) => Err(e.to_string()),
    }
}

/// `HeaderValue::from_str`. The `http` source accepts exactly the strings of
/// `valid_header_value`, keeps their bytes, and its error displays as
/// "failed to parse header value".
#[verifier::external_body]
pub(crate) fn check_header_value(value: &str) -> (r: core::result::Result<(), String>)
    ensures
        match r {
            Ok(_) => valid_header_value(value@),
            Err(e) => !valid_header_value(value@) && e@ == "failed to parse header value"@,
        },
{
    match reqwest::header::HeaderValue::from_str(value) {
        Ok(_) => Ok(()),
        Err(e) => Err(e.to_string()),
    }
}

#[verifier::external_type_specification]
#[verifier::external_body]
pub struct ExHeaderValue(reqwest::header::HeaderValue);

#[verifier::external_type_specification]
#[verifier::external_body]
#[verifier::reject_recursive_types(T)]
pub struct ExHeaderMap<T>(reqwest::header::HeaderMap<T>);

/// The entries of a `HeaderMap` in its iteration order: each name, as
/// `HeaderName::as_str` gives it, with the text of its value (its bytes read
/// as UTF-8, lossily).
pub uninterp spec fn header_map_entries(map: reqwest::header::HeaderMap) -> Seq<(Seq<char>, Seq<char>)>;

/// How many entries a `HeaderMap` surely has room for. `HeaderMap::insert`
/// panics only when the map cannot grow, and the `http` source lets it grow
/// while it holds fewer than 6554 names.
pub open spec fn header_map_room() -> nat {
    6554
}

/// Whether a pair can stand in a `HeaderMap`: a valid name in lowercase,
/// with a valid value.
pub open spec fn valid_entry(e: (Seq<char>, Seq<char>)) -> bool {
    valid_header_name(e.0) && ascii_lower(e.0) == e.0 && valid_header_value(e.1)
}

/// Whether every pair of `s` can stand in a `HeaderMap`.
pub open spec fn all_valid(s: Seq<(Seq<char>, Seq<char>)>) -> bool {
    forall|i: int| 0 <= i < s.len() ==> valid_entry(#[trigger] s[i])
}

/// `HeaderMap::new`: an empty map.
#[verifier::external_body]
fn map_new() -> (m: reqwest::header::HeaderMap)
    ensures
        header_map_entries(m) == Seq::<(Seq<char>, Seq<char>)>::empty(),
{
    reqwest::header::HeaderMap::new()
}

/// `HeaderMap::clone`: a map with the same entries in the same order.
#[verifier::external_body]
fn map_clone(m: &reqwest::header::HeaderMap) -> (r: reqwest::header::HeaderMap)
    ensures
        header_map_entries(r) == header_map_entries(*m),
{
    m.clone()
}

/// `HeaderMap::insert` of `value` under `name`: the first entry of that
/// name takes the value in its place and the others of that name go; with
/// none, the entry is added at the end. The pair is valid, so building the
/// `HeaderName` and `HeaderValue` succeeds; the map has room, so it does not
/// panic.
#[verifier::external_body]
fn map_insert(m: &mut reqwest::header::HeaderMap, name: &str, value: &str)
    requires
        valid_entry((name@, value@)),
        header_map_entries(*old(m)).len() < header_map_room(),
    ensures
        header_map_entries(*final(m)) == header_insert(header_map_entries(*old(m)), name@, value@),
{
    let name = reqwest::header::HeaderName::from_bytes(name.as_bytes());
    let value = reqwest::header::HeaderValue::from_str(value);
    if let (Ok(name), Ok(value)) = (name, value) {
        m.insert(name, value);
    }
}

/// `HeaderMap::get` with a name as text: the value of the first entry of
/// the lowercased name, as text; nothing for a name that is not valid.
#[verifier::external_body]
fn map_get(m: &reqwest::header::HeaderMap, name: &str) -> (r: Option<String>)
    ensures
        r.deep_view() == if valid_header_name(name@) {
            header_get(header_map_entries(*m), ascii_lower(name@))
        } else {
            None
        },
{
    m.get(name).map(|v| String::from_utf8_lossy(v.as_bytes()).into_owned())
}

/// `HeaderMap::len`: the number of values held.
#[verifier::external_body]
fn map_len(m: &reqwest::header::HeaderMap) -> (n: usize)
    ensures
        n == header_map_entries(*m).len(),
{
    m.len()
}

/// `HeaderMap::iter`, each entry as a pair of texts.
#[verifier::external_body]
fn map_entries(m: &reqwest::header::HeaderMap) -> (r: Vec<(String, String)>)
    ensures
        pairs_view(r@) == header_map_entries(*m),
{
    m.iter().map(|(k, v)| (k.as_str().to_string(), String::from_utf8_lossy(v.as_bytes()).into_owned())).collect()
}

/// The headers of a request or a client, held in a `HeaderMap`.
#[derive(Debug)]
pub struct Headers {
    map: reqwest::header::HeaderMap,
}

impl View for Headers {
    type V = Seq<(Seq<char>, Seq<char>)>;

    closed spec fn view(&self) -> Seq<(Seq<char>, Seq<char>)> {
        header_map_entries(self.map)
    }
}

proof fn lemma_all_valid_tail(s: Seq<(Seq<char>, Seq<char>)>)
    requires
        s.len() > 0,
        all_valid(s),
    ensures
        valid_entry(s[0]),
        all_valid(s.drop_first()),
{
    assert forall|i: int| 0 <= i < s.drop_first().len() implies valid_entry(#[trigger] s.drop_first()[i]) by {
        assert(s.drop_first()[i] == s[i + 1]);
    }
}

proof fn lemma_all_valid_cons(e: (Seq<char>, Seq<char>), s: Seq<(Seq<char>, Seq<char>)>)
    requires
        valid_entry(e),
        all_valid(s),
    ensures
        all_valid(seq![e] + s),
{
    assert forall|i: int| 0 <= i < (seq![e] + s).len() implies valid_entry(#[trigger] (seq![e] + s)[i]) by {
        if i > 0 {
            assert((seq![e] + s)[i] == s[i - 1]);
        }
    }
}

proof fn lemma_remove_keeps_valid(s: Seq<(Seq<char>, Seq<char>)>, name: Seq<char>)
    requires
        all_valid(s),
    ensures
        all_valid(remove_named(s, name)),
        remove_named(s, name).len() <= s.len(),
    decreases s.len(),
{
    if s.len() > 0 {
        lemma_all_valid_tail(s);
        lemma_remove_keeps_valid(s.drop_first(), name);
        if s[0].0 != name {
            lemma_all_valid_cons(s[0], remove_named(s.drop_first(), name));
        }
    }
}

/// Setting a valid pair keeps every pair valid, and adds at most one.
proof fn lemma_insert_keeps_valid(s: Seq<(Seq<char>, Seq<char>)>, name: Seq<char>, value: Seq<char>)
    requires
        all_valid(s),
        valid_entry((name, value)),
    ensures
        all_valid(header_insert(s, name, value)),
        header_insert(s, name, value).len() <= s.len() + 1,
    decreases s.len(),
{
    if s.len() == 0 {
        lemma_all_valid_cons((name, value), s);
        assert(seq![(name, value)] + s =~= seq![(name, value)]);
    } else {
        lemma_all_valid_tail(s);
        if s[0].0 == name {
            lemma_remove_keeps_valid(s.drop_first(), name);
            lemma_all_valid_cons((name, value), remove_named(s.drop_first(), name));
        } else {
            lemma_insert_keeps_valid(s.drop_first(), name, value);
            lemma_all_valid_cons(s[0], header_insert(s.drop_first(), name, value));
        }
    }
}

impl Headers {
    /// Every entry is a valid lowercase name with a valid value.
    #[verifier::type_invariant]
    closed spec fn wf(self) -> bool {
        all_valid(header_map_entries(self.map))
    }

    pub fn new() -> (h: Headers)
        ensures
            h@ == Seq::<(Seq<char>, Seq<char>)>::empty(),
    {
        Headers { map: map_new() }
    }

    /// The entries, in order; each is a valid lowercase name with a valid
    /// value.
    pub fn entries(&self) -> (r: Vec<(String, String)>)
        ensures
            pairs_view(r@) == self@,
            all_valid(self@),
    {
        proof {
            use_type_invariant(self);
        }
        map_entries(&self.map)
    }

    pub fn len(&self) -> (n: usize)
        ensures
            n == self@.len(),
    {
        map_len(&self.map)
    }

    /// Sets `name` to `value` (`HeaderMap::insert`). The name is a valid
    /// lowercase header name and the value a valid header value, as a
    /// `HeaderName` and a `HeaderValue` are; the map has room for the entry.
    pub fn insert(&mut self, name: String, value: String)
        requires
            valid_entry((name@, value@)),
            old(self)@.len() < header_map_room(),
        ensures
            final(self)@ == header_insert(old(self)@, name@, value@),
            final(self)@.len() <= old(self)@.len() + 1,
    {
        proof {
            use_type_invariant(&*self);
            lemma_insert_keeps_valid(self@, name@, value@);
        }
        let mut map = map_new();
        std::mem::swap(&mut map, &mut self.map);
        map_insert(&mut map, name.as_str(), value.as_str());
        self.map = map;
    }

    /// The value of the first entry of the name, lowercased
    /// (`HeaderMap::get`); nothing for a name that is not valid.
    pub fn get(&self, name: &str) -> (r: Option<String>)
        ensures
            r.deep_view() == if valid_header_name(name@) {
                header_get(self@, ascii_lower(name@))
            } else {
                None
            },
    {
        map_get(&self.map, name)
    }
}

impl Clone for Headers {
    fn clone(&self) -> (r: Headers)
        ensures
            r@ == self@,
    {
        proof {
            use_type_invariant(self);
        }
        Headers { map: map_clone(&self.map) }
    }
}

pub proof fn lemma_remove_named_get(s: Seq<(Seq<char>, Seq<char>)>, name: Seq<char>, other: Seq<char>)
    ensures
        header_get(remove_named(s, name), name).is_none(),
        other != name ==> header_get(remove_named(s, name), other) == header_get(s, other),
    decreases s.len(),
{
    if s.len() > 0 {
        lemma_remove_named_get(s.drop_first(), name, other);
        if s[0].0 != name {
            assert((seq![s[0]] + remove_named(s.drop_first(), name)).drop_first() == remove_named(s.drop_first(), name));
        }
    }
}

/// After `insert(name, value)`, looking `name` up gives `value`, and every
/// other name gives what it gave before.
pub proof fn lemma_insert_then_get(s: Seq<(Seq<char>, Seq<char>)>, name: Seq<char>, value: Seq<char>, other: Seq<char>)
    ensures
        header_get(header_insert(s, name, value), name) == Some(value),
        other != name ==> header_get(header_insert(s, name, value), other) == header_get(s, other),
    decreases s.len(),
{
    if s.len() > 0 {
        lemma_insert_then_get(s.drop_first(), name, value, other);
        lemma_remove_named_get(s.drop_first(), name, other);
        if s[0].0 == name {
            let t = seq![(name, value)] + remove_named(s.drop_first(), name);
            assert(t.drop_first() == remove_named(s.drop_first(), name));
            assert(header_insert(s, name, value) == t);
            if other != name {
                assert(header_get(t, other) == header_get(t.drop_first(), other));
                assert(header_get(s, other) == header_get(s.drop_first(), other));
            }
        } else {
            let t = seq![s[0]] + header_insert(s.drop_first(), name, value);
            assert(t.drop_first() == header_insert(s.drop_first(), name, value));
            assert(header_insert(s, name, value) == t);
            assert(t[0] == s[0]);
            if other != name {
                if s[0].0 == other {
                    assert(header_get(t, other) == Some(s[0].1));
                } else {
                    assert(header_get(t, other) == header_get(t.drop_first(), other));
                }
            }
        }
    } else {
        let t = seq![(name, value)];
        assert(t.drop_first() =~= Seq::<(Seq<char>, Seq<char>)>::empty());
        assert(header_insert(s, name, value) == t);
        if other != name {
            assert(header_get(t, other) == header_get(t.drop_first(), other));
            assert(header_get(t, other).is_none());
        }
    }
}

} // verus!
