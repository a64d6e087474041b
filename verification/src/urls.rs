//! URL handling through the `url` crate. A URL is carried as its
//! serialization; each step parses it, applies one `url` operation, and
//! serializes the result again. The serialization of a parsed URL parses
//! again to itself (the `url` crate checks this of every URL it holds), so
//! a step fails only where its own operation does.

use vstd::prelude::*;

verus! {

/// `Url::parse(input)`, then `Url::as_str`.
pub uninterp spec fn url_parse_spec(input: Seq<char>) -> core::result::Result<Seq<char>, url::ParseError>;

/// `Url::parse(url)`, then `Url::path`.
pub uninterp spec fn url_path_spec(url: Seq<char>) -> core::result::Result<Seq<char>, url::ParseError>;

/// `Url::parse(url)`, then `Url::set_path(path)` and `Url::as_str`.
pub uninterp spec fn url_set_path_spec(url: Seq<char>, path: Seq<char>) -> core::result::Result<Seq<char>, url::ParseError>;

/// `Url::parse(base)`, then `Url::join(input)` and `Url::as_str`.
pub uninterp spec fn url_join_spec(base: Seq<char>, input: Seq<char>) -> core::result::Result<Seq<char>, url::ParseError>;

/// `Url::parse(url)`, then `query_pairs_mut().append_pair(key, value)` and
/// `Url::as_str`.
pub uninterp spec fn url_append_pair_spec(url: Seq<char>, key: Seq<char>, value: Seq<char>) -> core::result::Result<Seq<char>, url::ParseError>;

/// Parses `input` as an absolute URL (`Url::parse`) and gives its
/// serialization. The result is named `url_parse_spec` of the input; the
/// serialization parses again to itself, and has a path.
#[verifier::external_body]
pub(crate) fn url_parse(input: &str) -> (r: core::result::Result<String, url::ParseError>)
    ensures
        match r {
            Ok(u) => url_parse_spec(input@) == Ok::<Seq<char>, url::ParseError>(u@)
                && url_parse_spec(u@) == Ok::<Seq<char>, url::ParseError>(u@)
                && url_path_spec(u@) is Ok,
            Err(e) => url_parse_spec(input@) == Err::<Seq<char>, url::ParseError>(e),
        },
{
    match url::Url::parse(input) {
        Ok(u) => Ok(u.as_str().to_string()),
        Err(e) => Err(e),
    }
}

/// The path of the URL `url` (`Url::path` after `Url::parse`). The result
/// is named `url_path_spec` of the argument; it fails only where the
/// parse does.
#[verifier::external_body]
pub(crate) fn url_path(url: &str) -> (r: core::result::Result<String, url::ParseError>)
    ensures
        match r {
            Ok(p) => url_path_spec(url@) == Ok::<Seq<char>, url::ParseError>(p@),
            Err(e) => url_path_spec(url@) == Err::<Seq<char>, url::ParseError>(e)
                && url_parse_spec(url@) == Err::<Seq<char>, url::ParseError>(e),
        },
{
    match url::Url::parse(url) {
        Ok(u) => Ok(u.path().to_string()),
        Err(e) => Err(e),
    }
}

/// The URL `url` with its path replaced by `path` (`Url::set_path`). The
/// result is named `url_set_path_spec` of the arguments; it fails only
/// where the parse does, and its serialization parses again to itself.
#[verifier::external_body]
pub(crate) fn url_set_path(url: &str, path: &str) -> (r: core::result::Result<String, url::ParseError>)
    ensures
        match r {
            Ok(u) => url_set_path_spec(url@, path@) == Ok::<Seq<char>, url::ParseError>(u@)
                && url_parse_spec(u@) == Ok::<Seq<char>, url::ParseError>(u@),
            Err(e) => url_set_path_spec(url@, path@) == Err::<Seq<char>, url::ParseError>(e)
                && url_parse_spec(url@) == Err::<Seq<char>, url::ParseError>(e),
        },
{
    match url::Url::parse(url) {
        Ok(mut u) => {
            u.set_path(path);
            Ok(u.as_str().to_string())
        },
        Err(e) => Err(e),
    }
}

/// `input` resolved against the URL `base` (`Url::join`). The result is
/// named `url_join_spec` of the arguments; its serialization parses again
/// to itself.
#[verifier::external_body]
pub(crate) fn url_join(base: &str, input: &str) -> (r: core::result::Result<String, url::ParseError>)
    ensures
        match r {
            Ok(u) => url_join_spec(base@, input@) == Ok::<Seq<char>, url::ParseError>(u@)
                && url_parse_spec(u@) == Ok::<Seq<char>, url::ParseError>(u@),
            Err(e) => url_join_spec(base@, input@) == Err::<Seq<char>, url::ParseError>(e),
        },
{
    match url::Url::parse(base) {
        Ok(b) => match b.join(input) {
            Ok(u) => Ok(u.as_str().to_string()),
            Err(e) => Err(e),
        },
        Err(e) => Err(e),
    }
}

/// The URL `url` with the pair `key=value` added to its query, form-encoded
/// (`query_pairs_mut().append_pair`). The result is named
/// `url_append_pair_spec` of the arguments; it fails only where the parse
/// does, and its serialization parses again to itself.
#[verifier::external_body]
pub(crate) fn url_append_pair(url: &str, key: &str, value: &str) -> (r: core::result::Result<String, url::ParseError>)
    ensures
        match r {
            Ok(u) => url_append_pair_spec(url@, key@, value@) == Ok::<Seq<char>, url::ParseError>(u@)
                && url_parse_spec(u@) == Ok::<Seq<char>, url::ParseError>(u@),
            Err(e) => url_append_pair_spec(url@, key@, value@) == Err::<Seq<char>, url::ParseError>(e)
                && url_parse_spec(url@) == Err::<Seq<char>, url::ParseError>(e),
        },
{
    match url::Url::parse(url) {
        Ok(mut u) => {
            u.query_pairs_mut().append_pair(key, value);
            Ok(u.as_str().to_string())
        },
        Err(e) => Err(e),
    }
}

} // verus!
