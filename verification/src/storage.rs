//! Where a file-backed store keeps a key: a file named after the key in the
//! store's directory, for keys that cannot leave that directory.

use vstd::prelude::*;

use crate::error::{FlowfullError, Result};
use crate::text::{concat, contains_char, contains_pair, has_infix, has_prefix, owned};

verus! {

/// Whether `path` is `key` joined to `base` as `PathBuf::push` joins a
/// relative path below a base without a verbatim prefix: a separator goes
/// between them unless the base is empty, ends in a separator, or is a bare
/// drive such as `C:`. `/` is a separator everywhere; a backslash is one,
/// and is the separator added, where the platform is Windows.
pub open spec fn joined(path: Seq<char>, base: Seq<char>, key: Seq<char>) -> bool {
    if base.len() == 0 {
        path == key
    } else if base.last() == '/' {
        path == base + key
    } else if base.last() == '\\' {
        path == base + key || path == base + seq!['/'] + key
    } else if base.len() == 2 && base.last() == ':' {
        ||| path == base + key
        ||| path == base + seq!['/'] + key
        ||| path == base + seq!['\\'] + key
    } else {
        path == base + seq!['/'] + key || path == base + seq!['\\'] + key
    }
}

/// The verbatim prefix `\\?\` of Windows paths, under which `PathBuf::push`
/// normalizes the whole path.
pub open spec fn verbatim_prefix() -> Seq<char> {
    seq!['\\', '\\', '?', '\\']
}

/// `PathBuf::join` of a relative `key` to `base`, as text (see `joined`).
/// Which separator is added is the platform's. Below a verbatim base, std
/// normalizes the path (it drops `.` and `..` components), and nothing is
/// stated.
#[verifier::external_body]
fn path_join(base: &str, key: &str) -> (r: String)
    requires
        key@.len() > 0,
        !key@.contains('/'),
        !key@.contains('\\'),
        !key@.contains(':'),
    ensures
        !has_prefix(base@, verbatim_prefix()) ==> joined(r@, base@, key@),
{
    std::path::PathBuf::from(base).join(key).to_string_lossy().into_owned()
}

/// Whether a key may name a file in the store: not empty, and without `/`,
/// `\`, `..` or `:`.
pub open spec fn valid_storage_key(key: Seq<char>) -> bool {
    &&& key.len() > 0
    &&& !key.contains('/')
    &&& !key.contains('\\')
    &&& !has_infix(key, ".."@)
    &&& !key.contains(':')
}

/// A store that keeps each key in a file of its own under `base_path`.
#[derive(Debug, Clone)]
pub struct FileStorage {
    base_path: String,
}

impl FileStorage {
    pub fn new(base_path: &str) -> (s: FileStorage)
        ensures
            s.base_path()@ == base_path@,
    {
        FileStorage { base_path: owned(base_path) }
    }

    pub closed spec fn base_path(self) -> String {
        self.base_path
    }

    /// The directory of the store.
    pub fn base(&self) -> (p: &String)
        ensures
            *p == self.base_path(),
    {
        &self.base_path
    }

    /// The file that holds `key`. A key that could name a file outside the
    /// store is a storage error.
    pub fn path_for_key(&self, key: &str) -> (r: Result<String>)
        ensures
            match r {
                Ok(p) => valid_storage_key(key@)
                    && (!has_prefix(self.base_path()@, verbatim_prefix()) ==> joined(p@, self.base_path()@, key@)),
                Err(FlowfullError::Storage(m)) => !valid_storage_key(key@) && m@ == "invalid storage key: "@ + key@,
                Err(_) => false,
            },
    {
        if key.is_empty() || contains_char(key, '/') || contains_char(key, '\\') || contains_pair(key, '.', '.')
            || contains_char(key, ':')
        {
            proof {
                reveal_strlit("..");
                assert(".."@ =~= seq!['.', '.']);
            }
            return Err(FlowfullError::Storage(concat("invalid storage key: ", key)));
        }
        proof {
            reveal_strlit("..");
            assert(".."@ =~= seq!['.', '.']);
        }
        Ok(path_join(self.base_path.as_str(), key))
    }
}

} // verus!
