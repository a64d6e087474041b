//! Multipart file uploads: what is sent, under which field and file name,
//! with which content type and headers.

use vstd::prelude::*;

use crate::error::{FlowfullError, Result};
use crate::headers::{
    all_valid, header_insert, header_map_room, pairs_view, valid_entry, valid_header_name, valid_header_value,
    Headers,
};
use crate::request::{bad_header_name_message, checked_header, RequestOptions};
use crate::text::{ascii_lower, has_infix};
use crate::text::owned;

verus! {

/// A file to upload: one on disk, or bytes in memory with a file name and
/// an optional content type.
#[derive(Debug, Clone)]
pub enum UploadFile {
    Path(String),
    Bytes { bytes: Vec<u8>, file_name: String, mime: Option<String> },
}

impl UploadFile {
    /// The file at `path`.
    pub fn path(path: &str) -> (f: UploadFile)
        ensures
            f matches UploadFile::Path(p) && p@ == path@,
    {
        UploadFile::Path(owned(path))
    }

    /// `bytes`, sent as a file named `file_name`.
    pub fn bytes(bytes: Vec<u8>, file_name: &str) -> (f: UploadFile)
        ensures
            f matches UploadFile::Bytes { bytes: b, file_name: n, mime } && b@ == bytes@ && n@ == file_name@
                && mime.is_none(),
    {
        UploadFile::Bytes { bytes, file_name: owned(file_name), mime: None }
    }

    /// `bytes`, sent as a file named `file_name` of type `mime`.
    pub fn bytes_with_mime(bytes: Vec<u8>, file_name: &str, mime: &str) -> (f: UploadFile)
        ensures
            f matches UploadFile::Bytes { bytes: b, file_name: n, mime: m } && b@ == bytes@ && n@ == file_name@
                && m.is_some() && m.unwrap()@ == mime@,
    {
        UploadFile::Bytes { bytes, file_name: owned(file_name), mime: Some(owned(mime)) }
    }
}

/// What holds of a file name that `Path::file_name` finds in `path` on any
/// platform and for any form of path: it is not empty and occurs in the
/// path.
pub open spec fn plausible_file_name(path: Seq<char>, name: Seq<char>) -> bool {
    name.len() > 0 && has_infix(path, name)
}

/// `Path::file_name`: the last component of `path`, unless the path ends
/// in `..` or has none. Which characters separate components depends on
/// the platform, so only what holds of a found name on every platform is
/// stated.
#[verifier::external_body]
fn file_name_of(path: &str) -> (r: Option<String>)
    ensures
        match r {
            Some(n) => plausible_file_name(path@, n@),
            None => true,
        },
{
    match std::path::Path::new(path).file_name() {
        Some(n) => Some(n.to_string_lossy().into_owned()),
        None => None,
    }
}

/// The content type `mime_guess` gives a path, by its extension.
pub uninterp spec fn guessed_mime(path: Seq<char>) -> Seq<char>;

/// `mime_guess::from_path(path).first_or_octet_stream()`, as text: the
/// first content type known for the path's extension, or
/// `application/octet-stream`. The result is named `guessed_mime` of the
/// path. The extension is read with `Path::extension`, whose separators are
/// the platform's (a backslash separates on Windows only), so the name is a
/// function of the path on one platform; no program sees two answers.
#[verifier::external_body]
fn guess_mime(path: &str) -> (r: String)
    ensures
        r@ == guessed_mime(path@),
{
    mime_guess::from_path(path).first_or_octet_stream().to_string()
}

/// Whether the multipart form accepts `mime` as the content type of a part
/// (`Part::mime_str`, which parses it as a `mime::Mime`).
pub uninterp spec fn mime_accepted(mime: Seq<char>) -> bool;

/// `Part::mime_str` with `mime`: nothing when the content type parses, and
/// the builder error of reqwest when it does not. Whether it parses is named
/// `mime_accepted` of the text.
#[verifier::external_body]
fn check_mime(mime: &str) -> (r: core::result::Result<(), reqwest::Error>)
    ensures
        match r {
            Ok(_) => mime_accepted(mime@),
            Err(_) => !mime_accepted(mime@),
        },
{
    match reqwest::multipart::Part::bytes(Vec::new()).mime_str(mime) {
        Ok(_) => Ok(()),
        Err(e) => Err(e),
    }
}

/// What a multipart upload sends: the text fields in order, then the file
/// part under `field` with its file name and content type.
#[derive(Debug)]
pub struct UploadRequest {
    pub endpoint: String,
    pub form_fields: Vec<(String, String)>,
    pub field: String,
    /// The file to read from disk, or nothing when the bytes are given.
    pub path: Option<String>,
    pub bytes: Vec<u8>,
    pub file_name: String,
    pub mime: Option<String>,
    pub options: RequestOptions,
}

/// Builds a multipart upload of one file.
#[derive(Debug)]
pub struct UploadBuilder {
    endpoint: String,
    file: UploadFile,
    field: String,
    file_name: Option<String>,
    headers: Headers,
    form_fields: Vec<(String, String)>,
    options: RequestOptions,
}

/// The content of an upload being built.
pub struct UploadView {
    pub endpoint: Seq<char>,
    pub file: UploadFile,
    pub field: Seq<char>,
    pub file_name: Option<Seq<char>>,
    pub headers: Seq<(Seq<char>, Seq<char>)>,
    pub form_fields: Seq<(Seq<char>, Seq<char>)>,
    pub options: RequestOptions,
}

/// The headers of `options` with each of `headers` set on top, in order.
pub open spec fn with_headers(options: Seq<(Seq<char>, Seq<char>)>, headers: Seq<(Seq<char>, Seq<char>)>) -> Seq<(Seq<char>, Seq<char>)>
    decreases headers.len(),
{
    if headers.len() == 0 {
        options
    } else {
        header_insert(with_headers(options, headers.drop_last()), headers.last().0, headers.last().1)
    }
}

impl View for UploadBuilder {
    type V = UploadView;

    closed spec fn view(&self) -> UploadView {
        UploadView {
            endpoint: self.endpoint@,
            file: self.file,
            field: self.field@,
            file_name: match self.file_name {
                Some(n) => Some(n@),
                None => None,
            },
            headers: self.headers@,
            form_fields: pairs_view(self.form_fields@),
            options: self.options,
        }
    }
}

impl UploadBuilder {
    /// An upload of `file` to `endpoint`, under the field `file`, with the
    /// file's own name, no extra headers or fields, and default options.
    pub fn new(endpoint: &str, file: UploadFile) -> (b: UploadBuilder)
        ensures
            b@.endpoint == endpoint@,
            b@.file == file,
            b@.field == "file"@,
            b@.file_name.is_none(),
            b@.headers == Seq::<(Seq<char>, Seq<char>)>::empty(),
            b@.form_fields == Seq::<(Seq<char>, Seq<char>)>::empty(),
            b@.options.headers@ == Seq::<(Seq<char>, Seq<char>)>::empty(),
            b@.options.query@ == Seq::<(String, String)>::empty(),
            b@.options.include_session.is_none(),
            b@.options.session_id.is_none(),
            b@.options.timeout.is_none(),
    {
        let b = UploadBuilder {
            endpoint: owned(endpoint),
            file,
            field: owned("file"),
            file_name: None,
            headers: Headers::new(),
            form_fields: Vec::new(),
            options: RequestOptions::new(),
        };
        assert(b@.form_fields =~= Seq::<(Seq<char>, Seq<char>)>::empty());
        b
    }

    /// The form field the file goes under.
    pub fn field(self, field: &str) -> (b: UploadBuilder)
        ensures
            b@ == (UploadView { field: field@, ..self@ }),
    {
        let mut b = self;
        b.field = owned(field);
        b
    }

    /// The file name sent, in place of the file's own.
    pub fn file_name(self, file_name: &str) -> (b: UploadBuilder)
        ensures
            b@ == (UploadView { file_name: Some(file_name@), ..self@ }),
    {
        let mut b = self;
        b.file_name = Some(owned(file_name));
        b
    }

    /// Adds a text field, sent before the file.
    pub fn form_field(self, key: &str, value: &str) -> (b: UploadBuilder)
        ensures
            b@ == (UploadView { form_fields: self@.form_fields.push((key@, value@)), ..self@ }),
    {
        let ghost before = self@.form_fields;
        let mut b = self;
        b.form_fields.push((owned(key), owned(value)));
        assert(b@.form_fields =~= before.push((key@, value@)));
        b
    }

    /// Sets a header of the upload request. A name or value HTTP refuses is
    /// a configuration error. The headers have room for one more (a full
    /// `HeaderMap` panics; see `has_header_room`).
    pub fn header(self, key: &str, value: &str) -> (r: Result<UploadBuilder>)
        requires
            self@.headers.len() < header_map_room(),
        ensures
            match r {
                Ok(b) => valid_header_name(key@) && valid_header_value(value@)
                    && b@ == (UploadView { headers: header_insert(self@.headers, ascii_lower(key@), value@), ..self@ }),
                Err(FlowfullError::Config(m)) => {
                    if !valid_header_name(key@) {
                        m@ == bad_header_name_message()
                    } else {
                        !valid_header_value(value@)
                            && m@ == "invalid header value for upload option: "@ + "failed to parse header value"@
                    }
                },
                Err(_) => false,
            },
    {
        match checked_header(key, value, "invalid header value for upload option: ") {
            Ok((name, v)) => {
                let mut b = self;
                b.headers.insert(name, v);
                Ok(b)
            },
            Err(e) => Err(e),
        }
    }

    /// The request options, in place of the defaults.
    pub fn options(self, options: RequestOptions) -> (b: UploadBuilder)
        ensures
            b@ == (UploadView { options, ..self@ }),
    {
        let mut b = self;
        b.options = options;
        b
    }

    /// Whether the upload's own headers have room for one more.
    pub fn has_header_room(&self) -> (r: bool)
        ensures
            r == (self@.headers.len() < header_map_room()),
    {
        self.headers.len() < 6554
    }

    /// Whether the request options' headers have room for the upload's
    /// headers.
    pub fn has_request_room(&self) -> (r: bool)
        ensures
            r == (self@.options.headers@.len() + self@.headers.len() < header_map_room()),
    {
        let own = self.headers.len();
        own < 6554 && self.options.headers.len() < 6554 - own
    }

    /// What the upload sends, where `found_name` is the file name found in
    /// the path of a file on disk. A file on disk goes under the name given
    /// with `file_name`, else `found_name`, else `file`, with the content
    /// type its extension suggests; bytes go under the name given with
    /// `file_name`, else the name they came with, with their content type
    /// if they have one. The upload's headers are set on top of those of
    /// its options. A content type that the multipart form refuses is a
    /// network error, and nothing is sent. The options' headers have room
    /// for the upload's (see `has_request_room`).
    pub fn into_request_with(self, found_name: Option<String>) -> (r: Result<UploadRequest>)
        requires
            self@.options.headers@.len() + self@.headers.len() < header_map_room(),
        ensures
            match r {
                Ok(req) => sends(self@, found_name.deep_view(), req) && match sent_mime(self@) {
                    Some(m) => mime_accepted(m),
                    None => true,
                },
                Err(FlowfullError::Network(_)) => sent_mime(self@) matches Some(m) && !mime_accepted(m),
                Err(_) => false,
            },
    {
        let ghost view = self@;
        let mut options = self.options;
        let entries = self.headers.entries();
        let mut i: usize = 0;
        while i < entries.len()
            invariant
                i <= entries.len(),
                pairs_view(entries@) == view.headers,
                options.headers@ == with_headers(view.options.headers@, view.headers.take(i as int)),
                options.headers@.len() <= view.options.headers@.len() + i,
                view.options.headers@.len() + view.headers.len() < header_map_room(),
                all_valid(view.headers),
                options.query == view.options.query,
                options.include_session == view.options.include_session,
                options.session_id == view.options.session_id,
                options.timeout == view.options.timeout,
            decreases entries.len() - i,
        {
            proof {
                assert(view.headers.take(i + 1).drop_last() == view.headers.take(i as int));
                assert(view.headers.take(i + 1).last() == view.headers[i as int]);
                assert(valid_entry(view.headers[i as int]));
                assert(view.headers[i as int] == (entries@[i as int].0@, entries@[i as int].1@));
            }
            options.headers.insert(entries[i].0.clone(), entries[i].1.clone());
            i = i + 1;
        }
        assert(view.headers.take(entries.len() as int) =~= view.headers);
        match self.file {
            UploadFile::Path(path) => {
                let name = match self.file_name {
                    Some(n) => n,
                    None => match found_name {
                        Some(n) => n,
                        None => owned("file"),
                    },
                };
                let mime = guess_mime(path.as_str());
                if let Err(e) = check_mime(mime.as_str()) {
                    return Err(FlowfullError::Network(e));
                }
                Ok(UploadRequest {
                    endpoint: self.endpoint,
                    form_fields: self.form_fields,
                    field: self.field,
                    path: Some(path),
                    bytes: Vec::new(),
                    file_name: name,
                    mime: Some(mime),
                    options,
                })
            },
            UploadFile::Bytes { bytes, file_name, mime } => {
                let name = match self.file_name {
                    Some(n) => n,
                    None => file_name,
                };
                if let Some(m) = &mime {
                    if let Err(e) = check_mime(m.as_str()) {
                        return Err(FlowfullError::Network(e));
                    }
                }
                Ok(UploadRequest {
                    endpoint: self.endpoint,
                    form_fields: self.form_fields,
                    field: self.field,
                    path: None,
                    bytes,
                    file_name: name,
                    mime,
                    options,
                })
            },
        }
    }

    /// What the upload sends (see `into_request_with`), with the file name
    /// that `Path::file_name` finds in the path of a file on disk.
    pub fn into_request(self) -> (r: Result<UploadRequest>)
        requires
            self@.options.headers@.len() + self@.headers.len() < header_map_room(),
        ensures
            match r {
                Ok(req) => {
                    &&& exists|found: Option<Seq<char>>|
                        #![trigger sends(self@, found, req)]
                        sends(self@, found, req) && match (self@.file, found) {
                            (UploadFile::Path(p), Some(n)) => plausible_file_name(p@, n),
                            _ => true,
                        }
                    &&& match sent_mime(self@) {
                        Some(m) => mime_accepted(m),
                        None => true,
                    }
                },
                Err(FlowfullError::Network(_)) => sent_mime(self@) matches Some(m) && !mime_accepted(m),
                Err(_) => false,
            },
    {
        let found = match &self.file {
            UploadFile::Path(path) => file_name_of(path.as_str()),
            UploadFile::Bytes { .. } => None,
        };
        let ghost found_view = found.deep_view();
        let r = self.into_request_with(found);
        if let Ok(req) = &r {
            assert(sends(self@, found_view, *req));
        }
        r
    }
}

/// The content type an upload gives its file part: the one its extension
/// suggests for a file on disk, the one given with the bytes otherwise.
pub open spec fn sent_mime(u: UploadView) -> Option<Seq<char>> {
    match u.file {
        UploadFile::Path(p) => Some(guessed_mime(p@)),
        UploadFile::Bytes { mime, .. } => match mime {
            Some(m) => Some(m@),
            None => None,
        },
    }
}

/// Whether `r` is what an upload `u` sends, where `found` is the file name
/// found in the path of a file on disk.
pub open spec fn sends(u: UploadView, found: Option<Seq<char>>, r: UploadRequest) -> bool {
    &&& r.endpoint@ == u.endpoint
    &&& pairs_view(r.form_fields@) == u.form_fields
    &&& r.field@ == u.field
    &&& r.options.headers@ == with_headers(u.options.headers@, u.headers)
    &&& r.options.query == u.options.query
    &&& r.options.include_session == u.options.include_session
    &&& r.options.session_id == u.options.session_id
    &&& r.options.timeout == u.options.timeout
    &&& match u.file {
        UploadFile::Path(p) => {
            &&& r.path.is_some() && r.path.unwrap()@ == p@
            &&& r.bytes@.len() == 0
            &&& r.file_name@ == match u.file_name {
                Some(n) => n,
                None => match found {
                    Some(n) => n,
                    None => "file"@,
                },
            }
            &&& r.mime.is_some() && r.mime.unwrap()@ == guessed_mime(p@)
        },
        UploadFile::Bytes { bytes, file_name, mime } => {
            &&& r.path.is_none()
            &&& r.bytes@ == bytes@
            &&& r.file_name@ == match u.file_name {
                Some(n) => n,
                None => file_name@,
            }
            &&& r.mime == mime
        },
    }
}

/// The file name sent is the one the caller set with `file_name`, for a
/// file on disk as for bytes; only when none was set does a file on disk go
/// under the name found in its path (else `file`), and bytes under the name
/// they came with.
pub proof fn lemma_set_file_name_is_sent(u: UploadView, found: Option<Seq<char>>, r: UploadRequest)
    requires
        sends(u, found, r),
    ensures
        u.file_name matches Some(n) ==> r.file_name@ == n,
        u.file_name.is_none() && u.file is Path && found.is_some() ==> r.file_name@ == found.unwrap(),
        u.file_name.is_none() && u.file is Path && found.is_none() ==> r.file_name@ == "file"@,
        u.file_name.is_none() && u.file is Bytes ==> r.file_name@ == u.file->Bytes_file_name@,
{
}

} // verus!
