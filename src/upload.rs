use vstd::prelude::*;

use crate::api::{error_response, Body, BodyView, Response, ResponseView, BAD_REQUEST, INTERNAL_SERVER_ERROR, OK};
use crate::error::StorageError;

verus! {

/// The bucket that uploaded images are stored in.
pub const BUCKET: &'static str = "recipes.elliotdavies.co.uk";

/// The key prefix under which uploaded images are stored.
pub const KEY_PREFIX: &'static str = "images/";

/// The multipart field that carries the image.
pub const IMAGE_FIELD: &'static str = "image";

pub const MALFORMED_UPLOAD: &'static str = "Malformed multipart body";
pub const NO_FILE: &'static str = "No file found in request";
pub const MULTIPLE_FILES: &'static str = "Multiple files found in request";
pub const NO_FILENAME: &'static str = "No filename found in request";
pub const NO_CONTENT_TYPE: &'static str = "No content type found in request";
pub const READ_FAILED: &'static str = "Failed to read file";
pub const NO_EXTENSION: &'static str = "Filename had no extension";
pub const STORE_IMAGE_FAILED: &'static str = "Failed to store file";

/// The position of the last `.` in `s`, if any.
pub open spec fn last_dot(s: Seq<char>) -> Option<int>
    decreases s.len(),
{
    if s.len() == 0 {
        None
    } else if s.last() == '.' {
        Some(s.len() - 1)
    } else {
        last_dot(s.drop_last())
    }
}

/// What follows the last `.` of a file name, case kept; `None` without a `.`.
pub open spec fn extension_of(name: Seq<char>) -> Option<Seq<char>> {
    match last_dot(name) {
        Some(i) => Some(name.subrange(i + 1, name.len() as int)),
        None => None,
    }
}

/// The name an upload is stored under: `<uuid>.<extension>`.
pub open spec fn stored_name(uuid: Seq<char>, ext: Seq<char>) -> Seq<char> {
    uuid + seq!['.'] + ext
}

/// The object key of a stored name: `images/<name>`.
pub open spec fn object_key(name: Seq<char>) -> Seq<char> {
    KEY_PREFIX@ + name
}

pub open spec fn is_lower_hex(c: char) -> bool {
    ('0' <= c && c <= '9') || ('a' <= c && c <= 'f')
}

/// A version-4 UUID in hyphenated lower-case form.
pub open spec fn is_uuid_text(s: Seq<char>) -> bool {
    &&& s.len() == 36
    &&& s[14] == '4'
    &&& forall|i: int|
        0 <= i < 36 ==> if i == 8 || i == 13 || i == 18 || i == 23 {
            #[trigger] s[i] == '-'
        } else {
            is_lower_hex(s[i])
        }
}

/// Relies on uuid::Uuid::new_v4, a random version-4 UUID, and on its
/// `Display`, the hyphenated lower-case form.
#[verifier::external_body]
fn new_uuid() -> (r: String)
    ensures
        is_uuid_text(r@),
{
    uuid::Uuid::new_v4().to_string()
}

/// One file that the multipart parser found under the image field.
pub struct UploadedFile {
    pub file_name: Option<String>,
    pub content_type: Option<String>,
    /// The file's bytes, or `None` when its temporary copy could not be read.
    pub contents: Option<Vec<u8>>,
}

pub struct UploadedFileView {
    pub file_name: Option<Seq<char>>,
    pub content_type: Option<Seq<char>>,
    pub contents: Option<Seq<u8>>,
}

pub open spec fn opt_string_view(o: Option<String>) -> Option<Seq<char>> {
    match o {
        Some(s) => Some(s@),
        None => None,
    }
}

impl View for UploadedFile {
    type V = UploadedFileView;

    open spec fn view(&self) -> UploadedFileView {
        UploadedFileView {
            file_name: opt_string_view(self.file_name),
            content_type: opt_string_view(self.content_type),
            contents: match self.contents {
                Some(c) => Some(c@),
                None => None,
            },
        }
    }
}

pub open spec fn files_view(files: Seq<UploadedFile>) -> Seq<UploadedFileView> {
    files.map_values(|f: UploadedFile| f@)
}

/// A put-object request for the object store.
pub struct PutObject {
    pub bucket: String,
    pub key: String,
    pub content_type: String,
    pub contents: Vec<u8>,
}

/// What an upload request comes to before the object store is called:
/// an immediate response, or an object to store and the name to answer with.
pub enum UploadStep {
    Respond(Response),
    Store(PutObject, String),
}

pub enum UploadStepView {
    Respond(ResponseView),
    Store { bucket: Seq<char>, key: Seq<char>, content_type: Seq<char>, contents: Seq<u8>, filename: Seq<char> },
}

impl View for UploadStep {
    type V = UploadStepView;

    open spec fn view(&self) -> UploadStepView {
        match self {
            UploadStep::Respond(r) => UploadStepView::Respond(r@),
            UploadStep::Store(p, name) => UploadStepView::Store {
                bucket: p.bucket@,
                key: p.key@,
                content_type: p.content_type@,
                contents: p.contents@,
                filename: name@,
            },
        }
    }
}

pub open spec fn rejected(status: u16, message: Seq<char>) -> UploadStepView {
    UploadStepView::Respond(ResponseView { status, body: BodyView::Error(message) })
}

/// The step an upload of `files` under the image field comes to, with `uuid`
/// as the fresh identifier.
pub open spec fn upload_outcome(files: Seq<UploadedFileView>, uuid: Seq<char>) -> UploadStepView {
    if files.len() == 0 {
        rejected(BAD_REQUEST, NO_FILE@)
    } else if files.len() > 1 {
        rejected(BAD_REQUEST, MULTIPLE_FILES@)
    } else {
        let f = files[0];
        match (f.file_name, f.content_type, f.contents) {
            (Some(name), Some(ct), Some(bytes)) => match extension_of(name) {
                Some(ext) => UploadStepView::Store {
                    bucket: BUCKET@,
                    key: object_key(stored_name(uuid, ext)),
                    content_type: ct,
                    contents: bytes,
                    filename: stored_name(uuid, ext),
                },
                None => rejected(BAD_REQUEST, NO_EXTENSION@),
            },
            (None, _, _) => rejected(BAD_REQUEST, NO_FILENAME@),
            (_, None, _) => rejected(BAD_REQUEST, NO_CONTENT_TYPE@),
            (_, _, None) => rejected(INTERNAL_SERVER_ERROR, READ_FAILED@),
        }
    }
}

proof fn lemma_last_dot(s: Seq<char>)
    ensures
        match last_dot(s) {
            Some(i) => {
                &&& 0 <= i < s.len()
                &&& s[i] == '.'
                &&& forall|j: int| i < j < s.len() ==> s[j] != '.'
            },
            None => forall|j: int| 0 <= j < s.len() ==> s[j] != '.',
        },
    decreases s.len(),
{
    if s.len() > 0 && s.last() != '.' {
        let d = s.drop_last();
        lemma_last_dot(d);
        assert(last_dot(s) == last_dot(d));
        assert forall|j: int| 0 <= j < d.len() implies #[trigger] s[j] == d[j] by {}
        assert(s[s.len() - 1] != '.');
    }
}

proof fn lemma_last_dot_before(a: Seq<char>, e: Seq<char>)
    requires
        forall|j: int| 0 <= j < e.len() ==> e[j] != '.',
    ensures
        last_dot(a.push('.') + e) == Some(a.len() as int),
    decreases e.len(),
{
    if e.len() == 0 {
        assert(a.push('.') + e =~= a.push('.'));
    } else {
        lemma_last_dot_before(a, e.drop_last());
        assert((a.push('.') + e).drop_last() =~= a.push('.') + e.drop_last());
    }
}

/// An extension holds no `.`; the name `<uuid>.<extension>` and the key
/// `images/<uuid>.<extension>` that an upload is stored under both have the
/// extension of the uploaded file name, whatever the uuid.
pub proof fn lemma_stored_extension(name: Seq<char>, uuid: Seq<char>)
    requires
        extension_of(name) is Some,
    ensures
        forall|j: int|
            0 <= j < (extension_of(name)->0).len() ==> #[trigger] (extension_of(name)->0)[j] != '.',
        extension_of(stored_name(uuid, extension_of(name)->0)) == extension_of(name),
        extension_of(object_key(stored_name(uuid, extension_of(name)->0))) == extension_of(name),
{
    let ext = extension_of(name)->0;
    lemma_last_dot(name);
    assert forall|j: int| 0 <= j < ext.len() implies #[trigger] ext[j] != '.' by {
        assert(ext[j] == name[last_dot(name)->0 + 1 + j]);
    }
    let named = stored_name(uuid, ext);
    assert(named =~= uuid.push('.') + ext);
    lemma_last_dot_before(uuid, ext);
    assert(named.subrange(uuid.len() as int + 1, named.len() as int) =~= ext);
    let key = object_key(named);
    let front = KEY_PREFIX@ + uuid;
    assert(key =~= front.push('.') + ext);
    lemma_last_dot_before(front, ext);
    assert(key.subrange(front.len() as int + 1, key.len() as int) =~= ext);
}

/// The text after the last `.` of `name`, case kept; `None` when `name`
/// holds no `.`.
pub fn extension(name: &str) -> (r: Option<String>)
    ensures
        opt_string_view(r) == extension_of(name@),
{
    let n = name.unicode_len();
    let mut i: usize = n;
    assert(name@.subrange(0, n as int) =~= name@);
    while i > 0
        invariant
            n == name@.len(),
            i <= n,
            last_dot(name@) == last_dot(name@.subrange(0, i as int)),
        decreases i,
    {
        let ghost prefix = name@.subrange(0, i as int);
        assert(prefix.drop_last() =~= name@.subrange(0, i - 1));
        if name.get_char(i - 1) == '.' {
            return Some(name.substring_char(i, n).to_owned());
        }
        i = i - 1;
    }
    assert(name@.subrange(0, 0) =~= Seq::<char>::empty());
    None
}

/// Decides an upload of `files`, the files found under the image field,
/// with `uuid` as the fresh identifier: the error response, or the object
/// to store under `images/<uuid>.<extension>` in the image bucket and the
/// name `<uuid>.<extension>` to answer with.
pub fn plan_upload(files: Vec<UploadedFile>, uuid: &str) -> (r: UploadStep)
    ensures
        r@ == upload_outcome(files_view(files@), uuid@),
{
    let ghost fv = files_view(files@);
    if files.len() == 0 {
        return UploadStep::Respond(error_response(BAD_REQUEST, NO_FILE));
    }
    if files.len() > 1 {
        return UploadStep::Respond(error_response(BAD_REQUEST, MULTIPLE_FILES));
    }
    let mut files = files;
    let file = files.pop().unwrap();
    assert(file@ == fv[0]);
    match (file.file_name, file.content_type, file.contents) {
        (Some(name), Some(content_type), Some(contents)) => match extension(name.as_str()) {
            Some(ext) => {
                let mut filename = uuid.to_owned();
                filename.append(".");
                filename.append(ext.as_str());
                let mut key = KEY_PREFIX.to_owned();
                key.append(filename.as_str());
                proof {
                    reveal_strlit(".");
                    assert(filename@ =~= stored_name(uuid@, ext@));
                }
                UploadStep::Store(
                    PutObject { bucket: BUCKET.to_owned(), key, content_type, contents },
                    filename,
                )
            },
            None => UploadStep::Respond(error_response(BAD_REQUEST, NO_EXTENSION)),
        },
        (None, _, _) => UploadStep::Respond(error_response(BAD_REQUEST, NO_FILENAME)),
        (_, None, _) => UploadStep::Respond(error_response(BAD_REQUEST, NO_CONTENT_TYPE)),
        (_, _, None) => UploadStep::Respond(error_response(INTERNAL_SERVER_ERROR, READ_FAILED)),
    }
}

/// `POST /image`, up to the call of the object store: draws a fresh UUID
/// and decides the upload of `files` with it.
pub fn post_image(files: Vec<UploadedFile>) -> (r: UploadStep)
    ensures
        exists|uuid: Seq<char>|
            is_uuid_text(uuid) && r@ == #[trigger] upload_outcome(files_view(files@), uuid),
{
    let uuid = new_uuid();
    plan_upload(files, uuid.as_str())
}

/// `POST /image`, after the call of the object store: 200 with the stored
/// name, or 500 when the object could not be stored.
pub fn finish_upload(filename: String, stored: Result<(), StorageError>) -> (r: Response)
    ensures
        match stored {
            Ok(_) => r@ == (ResponseView { status: OK, body: BodyView::Filename(filename@) }),
            Err(_) => r@ == (ResponseView {
                status: INTERNAL_SERVER_ERROR,
                body: BodyView::Error(STORE_IMAGE_FAILED@),
            }),
        },
{
    match stored {
        Ok(_) => Response { status: OK, body: Body::Filename(filename) },
        Err(_) => error_response(INTERNAL_SERVER_ERROR, STORE_IMAGE_FAILED),
    }
}

} // verus!
