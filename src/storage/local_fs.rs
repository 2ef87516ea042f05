//! The local-filesystem backend. Each file is stored as two files in one
//! directory: `<id>` with the raw bytes and `<id>.meta`, a JSON object with
//! the keys `content_type` and `filename` (each a string or null).
//!
//! This module decides everything: file names, the metadata document, and
//! what each operation answers given what the reads and writes gave. The
//! reads and writes themselves are done by the caller.
//!
//! Two failures are deliberately tolerated. `list` leaves out entries whose
//! metadata is missing or unreadable rather than failing, so a listing may be
//! incomplete; and `delete` succeeds once the content file is gone, whatever
//! became of the metadata file.
use vstd::prelude::*;
use vstd::string::{StrSliceExecFns, StringExecFns};

use crate::errors::ApiError;
use crate::storage::{is_uuid_v4_text, new_file_id, opt_view, FileData, FileView, ListEntry};

verus! {

/// What serde_json finds in `text` at `key`: `None` when `text` is not
/// JSON; otherwise the string stored at `key` of the top-level object, if
/// there is one.
pub uninterp spec fn json_string_field_of(text: Seq<char>, key: Seq<char>) -> Option<
    Option<Seq<char>>,
>;

/// The compact JSON text serde_json writes for an object with these fields,
/// an absent value written as `null`.
pub uninterp spec fn json_object_text_of(fields: Seq<(Seq<char>, Option<Seq<char>>)>) -> Seq<char>;

/// The text form of the MIME type that mime parses from `s`, if it parses.
pub uninterp spec fn mime_text_of(s: Seq<char>) -> Option<Seq<char>>;

/// An optional field read from a document, seen as sequences.
pub open spec fn opt_opt_view(o: Option<Option<String>>) -> Option<Option<Seq<char>>> {
    match o {
        Some(i) => Some(opt_view(i)),
        None => None,
    }
}

/// The fields of a document, seen as sequences.
pub open spec fn fields_view(v: Seq<(String, Option<String>)>) -> Seq<(Seq<char>, Option<Seq<char>>)> {
    v.map_values(|e: (String, Option<String>)| (e.0@, opt_view(e.1)))
}

/// Relies on `serde_json::from_str::<serde_json::Value>`, then indexing the
/// value by `key` and `Value::as_str`: `None` when the text does not parse,
/// else the string at `key` (absent when the value is no object, lacks the
/// key, or holds no string there).
#[verifier::external_body]
fn json_string_field(text: &str, key: &str) -> (r: Option<Option<String>>)
    ensures
        opt_opt_view(r) == json_string_field_of(text@, key@),
{
    serde_json::from_str::<serde_json::Value>(text).ok().map(|v| v[key].as_str().map(|s| s.to_string()))
}

/// Relies on `serde_json::Value::Object` and its `to_string`: the JSON text
/// of an object with these fields, `None` written as `null`.
#[verifier::external_body]
fn json_object_text(fields: Vec<(String, Option<String>)>) -> (r: String)
    ensures
        r@ == json_object_text_of(fields_view(fields@)),
{
    let map: serde_json::Map<String, serde_json::Value> = fields
        .into_iter()
        .map(|(k, v)| (k, v.map_or(serde_json::Value::Null, serde_json::Value::String)))
        .collect();
    serde_json::Value::Object(map).to_string()
}

/// Relies on mime's `FromStr` for `mime::Mime` and its `Display`: the text
/// form of the parsed MIME type, `None` when `s` does not parse.
#[verifier::external_body]
fn mime_text(s: &str) -> (r: Option<String>)
    ensures
        opt_view(r) == mime_text_of(s@),
{
    s.parse::<mime::Mime>().ok().map(|m| m.to_string())
}

/// The suffix that marks a metadata file.
pub open spec fn meta_suffix() -> Seq<char> {
    seq!['.', 'm', 'e', 't', 'a']
}

/// Whether `s` ends with `suffix`.
pub open spec fn ends_with(s: Seq<char>, suffix: Seq<char>) -> bool {
    s.len() >= suffix.len() && s.subrange(s.len() - suffix.len(), s.len() as int) == suffix
}

/// The metadata key of the content type.
pub open spec fn content_type_key() -> Seq<char> {
    seq!['c', 'o', 'n', 't', 'e', 'n', 't', '_', 't', 'y', 'p', 'e']
}

/// The metadata key of the original file name.
pub open spec fn filename_key() -> Seq<char> {
    seq!['f', 'i', 'l', 'e', 'n', 'a', 'm', 'e']
}

/// The metadata document written for a file.
pub open spec fn meta_document_of(file: FileView) -> Seq<char> {
    json_object_text_of(seq![(content_type_key(), file.content_type), (filename_key(), file.filename)])
}

/// What `get` answers, given the metadata file's text (if it could be
/// read) and the content file's bytes (if they could be read).
pub open spec fn local_get_spec(meta: Option<Seq<char>>, content: Option<Seq<u8>>) -> Result<
    (Seq<u8>, Option<Seq<char>>),
    ApiError,
> {
    match meta {
        None => Err(ApiError::NotFound),
        Some(t) => get_after_meta(json_string_field_of(t, content_type_key()), content),
    }
}

/// What `get` answers once the metadata file was read, given its
/// `content_type` field (`None` when the metadata does not parse) and the
/// content file's bytes (if they could be read).
pub open spec fn get_after_meta(
    field: Option<Option<Seq<char>>>,
    content: Option<Seq<u8>>,
) -> Result<(Seq<u8>, Option<Seq<char>>), ApiError> {
    match field {
        None => Err(ApiError::Internal),
        Some(ct) => match content {
            None => Err(ApiError::NotFound),
            Some(b) => Ok(
                (
                    b,
                    match ct {
                        Some(c) => mime_text_of(c),
                        None => None,
                    },
                ),
            ),
        },
    }
}

/// The listing entry for one directory entry `name`, given the text of its
/// metadata file (if it could be read): none for a metadata file itself, nor
/// where the metadata is missing or does not parse.
pub open spec fn dir_entry_listing(name: Seq<char>, meta: Option<Seq<char>>) -> Option<ListEntry> {
    if ends_with(name, meta_suffix()) {
        None
    } else {
        match meta {
            None => None,
            Some(t) => match json_string_field_of(t, filename_key()) {
                None => None,
                Some(f) => Some((name, f)),
            },
        }
    }
}

/// The listing of a directory, entry by entry in the order given.
pub open spec fn dir_listing(entries: Seq<(Seq<char>, Option<Seq<char>>)>) -> Seq<ListEntry>
    decreases entries.len(),
{
    if entries.len() == 0 {
        Seq::empty()
    } else {
        let rest = dir_listing(entries.drop_last());
        match dir_entry_listing(entries.last().0, entries.last().1) {
            Some(e) => rest.push(e),
            None => rest,
        }
    }
}

/// A name that stands for one file directly inside the storage directory:
/// not empty, not `.` or `..`, and without a path separator or NUL.
pub open spec fn is_plain_file_name(s: Seq<char>) -> bool {
    &&& s.len() > 0
    &&& s != seq!['.']
    &&& s != seq!['.', '.']
    &&& forall|i: int| 0 <= i < s.len() ==> #[trigger] s[i] != '/' && s[i] != '\\' && s[i] != '\0'
}

/// Whether `s` ends with `suffix`.
pub fn str_ends_with(s: &str, suffix: &str) -> (r: bool)
    ensures
        r == ends_with(s@, suffix@),
{
    let n = s.unicode_len();
    let m = suffix.unicode_len();
    if n < m {
        return false;
    }
    let start = n - m;
    let mut i: usize = 0;
    while i < m
        invariant
            n == s@.len(),
            m == suffix@.len(),
            start == n - m,
            i <= m,
            forall|j: int| 0 <= j < i ==> s@[start + j] == suffix@[j],
        decreases m - i,
    {
        if s.get_char(start + i) != suffix.get_char(i) {
            assert(s@.subrange(start as int, n as int)[i as int] != suffix@[i as int]);
            return false;
        }
        i = i + 1;
    }
    assert(s@.subrange(start as int, n as int) =~= suffix@);
    true
}

/// A `save` to be carried out: write `meta_text` to `meta_file`, then
/// `bytes` to `content_file`, both in the storage directory.
pub struct SavePlan {
    pub id: String,
    pub meta_file: String,
    pub meta_text: String,
    pub content_file: String,
    pub bytes: Vec<u8>,
}

/// Files kept in one directory, two files for each.
pub struct LocalFileStorage {
    storage_path: String,
}

impl LocalFileStorage {
    /// A store over the directory `storage_path`; `dir_ready` says whether
    /// that directory exists or could be created. If not, the store cannot
    /// be opened and the answer is `Internal`.
    pub fn new(storage_path: String, dir_ready: bool) -> (r: Result<Self, ApiError>)
        ensures
            dir_ready ==> (r matches Ok(s) && s.path() == storage_path@),
            !dir_ready ==> r matches Err(ApiError::Internal),
    {
        if dir_ready {
            Ok(LocalFileStorage { storage_path })
        } else {
            Err(ApiError::Internal)
        }
    }

    /// The directory the files are kept in, as text.
    pub closed spec fn path(&self) -> Seq<char> {
        self.storage_path@
    }

    /// The directory the files are kept in.
    pub fn storage_path(&self) -> (r: &String)
        ensures
            r@ == self.path(),
    {
        &self.storage_path
    }

    /// The name of the file that holds the bytes stored under `id`.
    pub fn content_file_name(id: &str) -> (r: String)
        ensures
            r@ == id@,
    {
        id.to_owned()
    }

    /// Whether `id` can name a stored file at all. Every identifier handed
    /// out passes; one that would reach outside the storage directory does
    /// not, and is answered `NotFound` without touching the disk.
    pub fn is_plain_file_name(id: &str) -> (r: bool)
        ensures
            r == is_plain_file_name(id@),
    {
        let n = id.unicode_len();
        if n == 0 {
            return false;
        }
        if n <= 2 {
            let first_dot = id.get_char(0) == '.';
            let all_dots = first_dot && (n == 1 || id.get_char(1) == '.');
            if all_dots {
                assert(n == 1 ==> id@ =~= seq!['.']);
                assert(n == 2 ==> id@ =~= seq!['.', '.']);
                return false;
            }
            assert(id@ != seq!['.'] && id@ != seq!['.', '.']) by {
                if n == 1 {
                    assert(id@[0] != seq!['.'][0]);
                } else {
                    assert(id@[0] != '.' || id@[1] != '.');
                    assert(seq!['.', '.'][0] == '.' && seq!['.', '.'][1] == '.');
                }
            }
        } else {
            assert(id@.len() != seq!['.'].len() && id@.len() != seq!['.', '.'].len());
        }
        let mut i: usize = 0;
        while i < n
            invariant
                n == id@.len(),
                i <= n,
                forall|j: int| 0 <= j < i ==> #[trigger] id@[j] != '/' && id@[j] != '\\' && id@[j] != '\0',
            decreases n - i,
        {
            let c = id.get_char(i);
            if c == '/' || c == '\\' || c == '\0' {
                return false;
            }
            i = i + 1;
        }
        true
    }

    /// The name of the metadata file of `id`.
    pub fn meta_file_name(id: &str) -> (r: String)
        ensures
            r@ == id@ + meta_suffix(),
    {
        let mut r = id.to_owned();
        proof {
            reveal_strlit(".meta");
        }
        assert(".meta"@ =~= meta_suffix());
        r.append(".meta");
        r
    }

    /// Whether a directory entry is a metadata file.
    pub fn is_meta_file_name(name: &str) -> (r: bool)
        ensures
            r == ends_with(name@, meta_suffix()),
    {
        proof {
            reveal_strlit(".meta");
        }
        assert(".meta"@ =~= meta_suffix());
        str_ends_with(name, ".meta")
    }

    /// The metadata document of `file`.
    pub fn meta_document(file: &FileData) -> (r: String)
        ensures
            r@ == meta_document_of(file@),
    {
        proof {
            reveal_strlit("content_type");
            reveal_strlit("filename");
        }
        let ct_key = String::from_str("content_type");
        let name_key = String::from_str("filename");
        assert(ct_key@ =~= content_type_key());
        assert(name_key@ =~= filename_key());
        let mut fields: Vec<(String, Option<String>)> = Vec::new();
        fields.push((ct_key, file.content_type.clone()));
        fields.push((name_key, file.filename.clone()));
        assert(fields_view(fields@) =~= seq![(content_type_key(), file@.content_type), (filename_key(), file@.filename)]);
        json_object_text(fields)
    }

    /// Prepares the `save` of `file` under a fresh random identifier: the
    /// metadata document goes to `<id>.meta`, the bytes to `<id>`. The
    /// metadata file is to be written first.
    pub fn plan_save(&self, file: FileData) -> (r: SavePlan)
        ensures
            is_uuid_v4_text(r.id@),
            r.meta_file@ == r.id@ + meta_suffix(),
            r.content_file@ == r.id@,
            r.meta_text@ == meta_document_of(file@),
            r.bytes@ == file.bytes@,
    {
        let id = new_file_id();
        let meta_file = Self::meta_file_name(id.as_str());
        let content_file = Self::content_file_name(id.as_str());
        let meta_text = Self::meta_document(&file);
        SavePlan { id, meta_file, meta_text, content_file, bytes: file.bytes }
    }

    /// What `save` answers for `plan`. `id_in_use` says whether either of
    /// its two files was already in the directory: an identifier in use is
    /// never handed out again, so then nothing is to be written and the
    /// answer is `Internal`. Otherwise it is the identifier when both files
    /// were written, else `Internal`.
    pub fn save_result(plan: SavePlan, id_in_use: bool, meta_written: bool, content_written: bool) -> (r: Result<
        String,
        ApiError,
    >)
        ensures
            !id_in_use && meta_written && content_written ==> (r matches Ok(id) && id@ == plan.id@),
            !(!id_in_use && meta_written && content_written) ==> r matches Err(ApiError::Internal),
    {
        if !id_in_use && meta_written && content_written {
            Ok(plan.id)
        } else {
            Err(ApiError::Internal)
        }
    }

    /// What `get` answers, given the text of the metadata file and the bytes
    /// of the content file, each `None` where it could not be read: a missing
    /// file is `NotFound`, metadata that does not parse is `Internal`.
    pub fn get_result(meta_text: Option<String>, content: Option<Vec<u8>>) -> (r: Result<
        (Vec<u8>, Option<String>),
        ApiError,
    >)
        ensures
            crate::storage::get_view(r) == local_get_spec(
                opt_view(meta_text),
                match content {
                    Some(b) => Some(b@),
                    None => None,
                },
            ),
    {
        let text = match meta_text {
            Some(t) => t,
            None => {
                return Err(ApiError::NotFound);
            },
        };
        proof {
            reveal_strlit("content_type");
        }
        assert("content_type"@ =~= content_type_key());
        let field = json_string_field(text.as_str(), "content_type");
        Self::get_with_field(field, content)
    }

    /// What `get` answers once the metadata file was read, given what its
    /// text holds at `content_type` (`None` when the text does not parse)
    /// and the content file's bytes where they could be read.
    pub fn get_with_field(field: Option<Option<String>>, content: Option<Vec<u8>>) -> (r: Result<
        (Vec<u8>, Option<String>),
        ApiError,
    >)
        ensures
            crate::storage::get_view(r) == get_after_meta(
                opt_opt_view(field),
                match content {
                    Some(b) => Some(b@),
                    None => None,
                },
            ),
    {
        let field = match field {
            Some(f) => f,
            None => {
                return Err(ApiError::Internal);
            },
        };
        let bytes = match content {
            Some(b) => b,
            None => {
                return Err(ApiError::NotFound);
            },
        };
        let content_type = match field {
            Some(c) => mime_text(c.as_str()),
            None => None,
        };
        Ok((bytes, content_type))
    }

    /// The listing entry for the directory entry `name`, given the text of
    /// its metadata file where it could be read.
    pub fn entry_listing(name: String, meta_text: Option<String>) -> (r: Option<
        (String, Option<String>),
    >)
        ensures
            match r {
                Some(e) => dir_entry_listing(name@, opt_view(meta_text)) == Some(
                    (e.0@, opt_view(e.1)),
                ),
                None => dir_entry_listing(name@, opt_view(meta_text)) is None,
            },
    {
        if Self::is_meta_file_name(name.as_str()) {
            return None;
        }
        let text = match meta_text {
            Some(t) => t,
            None => {
                return None;
            },
        };
        proof {
            reveal_strlit("filename");
        }
        assert("filename"@ =~= filename_key());
        match json_string_field(text.as_str(), "filename") {
            Some(f) => Some((name, f)),
            None => None,
        }
    }

    /// What `list` answers, given the directory's entries, each with the text
    /// of its metadata file where it could be read, or `None` where the
    /// directory itself could not be read (`Internal`). Entries without
    /// readable metadata are left out, not reported.
    pub fn list_result(dir: Option<Vec<(String, Option<String>)>>) -> (r: Result<
        Vec<(String, Option<String>)>,
        ApiError,
    >)
        ensures
            match dir {
                None => r matches Err(ApiError::Internal),
                Some(d) => r matches Ok(v) && crate::storage::listing_view(v@) == dir_listing(
                    fields_view(d@),
                ),
            },
    {
        let entries = match dir {
            Some(d) => d,
            None => {
                return Err(ApiError::Internal);
            },
        };
        let ghost all = fields_view(entries@);
        let mut out: Vec<(String, Option<String>)> = Vec::new();
        let mut i: usize = 0;
        while i < entries.len()
            invariant
                i <= entries@.len(),
                all == fields_view(entries@),
                crate::storage::listing_view(out@) == dir_listing(all.take(i as int)),
            decreases entries@.len() - i,
        {
            let name = entries[i].0.clone();
            let meta = entries[i].1.clone();
            proof {
                assert(all.take(i as int + 1).drop_last() =~= all.take(i as int));
            }
            match Self::entry_listing(name, meta) {
                Some(e) => {
                    out.push(e);
                    assert(crate::storage::listing_view(out@) =~= dir_listing(all.take(i as int + 1)));
                },
                None => {},
            }
            i = i + 1;
        }
        assert(all.take(entries@.len() as int) =~= all);
        Ok(out)
    }

    /// What `delete` answers once removal of the content file was tried:
    /// `NotFound` if it could not be removed. The metadata file's removal is
    /// best effort and does not change the answer.
    pub fn delete_result(content_removed: bool) -> (r: Result<(), ApiError>)
        ensures
            content_removed ==> r matches Ok(()),
            !content_removed ==> r matches Err(ApiError::NotFound),
    {
        if content_removed {
            Ok(())
        } else {
            Err(ApiError::NotFound)
        }
    }
}

} // verus!
