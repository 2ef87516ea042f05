//! The storage model shared by every backend: what a stored file is, and
//! what each of the four operations (`save`, `get`, `list`, `delete`) does to
//! a store seen as a map from identifier to file.
use vstd::prelude::*;

use crate::errors::ApiError;

pub mod in_memory;
pub mod laws;
pub mod local_fs;

pub use in_memory::InMemoryStorage;
pub use local_fs::LocalFileStorage;

verus! {

/// One upload: the bytes, and the content type and file name the client declared.
#[derive(Debug)]
pub struct FileData {
    pub bytes: Vec<u8>,
    /// The MIME type in its text form, such as `text/plain`.
    pub content_type: Option<String>,
    pub filename: Option<String>,
}

/// The mathematical value of a [`FileData`].
pub struct FileView {
    pub bytes: Seq<u8>,
    pub content_type: Option<Seq<char>>,
    pub filename: Option<Seq<char>>,
}

/// An optional string seen as an optional character sequence.
pub open spec fn opt_view(o: Option<String>) -> Option<Seq<char>> {
    match o {
        Some(s) => Some(s@),
        None => None,
    }
}

impl View for FileData {
    type V = FileView;

    open spec fn view(&self) -> FileView {
        FileView {
            bytes: self.bytes@,
            content_type: opt_view(self.content_type),
            filename: opt_view(self.filename),
        }
    }
}

/// A store seen from outside: each identifier in use and the file it names.
pub type StoreView = Map<Seq<char>, FileView>;

/// `save` of `file` into `before` handed out `id` and left `after`:
/// the identifier was not in use, and now names the file.
pub open spec fn saved(before: StoreView, file: FileView, id: Seq<char>, after: StoreView) -> bool {
    &&& !before.contains_key(id)
    &&& after == before.insert(id, file)
}

/// What `get(id)` answers on a store: the bytes and content type as saved,
/// or `NotFound`.
pub open spec fn get_spec(store: StoreView, id: Seq<char>) -> Result<
    (Seq<u8>, Option<Seq<char>>),
    ApiError,
> {
    if store.contains_key(id) {
        Ok((store[id].bytes, store[id].content_type))
    } else {
        Err(ApiError::NotFound)
    }
}

/// The mathematical value of what `get` returns.
pub open spec fn get_view(r: Result<(Vec<u8>, Option<String>), ApiError>) -> Result<
    (Seq<u8>, Option<Seq<char>>),
    ApiError,
> {
    match r {
        Ok((b, c)) => Ok((b@, opt_view(c))),
        Err(e) => Err(e),
    }
}

/// An entry of a listing: an identifier and the original file name.
pub type ListEntry = (Seq<char>, Option<Seq<char>>);

/// The mathematical value of a listing.
pub open spec fn listing_view(v: Seq<(String, Option<String>)>) -> Seq<ListEntry> {
    v.map_values(|e: (String, Option<String>)| (e.0@, opt_view(e.1)))
}

/// `entries` lists `store`: each stored file once, with its file name, in
/// some order.
pub open spec fn lists(store: StoreView, entries: Seq<ListEntry>) -> bool {
    &&& forall|i: int|
        0 <= i < entries.len() ==> store.contains_key(#[trigger] entries[i].0) && entries[i].1
            == store[entries[i].0].filename
    &&& forall|id: Seq<char>|
        #[trigger] store.contains_key(id) ==> exists|i: int|
            0 <= i < entries.len() && #[trigger] entries[i].0 == id
    &&& forall|i: int, j: int|
        0 <= i < j < entries.len() ==> #[trigger] entries[i].0 != #[trigger] entries[j].0
}

/// What `delete(id)` answers on a store, and the store it leaves.
pub open spec fn delete_spec(store: StoreView, id: Seq<char>) -> (Result<(), ApiError>, StoreView) {
    if store.contains_key(id) {
        (Ok(()), store.remove(id))
    } else {
        (Err(ApiError::NotFound), store)
    }
}

/// A lowercase hexadecimal digit.
pub open spec fn is_lower_hex(c: char) -> bool {
    ('0' <= c && c <= '9') || ('a' <= c && c <= 'f')
}

/// The hyphenated lowercase text of a version-4 UUID: 36 characters, hyphens
/// at 8, 13, 18 and 23, hex digits elsewhere, the version digit `4` at 14 and
/// the variant digit (one of `8`, `9`, `a`, `b`) at 19.
pub open spec fn is_uuid_v4_text(s: Seq<char>) -> bool {
    &&& s.len() == 36
    &&& forall|i: int|
        0 <= i < 36 ==> if i == 8 || i == 13 || i == 18 || i == 23 {
            s[i] == '-'
        } else {
            is_lower_hex(#[trigger] s[i])
        }
    &&& s[14] == '4'
    &&& (s[19] == '8' || s[19] == '9' || s[19] == 'a' || s[19] == 'b')
}

/// Relies on uuid's `Uuid::new_v4` and its `Display`: random bits with the
/// version set to 4 and the RFC 4122 variant, written in hyphenated lowercase
/// form. Which identifier comes out is left to chance.
#[verifier::external_body]
pub(crate) fn new_file_id() -> (r: String)
    ensures
        is_uuid_v4_text(r@),
{
    uuid::Uuid::new_v4().to_string()
}

} // verus!
