//! What the HTTP layer decides on its own: links to stored files, the
//! bearer-token check, and the health text.
use vstd::prelude::*;
use vstd::string::StringExecFns;

use crate::storage::{listing_view, ListEntry};

verus! {

/// The path under which the file `id` is served.
pub open spec fn link_of(id: Seq<char>) -> Seq<char> {
    "/file/"@ + id
}

/// The value the `Authorization` header must have for `token`.
pub open spec fn bearer_of(token: Seq<char>) -> Seq<char> {
    "Bearer "@ + token
}

/// The text answered on the service's root path.
pub fn health_text() -> (r: String)
    ensures
        r@ == "OK\nAPI Version: 1.0"@,
{
    String::from_str("OK\nAPI Version: 1.0")
}

/// The path under which the file `id` is served.
pub fn file_link(id: &str) -> (r: String)
    ensures
        r@ == link_of(id@),
{
    let r = String::from_str("/file/");
    r.concat(id)
}

/// A listing with each identifier replaced by its path; file names and order
/// are kept.
pub fn file_links(files: Vec<(String, Option<String>)>) -> (r: Vec<(String, Option<String>)>)
    ensures
        r@.len() == files@.len(),
        forall|i: int|
            0 <= i < r@.len() ==> #[trigger] listing_view(r@)[i] == (
                link_of(listing_view(files@)[i].0),
                listing_view(files@)[i].1,
            ),
{
    let mut r: Vec<(String, Option<String>)> = Vec::new();
    let mut i: usize = 0;
    while i < files.len()
        invariant
            i <= files@.len(),
            r@.len() == i,
            forall|j: int|
                0 <= j < i ==> #[trigger] listing_view(r@)[j] == (
                    link_of(listing_view(files@)[j].0),
                    listing_view(files@)[j].1,
                ),
        decreases files@.len() - i,
    {
        let link = file_link(files[i].0.as_str());
        let name = files[i].1.clone();
        let ghost prev = r@;
        r.push((link, name));
        proof {
            assert(listing_view(r@)[i as int] == (
                link_of(listing_view(files@)[i as int].0),
                listing_view(files@)[i as int].1,
            ));
            assert forall|j: int| 0 <= j < i + 1 implies #[trigger] listing_view(r@)[j] == (
                link_of(listing_view(files@)[j].0),
                listing_view(files@)[j].1,
            ) by {
                if j < i {
                    assert(r@[j] == prev[j]);
                    assert(listing_view(prev)[j] == listing_view(r@)[j]);
                }
            }
        }
        i = i + 1;
    }
    r
}

/// Whether a request with this `Authorization` header (if any) may use the
/// protected routes: exactly when the header is `Bearer <token>`.
pub fn is_authorized(header: Option<&str>, token: &str) -> (r: bool)
    ensures
        r == (header matches Some(h) && h@ == bearer_of(token@)),
{
    match header {
        Some(h) => {
            let expected = String::from_str("Bearer ").concat(token);
            let given = h.to_owned();
            given == expected
        },
        None => false,
    }
}

} // verus!
