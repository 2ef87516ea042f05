//! The in-memory backend: a map from identifier to file, and the order in
//! which the identifiers came, so that the store can be listed.
use vstd::prelude::*;
use vstd::hash_map::StringHashMap;

use crate::errors::ApiError;
use crate::storage::{
    delete_spec, get_spec, get_view, is_uuid_v4_text, listing_view, lists, new_file_id, opt_view, saved, FileData,
    StoreView,
};

verus! {

/// Files held in memory. Content is lost when the value is dropped.
///
/// Callers that share one store between tasks put it behind a lock: each
/// operation then takes the store whole, so every one is atomic.
pub struct InMemoryStorage {
    files: StringHashMap<FileData>,
    ids: Vec<String>,
}

fn clone_opt(o: &Option<String>) -> (r: Option<String>)
    ensures
        opt_view(r) == opt_view(*o),
{
    match o {
        Some(s) => Some(s.clone()),
        None => None,
    }
}

fn clone_bytes(b: &Vec<u8>) -> (r: Vec<u8>)
    ensures
        r@ == b@,
{
    let r = b.clone();
    assert(r@ =~= b@);
    r
}

impl View for InMemoryStorage {
    type V = StoreView;

    closed spec fn view(&self) -> StoreView {
        self.files@.map_values(|f: FileData| f@)
    }
}

impl InMemoryStorage {
    /// Every identifier in the map is listed once in `ids`, and nothing else is.
    pub closed spec fn wf(&self) -> bool {
        &&& forall|i: int|
            0 <= i < self.ids@.len() ==> self.files@.contains_key(#[trigger] self.ids@[i]@)
        &&& forall|k: Seq<char>|
            #[trigger] self.files@.contains_key(k) ==> exists|i: int|
                0 <= i < self.ids@.len() && #[trigger] self.ids@[i]@ == k
        &&& forall|i: int, j: int|
            0 <= i < j < self.ids@.len() ==> #[trigger] self.ids@[i]@ != #[trigger] self.ids@[j]@
    }

    /// An empty store.
    pub fn new() -> (r: Self)
        ensures
            r.wf(),
            r@ == StoreView::empty(),
    {
        let r = InMemoryStorage { files: StringHashMap::new(), ids: Vec::new() };
        assert(r@ =~= StoreView::empty());
        r
    }

    /// Stores `file` under `id`, which must not be in use: an identifier in
    /// use is never handed out twice, so then the store stays as it was and
    /// the answer is `Internal`.
    pub fn save_with_id(&mut self, id: String, file: FileData) -> (r: Result<String, ApiError>)
        requires
            old(self).wf(),
        ensures
            final(self).wf(),
            old(self)@.contains_key(id@) ==> r == Err::<String, ApiError>(ApiError::Internal)
                && final(self)@ == old(self)@,
            !old(self)@.contains_key(id@) ==> (r matches Ok(rid) && rid@ == id@ && saved(
                old(self)@,
                file@,
                id@,
                final(self)@,
            )),
    {
        if self.files.contains_key(id.as_str()) {
            return Err(ApiError::Internal);
        }
        let ghost fv = file@;
        self.files.insert(id.clone(), file);
        self.ids.push(id.clone());
        proof {
            let n = self.ids@.len() - 1;
            assert(self.ids@[n as int]@ == id@);
            assert forall|k: Seq<char>| #[trigger] self.files@.contains_key(k) implies exists|i: int|
                0 <= i < self.ids@.len() && #[trigger] self.ids@[i]@ == k by {
                if k == id@ {
                    assert(self.ids@[n as int]@ == k);
                } else {
                    assert(old(self).files@.contains_key(k));
                    let i = choose|i: int| 0 <= i < old(self).ids@.len() && #[trigger] old(self).ids@[i]@ == k;
                    assert(self.ids@[i]@ == k);
                }
            }
            assert(self@ =~= old(self)@.insert(id@, fv));
        }
        Ok(id)
    }

    /// Stores `file` under a fresh random identifier and returns it. Only
    /// if the identifier drawn happens to be in use already does the store
    /// stay as it was, with the answer `Internal`; on an empty store that
    /// cannot happen.
    pub fn save(&mut self, file: FileData) -> (r: Result<String, ApiError>)
        requires
            old(self).wf(),
        ensures
            final(self).wf(),
            match r {
                Ok(id) => saved(old(self)@, file@, id@, final(self)@) && is_uuid_v4_text(id@),
                Err(e) => e == ApiError::Internal && final(self)@ == old(self)@,
            },
            old(self)@ == StoreView::empty() ==> r is Ok,
    {
        let id = new_file_id();
        self.save_with_id(id, file)
    }

    /// The bytes and content type stored under `id`.
    pub fn get(&self, id: &str) -> (r: Result<(Vec<u8>, Option<String>), ApiError>)
        requires
            self.wf(),
        ensures
            get_view(r) == get_spec(self@, id@),
    {
        match self.files.get(id) {
            Some(f) => Ok((clone_bytes(&f.bytes), clone_opt(&f.content_type))),
            None => Err(ApiError::NotFound),
        }
    }

    /// Every stored identifier with its original file name, each once, in
    /// no promised order.
    pub fn list(&self) -> (r: Result<Vec<(String, Option<String>)>, ApiError>)
        requires
            self.wf(),
        ensures
            r matches Ok(v) && lists(self@, listing_view(v@)),
    {
        let mut out: Vec<(String, Option<String>)> = Vec::new();
        let mut i: usize = 0;
        while i < self.ids.len()
            invariant
                self.wf(),
                i <= self.ids@.len(),
                out@.len() == i,
                forall|j: int|
                    0 <= j < i ==> (#[trigger] out@[j]).0@ == self.ids@[j]@ && opt_view(out@[j].1)
                        == self@[self.ids@[j]@].filename,
            decreases self.ids@.len() - i,
        {
            let id = &self.ids[i];
            match self.files.get(id.as_str()) {
                Some(f) => {
                    out.push((id.clone(), clone_opt(&f.filename)));
                },
                None => {
                    assert(false);
                },
            }
            i = i + 1;
        }
        proof {
            let l = listing_view(out@);
            assert forall|k: Seq<char>| #[trigger] self@.contains_key(k) implies exists|j: int|
                0 <= j < l.len() && #[trigger] l[j].0 == k by {
                assert(self.files@.contains_key(k));
                let j = choose|j: int| 0 <= j < self.ids@.len() && #[trigger] self.ids@[j]@ == k;
                assert(l[j].0 == k);
            }
            assert forall|a: int, b: int| 0 <= a < b < l.len() implies #[trigger] l[a].0 != #[trigger] l[b].0 by {
                assert(self.ids@[a]@ != self.ids@[b]@);
            }
        }
        Ok(out)
    }

    /// Removes the file stored under `id`.
    pub fn delete(&mut self, id: &str) -> (r: Result<(), ApiError>)
        requires
            old(self).wf(),
        ensures
            final(self).wf(),
            (r, final(self)@) == delete_spec(old(self)@, id@),
    {
        if !self.files.contains_key(id) {
            return Err(ApiError::NotFound);
        }
        let key = id.to_owned();
        let ghost k = choose|i: int| 0 <= i < self.ids@.len() && #[trigger] self.ids@[i]@ == id@;
        let mut i: usize = 0;
        while i < self.ids.len() && !(self.ids[i] == key)
            invariant
                self.wf(),
                key@ == id@,
                0 <= k < self.ids@.len(),
                self.ids@[k]@ == id@,
                i <= k,
            decreases self.ids@.len() - i,
        {
            i = i + 1;
        }
        assert(i == k);
        self.ids.remove(i);
        self.files.remove(id);
        proof {
            assert(self@ =~= old(self)@.remove(id@));
            assert forall|j: int| 0 <= j < self.ids@.len() implies self.files@.contains_key(#[trigger] self.ids@[j]@) by {
                if j < k {
                    assert(self.ids@[j] == old(self).ids@[j]);
                } else {
                    assert(self.ids@[j] == old(self).ids@[j + 1]);
                }
            }
            assert forall|q: Seq<char>| #[trigger] self.files@.contains_key(q) implies exists|j: int|
                0 <= j < self.ids@.len() && #[trigger] self.ids@[j]@ == q by {
                let j = choose|j: int| 0 <= j < old(self).ids@.len() && #[trigger] old(self).ids@[j]@ == q;
                if j < k {
                    assert(self.ids@[j]@ == q);
                } else {
                    assert(self.ids@[j - 1]@ == q);
                }
            }
            assert forall|a: int, b: int| 0 <= a < b < self.ids@.len() implies #[trigger] self.ids@[a]@ != #[trigger] self.ids@[b]@ by {
                let a2 = if a < k { a } else { a + 1 };
                let b2 = if b < k { b } else { b + 1 };
                assert(self.ids@[a] == old(self).ids@[a2]);
                assert(self.ids@[b] == old(self).ids@[b2]);
            }
        }
        Ok(())
    }
}

} // verus!
