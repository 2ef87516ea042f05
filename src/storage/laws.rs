//! Properties of the storage operations that span several calls, proved
//! over the store model that the operations' contracts speak of.
use vstd::prelude::*;

use crate::errors::ApiError;
use crate::storage::local_fs::{
    content_type_key, dir_entry_listing, dir_listing, filename_key, json_string_field_of,
    is_plain_file_name, local_get_spec, meta_suffix, ends_with,
};
use crate::storage::is_uuid_v4_text;
use crate::storage::{delete_spec, get_spec, lists, saved, FileView, ListEntry, StoreView};

verus! {

/// Whatever was saved comes back from `get` unchanged: the same bytes and
/// the same content type.
pub proof fn save_then_get(before: StoreView, file: FileView, id: Seq<char>, after: StoreView)
    requires
        saved(before, file, id, after),
    ensures
        get_spec(after, id) == Ok::<(Seq<u8>, Option<Seq<char>>), ApiError>(
            (file.bytes, file.content_type),
        ),
{
}

/// `get` of an identifier that is not in use, because it was never handed
/// out or because it was deleted, answers `NotFound`.
pub proof fn get_unknown_or_deleted(store: StoreView, id: Seq<char>)
    ensures
        !store.contains_key(id) ==> get_spec(store, id) == Err::<
            (Seq<u8>, Option<Seq<char>>),
            ApiError,
        >(ApiError::NotFound),
        get_spec(delete_spec(store, id).1, id) == Err::<(Seq<u8>, Option<Seq<char>>), ApiError>(
            ApiError::NotFound,
        ),
{
}

/// A saved file shows in every listing, under its identifier and with its
/// file name.
pub proof fn saved_file_is_listed(
    before: StoreView,
    file: FileView,
    id: Seq<char>,
    after: StoreView,
    entries: Seq<ListEntry>,
)
    requires
        saved(before, file, id, after),
        lists(after, entries),
    ensures
        exists|i: int| 0 <= i < entries.len() && entries[i] == (id, file.filename),
{
    assert(after.contains_key(id));
    let i = choose|i: int| 0 <= i < entries.len() && #[trigger] entries[i].0 == id;
    assert(entries[i] == (id, file.filename));
}

/// A stored file keeps its entry through every other operation: a `save`
/// (which never takes an identifier in use) and a `delete` of another
/// identifier. Only `delete` of its own identifier removes it.
pub proof fn entry_kept_until_deleted(
    store: StoreView,
    id: Seq<char>,
    other_file: FileView,
    other_id: Seq<char>,
    after_save: StoreView,
)
    requires
        store.contains_key(id),
        saved(store, other_file, other_id, after_save),
    ensures
        after_save.contains_key(id) && after_save[id] == store[id],
        id != other_id ==> delete_spec(store, other_id).1.contains_key(id)
            && delete_spec(store, other_id).1[id] == store[id],
        delete_spec(store, id).0 == Ok::<(), ApiError>(()),
        !delete_spec(store, id).1.contains_key(id),
{
}

/// Deleting twice: the second `delete` of the same identifier answers
/// `NotFound`.
pub proof fn delete_twice(store: StoreView, id: Seq<char>)
    ensures
        delete_spec(delete_spec(store, id).1, id).0 == Err::<(), ApiError>(ApiError::NotFound),
{
}

/// `delete` of an unknown identifier answers `NotFound` and leaves the
/// store as it was.
pub proof fn delete_unknown(store: StoreView, id: Seq<char>)
    requires
        !store.contains_key(id),
    ensures
        delete_spec(store, id) == (Err::<(), ApiError>(ApiError::NotFound), store),
{
}

/// Identifiers handed out by two `save`s in a row differ, and each differs
/// from every identifier that was in use before: operations on a store are
/// taken one at a time, so this holds however many callers save at once.
pub proof fn saves_get_distinct_ids(
    s0: StoreView,
    f1: FileView,
    id1: Seq<char>,
    s1: StoreView,
    f2: FileView,
    id2: Seq<char>,
    s2: StoreView,
)
    requires
        saved(s0, f1, id1, s1),
        saved(s1, f2, id2, s2),
    ensures
        id1 != id2,
        !s0.contains_key(id1),
        !s0.contains_key(id2),
        s2.contains_key(id1) && s2.contains_key(id2),
{
}

/// Any number of `save`s, one after another (as a shared store takes them):
/// all identifiers handed out differ, none was in use before, and at the end
/// each names the file saved under it.
pub proof fn saves_in_sequence_get_distinct_ids(
    states: Seq<StoreView>,
    files: Seq<FileView>,
    ids: Seq<Seq<char>>,
)
    requires
        states.len() == ids.len() + 1,
        files.len() == ids.len(),
        forall|i: int| 0 <= i < ids.len() ==> saved(states[i], files[i], #[trigger] ids[i], states[i + 1]),
    ensures
        forall|i: int, j: int| 0 <= i < j < ids.len() ==> #[trigger] ids[i] != #[trigger] ids[j],
        forall|i: int| 0 <= i < ids.len() ==> !states[0].contains_key(#[trigger] ids[i]),
        forall|i: int|
            0 <= i < ids.len() ==> states.last().contains_key(#[trigger] ids[i])
                && states.last()[ids[i]] == files[i],
{
    assert forall|i: int, j: int| 0 <= i < j < ids.len() implies #[trigger] ids[i] != #[trigger] ids[j] by {
        saves_kept(states, files, ids, j);
        assert(states[j].contains_key(ids[i]));
    }
    assert forall|i: int| 0 <= i < ids.len() implies !states[0].contains_key(#[trigger] ids[i]) by {
        saves_kept(states, files, ids, i);
        if states[0].contains_key(ids[i]) {
            assert(states[i].contains_key(ids[i]));
        }
    }
    saves_kept(states, files, ids, ids.len() as int);
    assert(states.last() == states[ids.len() as int]);
}

proof fn saves_kept(states: Seq<StoreView>, files: Seq<FileView>, ids: Seq<Seq<char>>, j: int)
    requires
        states.len() == ids.len() + 1,
        files.len() == ids.len(),
        forall|i: int| 0 <= i < ids.len() ==> saved(states[i], files[i], #[trigger] ids[i], states[i + 1]),
        0 <= j <= ids.len(),
    ensures
        forall|i: int|
            0 <= i < j ==> #[trigger] states[j].contains_key(ids[i]) && states[j][ids[i]] == files[i],
        forall|k: Seq<char>| #[trigger] states[0].contains_key(k) ==> states[j].contains_key(k),
    decreases j,
{
    if j > 0 {
        saves_kept(states, files, ids, j - 1);
        assert(saved(states[j - 1], files[j - 1], ids[j - 1], states[j]));
        assert forall|i: int| 0 <= i < j implies #[trigger] states[j].contains_key(ids[i])
            && states[j][ids[i]] == files[i] by {
            if i < j - 1 {
                assert(states[j - 1].contains_key(ids[i]));
            }
        }
    }
}

/// In the directory backend, `get` answers `NotFound` when the metadata file
/// is missing (the identifier was never saved), or when it is there but the
/// content file is gone (after a `delete` whose removal of the metadata file
/// failed).
pub proof fn directory_get_missing_files(meta: Option<Seq<char>>, content: Option<Seq<u8>>)
    ensures
        meta is None ==> local_get_spec(meta, content) == Err::<(Seq<u8>, Option<Seq<char>>), ApiError>(
            ApiError::NotFound,
        ),
        (meta matches Some(t) && json_string_field_of(t, content_type_key()) is Some) && content is None
            ==> local_get_spec(meta, content) == Err::<(Seq<u8>, Option<Seq<char>>), ApiError>(
            ApiError::NotFound,
        ),
{
}

/// In the directory backend, metadata that does not parse makes `get` fail
/// with `Internal`, while the listing leaves that entry out and keeps every
/// readable one.
pub proof fn directory_corrupt_metadata(
    entries: Seq<(Seq<char>, Option<Seq<char>>)>,
    bad: int,
    content: Option<Seq<u8>>,
)
    requires
        0 <= bad < entries.len(),
        entries[bad].1 matches Some(t) && json_string_field_of(t, content_type_key()) is None
            && json_string_field_of(t, filename_key()) is None,
        forall|i: int, j: int|
            0 <= i < j < entries.len() ==> #[trigger] entries[i].0 != #[trigger] entries[j].0,
    ensures
        local_get_spec(entries[bad].1, content) == Err::<(Seq<u8>, Option<Seq<char>>), ApiError>(
            ApiError::Internal,
        ),
        forall|j: int|
            0 <= j < dir_listing(entries).len() ==> #[trigger] dir_listing(entries)[j].0
                != entries[bad].0,
        forall|i: int|
            0 <= i < entries.len() && #[trigger] dir_entry_listing(entries[i].0, entries[i].1) is Some
                ==> dir_listing(entries).contains(dir_entry_listing(entries[i].0, entries[i].1)->0),
{
    listing_from_entries(entries);
    assert forall|j: int| 0 <= j < dir_listing(entries).len() implies #[trigger] dir_listing(
        entries,
    )[j].0 != entries[bad].0 by {
        let i = choose|i: int|
            0 <= i < entries.len() && dir_entry_listing(entries[i].0, entries[i].1) == Some(
                #[trigger] dir_listing(entries)[j],
            );
        if dir_listing(entries)[j].0 == entries[bad].0 {
            assert(i == bad);
        }
    }
    assert forall|i: int| 0 <= i < entries.len() && #[trigger] dir_entry_listing(entries[i].0, entries[i].1) is Some
        implies dir_listing(entries).contains(dir_entry_listing(entries[i].0, entries[i].1)->0) by {
        listing_keeps(entries, i);
    }
}

/// A file saved into the directory backend, whose metadata is readable,
/// shows in the listing exactly once, under its identifier and with its file
/// name (directory entry names are distinct).
pub proof fn directory_saved_file_listed_once(
    entries: Seq<(Seq<char>, Option<Seq<char>>)>,
    k: int,
    filename: Option<Seq<char>>,
)
    requires
        0 <= k < entries.len(),
        !ends_with(entries[k].0, meta_suffix()),
        entries[k].1 matches Some(t) && json_string_field_of(t, filename_key()) == Some(filename),
        forall|i: int, j: int|
            0 <= i < j < entries.len() ==> #[trigger] entries[i].0 != #[trigger] entries[j].0,
    ensures
        dir_listing(entries).contains((entries[k].0, filename)),
        forall|a: int, b: int|
            0 <= a < b < dir_listing(entries).len() ==> #[trigger] dir_listing(entries)[a].0
                != #[trigger] dir_listing(entries)[b].0,
{
    listing_keeps(entries, k);
    listing_distinct(entries);
}

/// Each entry of a directory listing comes from a directory entry.
proof fn listing_from_entries(entries: Seq<(Seq<char>, Option<Seq<char>>)>)
    ensures
        forall|j: int|
            0 <= j < dir_listing(entries).len() ==> exists|i: int|
                0 <= i < entries.len() && dir_entry_listing(entries[i].0, entries[i].1) == Some(
                    #[trigger] dir_listing(entries)[j],
                ),
    decreases entries.len(),
{
    if entries.len() > 0 {
        let rest = entries.drop_last();
        listing_from_entries(rest);
        assert forall|j: int| 0 <= j < dir_listing(entries).len() implies exists|i: int|
            0 <= i < entries.len() && dir_entry_listing(entries[i].0, entries[i].1) == Some(
                #[trigger] dir_listing(entries)[j],
            ) by {
            if j < dir_listing(rest).len() {
                let i = choose|i: int|
                    0 <= i < rest.len() && dir_entry_listing(rest[i].0, rest[i].1) == Some(
                        #[trigger] dir_listing(rest)[j],
                    );
                assert(rest[i] == entries[i]);
                assert(dir_listing(entries)[j] == dir_listing(rest)[j]);
            } else {
                let i = entries.len() - 1;
                assert(entries[i] == entries.last());
            }
        }
    }
}

/// A directory entry with a listing entry shows in the listing.
proof fn listing_keeps(entries: Seq<(Seq<char>, Option<Seq<char>>)>, k: int)
    requires
        0 <= k < entries.len(),
        dir_entry_listing(entries[k].0, entries[k].1) is Some,
    ensures
        dir_listing(entries).contains(dir_entry_listing(entries[k].0, entries[k].1)->0),
    decreases entries.len(),
{
    let rest = entries.drop_last();
    let e = dir_entry_listing(entries[k].0, entries[k].1)->0;
    if k == entries.len() - 1 {
        assert(entries.last() == entries[k]);
        assert(dir_listing(entries).last() == e);
    } else {
        assert(rest[k] == entries[k]);
        listing_keeps(rest, k);
        let j = choose|j: int| 0 <= j < dir_listing(rest).len() && dir_listing(rest)[j] == e;
        assert(dir_listing(entries)[j] == e);
    }
}

/// With distinct entry names, a listing names each identifier once.
proof fn listing_distinct(entries: Seq<(Seq<char>, Option<Seq<char>>)>)
    requires
        forall|i: int, j: int|
            0 <= i < j < entries.len() ==> #[trigger] entries[i].0 != #[trigger] entries[j].0,
    ensures
        forall|a: int, b: int|
            0 <= a < b < dir_listing(entries).len() ==> #[trigger] dir_listing(entries)[a].0
                != #[trigger] dir_listing(entries)[b].0,
    decreases entries.len(),
{
    if entries.len() > 0 {
        let rest = entries.drop_last();
        assert forall|i: int, j: int| 0 <= i < j < rest.len() implies #[trigger] rest[i].0 != #[trigger] rest[j].0 by {
            assert(rest[i] == entries[i] && rest[j] == entries[j]);
        }
        listing_distinct(rest);
        listing_from_entries(rest);
        let l = dir_listing(entries);
        let lr = dir_listing(rest);
        assert forall|a: int, b: int| 0 <= a < b < l.len() implies #[trigger] l[a].0 != #[trigger] l[b].0 by {
            if b >= lr.len() {
                let i = choose|i: int|
                    0 <= i < rest.len() && dir_entry_listing(rest[i].0, rest[i].1) == Some(
                        #[trigger] lr[a],
                    );
                assert(rest[i] == entries[i]);
                assert(entries.last() == entries[entries.len() - 1]);
                assert(l[a] == lr[a]);
            } else {
                assert(l[a] == lr[a] && l[b] == lr[b]);
            }
        }
    }
}

/// Every identifier a backend hands out names a file directly inside the
/// storage directory.
pub proof fn issued_ids_are_plain_file_names(id: Seq<char>)
    requires
        is_uuid_v4_text(id),
    ensures
        is_plain_file_name(id),
{
    assert(id.len() != seq!['.'].len() && id.len() != seq!['.', '.'].len());
    assert forall|i: int| 0 <= i < id.len() implies #[trigger] id[i] != '/' && id[i] != '\\' && id[i] != '\0' by {
        if !(i == 8 || i == 13 || i == 18 || i == 23) {
            assert(crate::storage::is_lower_hex(id[i]));
        }
    }
}

} // verus!
