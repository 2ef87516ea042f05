//! A small file store: uploaded files get a fresh identifier and can later be
//! fetched, listed and deleted, from memory or from a directory on disk.
use vstd::prelude::*;

pub mod api;
pub mod errors;
pub mod storage;

verus! {

} // verus!
