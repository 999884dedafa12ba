//! Records of indexed data: one file's term frequencies, and a stored index.

use vstd::prelude::*;

verus! {

/// A file path together with the term-frequency table of that file, lent
/// from the index that owns it.
pub struct IndexModel<'a, F> {
    pub id: String,
    pub file_path: String,
    pub data: &'a F,
}

impl<'a, F> IndexModel<'a, F> {
    /// The record of `file_path` under `id`, over the table `data`.
    pub fn new(id: String, file_path: String, data: &'a F) -> (r: IndexModel<'a, F>)
        ensures
            r.id@ == id@,
            r.file_path@ == file_path@,
            r.data == data,
    {
        IndexModel { id, file_path, data }
    }
}

/// An index kept under an identifier.
pub struct StoredIndexModel<I> {
    pub id: String,
    pub data: I,
}

impl<I> StoredIndexModel<I> {
    /// The index `data` kept under `id`.
    pub fn new(id: String, data: I) -> (r: StoredIndexModel<I>)
        ensures
            r.id@ == id@,
            r.data == data,
    {
        StoredIndexModel { id, data }
    }
}

} // verus!
