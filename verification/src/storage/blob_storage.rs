//! Paths handed between a storage and its callers.

use vstd::prelude::*;

verus! {

/// A file that exists and is to be handed over to the storage.
#[derive(Debug)]
pub struct ExistingFilePath {
    path: String,
}

impl ExistingFilePath {
    /// The path of the file.
    pub closed spec fn spec_path(&self) -> Seq<char> {
        self.path@
    }

    /// The path of the file.
    pub fn path(&self) -> (p: &str)
        ensures
            p@ == self.spec_path(),
    {
        self.path.as_str()
    }
}

/// A path where a file is yet to be written; `finalize` marks it written.
#[derive(Debug)]
pub struct NonExistingFilePath {
    path: String,
}

impl NonExistingFilePath {
    /// The path where the file is to be written.
    pub closed spec fn spec_path(&self) -> Seq<char> {
        self.path@
    }

    /// A path handed out by a storage; only the storage creates these.
    pub(crate) fn new(path: String) -> (p: NonExistingFilePath)
        ensures
            p.spec_path() == path@,
    {
        NonExistingFilePath { path }
    }

    /// The path where the file is to be written.
    pub fn path(&self) -> (p: &str)
        ensures
            p@ == self.spec_path(),
    {
        self.path.as_str()
    }

    /// Call this when the file has been written: the same path, now existing.
    pub fn finalize(self) -> (e: ExistingFilePath)
        ensures
            e.spec_path() == self.spec_path(),
    {
        ExistingFilePath { path: self.path }
    }
}

} // verus!
