//! The file manager: the older lookup scheme that walks a path's parents for
//! an archive of the same name. The file system work lives with the caller;
//! this module holds the root.

use vstd::prelude::*;

verus! {

/// Why a lookup failed: the file exists nowhere, or the caller's read
/// failed.
#[derive(Debug)]
pub enum FileManagerError {
    FileNotFound(String),
    Io(String),
}

/// A game data directory under the older lookup scheme.
#[derive(Debug)]
pub struct FileManager {
    pub root: String,
}

impl FileManager {
    /// Wrap a data directory root.
    pub fn new(root: String) -> (r: FileManager)
        ensures
            r.root == root,
    {
        FileManager { root }
    }
}

} // verus!
