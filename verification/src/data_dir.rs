//! Looking files up in a game data directory: a file is either standalone on
//! disk or an entry of the archive named after the first component of its
//! path. The file system work lives with the caller; this module holds the
//! directory root and the path logic.

use vstd::prelude::*;
use vstd::string::StringExecFns;
use crate::gut::GutError;

verus! {

broadcast use vstd::std_specs::vec::group_vec_axioms, vstd::seq::group_seq_axioms,
    vstd::seq_lib::group_seq_lib_default;

/// Why a lookup failed: the file exists nowhere, the caller's read failed,
/// or the archive's header could not be read.
#[derive(Debug)]
pub enum DataDirError {
    FileNotFound(String),
    Io(String),
    GutError(GutError),
}

/// A game data directory.
#[derive(Debug)]
pub struct DataDir {
    pub root: String,
}

/// A path separator as it occurs inside data paths.
pub open spec fn is_path_sep(c: char) -> bool {
    c == '/' || c == '\\'
}

/// The end of a path's first component: its first separator, or its end.
pub open spec fn first_component_end(s: Seq<char>, i: int) -> int
    decreases s.len() - i,
{
    if i < 0 || i >= s.len() {
        s.len() as int
    } else if is_path_sep(s[i]) {
        i
    } else {
        first_component_end(s, i + 1)
    }
}

/// The name of the archive that may hold a path: the path's first component
/// with the archive suffix appended.
pub open spec fn spec_gut_candidate(path: Seq<char>) -> Seq<char> {
    path.subrange(0, first_component_end(path, 0)) + ".gut"@
}

impl DataDir {
    /// Wrap a data directory root.
    pub fn new(root: String) -> (r: DataDir)
        ensures
            r.root == root,
    {
        DataDir { root }
    }

    /// The file name of the archive that may hold `path`: the path's first
    /// component with the archive suffix. The caller joins it onto the root
    /// and checks whether such an archive exists.
    pub fn find_gut_file_path_for(&self, path: &str) -> (r: String)
        ensures
            r@ == spec_gut_candidate(path@),
    {
        let n = path.unicode_len();
        let mut out = String::new();
        let mut i: usize = 0;
        while i < n && path.get_char(i) != '/' && path.get_char(i) != '\\'
            invariant
                i <= n == path@.len(),
                first_component_end(path@, 0) == first_component_end(path@, i as int),
                out@ == path@.subrange(0, i as int),
            decreases n - i,
        {
            let ghost pre = out@;
            out.push(path.get_char(i));
            assert(out@ =~= path@.subrange(0, i + 1int));
            i += 1;
        }
        assert(first_component_end(path@, i as int) == i);
        out.append(".gut");
        assert(out@ =~= spec_gut_candidate(path@));
        out
    }
}

} // verus!
