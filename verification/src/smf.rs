//! The little of the binary model format that is plain logic: its version
//! string, and the face record's shape.

use vstd::prelude::*;

verus! {

broadcast use vstd::seq::group_seq_axioms, vstd::seq_lib::group_seq_lib_default;

/// One triangle of a mesh: its index and three vertex indices.
#[derive(Debug)]
pub struct Face {
    pub index: u32,
    pub indices: [u32; 3],
}

/// The text begins with the given prefix.
pub open spec fn spec_starts_with(s: Seq<char>, p: Seq<char>) -> bool {
    s.len() >= p.len() && s.subrange(0, p.len() as int) == p
}

/// The format version a model file's version string names, if any.
pub open spec fn spec_smf_version(s: Seq<char>) -> Option<u32> {
    if spec_starts_with(s, "SMF V1.0"@) {
        Some(1u32)
    } else if spec_starts_with(s, "SMF V1.1"@) {
        Some(2u32)
    } else {
        None
    }
}

/// Read the format version off a model file's version string.
pub fn smf_version(s: &str) -> (r: Option<u32>)
    ensures
        r == spec_smf_version(s@),
{
    proof {
        reveal_strlit("SMF V1.0");
        reveal_strlit("SMF V1.1");
    }
    let n = s.unicode_len();
    if n < 8 {
        return None;
    }
    proof {
        let sub = s@.subrange(0, 8);
        assert(sub[0] == s@[0] && sub[1] == s@[1] && sub[2] == s@[2] && sub[3] == s@[3] && sub[4]
            == s@[4] && sub[5] == s@[5] && sub[6] == s@[6] && sub[7] == s@[7]);
    }
    if s.get_char(0) != 'S' || s.get_char(1) != 'M' || s.get_char(2) != 'F' || s.get_char(3) != ' '
        || s.get_char(4) != 'V' || s.get_char(5) != '1' || s.get_char(6) != '.' {
        assert(!spec_starts_with(s@, "SMF V1.0"@));
        assert(!spec_starts_with(s@, "SMF V1.1"@));
        return None;
    }
    let c = s.get_char(7);
    if c == '0' {
        assert(s@.subrange(0, 8) =~= "SMF V1.0"@);
        Some(1)
    } else if c == '1' {
        assert(s@.subrange(0, 8) =~= "SMF V1.1"@);
        Some(2)
    } else {
        assert(!spec_starts_with(s@, "SMF V1.0"@));
        assert(!spec_starts_with(s@, "SMF V1.1"@));
        None
    }
}

} // verus!
