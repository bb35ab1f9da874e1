//! Path text helpers shared by the archive lookup code.

use vstd::prelude::*;

verus! {

broadcast use vstd::std_specs::vec::group_vec_axioms, vstd::seq::group_seq_axioms,
    vstd::seq_lib::group_seq_lib_default;

/// Every path separator, forward or backward, replaced by the given one.
pub open spec fn spec_change_separator(s: Seq<char>, sep: char) -> Seq<char> {
    s.map(|_i: int, c: char| if c == '/' || c == '\\' { sep } else { c })
}

/// Rewrite a path's separators: both `/` and `\` become `separator`.
pub fn change_separator(path: &str, separator: char) -> (r: String)
    ensures
        r@ == spec_change_separator(path@, separator),
{
    let n = path.unicode_len();
    let mut out = String::new();
    let mut i: usize = 0;
    while i < n
        invariant
            i <= n == path@.len(),
            out@ == spec_change_separator(path@.subrange(0, i as int), separator),
        decreases n - i,
    {
        let c = path.get_char(i);
        let ghost pre = out@;
        if c == '/' || c == '\\' {
            out.push(separator);
        } else {
            out.push(c);
        }
        assert(out@ =~= spec_change_separator(path@.subrange(0, i + 1int), separator));
        i += 1;
    }
    assert(path@.subrange(0, n as int) =~= path@);
    out
}

} // verus!
