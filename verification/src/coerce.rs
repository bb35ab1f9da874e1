//! Parameter coercion: how a textual parameter becomes a typed scalar.
//!
//! Strings pass through unchanged; integers are parsed as decimal literals
//! with an optional sign; a positional boolean is true exactly when its
//! parameter parses as the integer one. Absent or malformed numeric text
//! yields the type's zero value at the binding sites, never an error.

use vstd::prelude::*;
use crate::config::ConfigLine;

verus! {

broadcast use vstd::std_specs::vec::group_vec_axioms, vstd::seq::group_seq_axioms,
    vstd::seq_lib::group_seq_lib_default;

/// An ASCII decimal digit.
pub open spec fn is_digit(c: char) -> bool {
    0x30 <= (c as u32) <= 0x39
}

/// The numeric value of one digit character.
pub open spec fn digit_val(c: char) -> int {
    (c as u32) - 0x30
}

/// Every character of the text is a digit.
pub open spec fn all_digits(s: Seq<char>) -> bool {
    forall|i: int| 0 <= i < s.len() ==> is_digit(s[i])
}

/// The value of a digit string read in base ten.
pub open spec fn digits_val(s: Seq<char>) -> int
    decreases s.len(),
{
    if s.len() == 0 {
        0
    } else {
        digits_val(s.drop_last()) * 10 + digit_val(s.last())
    }
}

pub proof fn lemma_digits_val_nonneg(s: Seq<char>)
    requires
        all_digits(s),
    ensures
        digits_val(s) >= 0,
    decreases s.len(),
{
    if s.len() > 0 {
        assert(is_digit(s.last()));
        assert(digit_val(s.last()) >= 0);
        assert(all_digits(s.drop_last()));
        lemma_digits_val_nonneg(s.drop_last());
        assert(digits_val(s.drop_last()) * 10 >= 0) by (nonlinear_arith)
            requires
                digits_val(s.drop_last()) >= 0,
        ;
        assert(digits_val(s) == digits_val(s.drop_last()) * 10 + digit_val(s.last()));
    }
}

/// The digit string after an optional leading plus sign.
pub open spec fn unsigned_body(s: Seq<char>) -> Seq<char> {
    if s.len() > 0 && s[0] == '+' {
        s.drop_first()
    } else {
        s
    }
}

/// A `u32` read the way the standard decimal parser reads it: an optional
/// `+`, then one or more digits, and the value must fit.
pub open spec fn spec_parse_u32(s: Seq<char>) -> Option<u32> {
    let t = unsigned_body(s);
    if t.len() == 0 || !all_digits(t) {
        None
    } else if digits_val(t) > u32::MAX {
        None
    } else {
        Some(digits_val(t) as u32)
    }
}

/// An `i32` read the way the standard decimal parser reads it: an optional
/// sign, then one or more digits, and the value must fit.
pub open spec fn spec_parse_i32(s: Seq<char>) -> Option<i32> {
    if s.len() > 0 && s[0] == '-' {
        let t = s.drop_first();
        if t.len() == 0 || !all_digits(t) {
            None
        } else if digits_val(t) > 0x8000_0000 {
            None
        } else {
            Some((-digits_val(t)) as i32)
        }
    } else {
        let t = unsigned_body(s);
        if t.len() == 0 || !all_digits(t) {
            None
        } else if digits_val(t) > i32::MAX {
            None
        } else {
            Some(digits_val(t) as i32)
        }
    }
}

/// The value-based boolean convention: true exactly when the parameter is
/// the integer one.
pub open spec fn spec_parse_bool(s: Seq<char>) -> Option<bool> {
    match spec_parse_u32(s) {
        Some(v) => Some(v == 1u32),
        None => None,
    }
}

/// Read the digits of `s` from index `from` on. Returns the value, or `None`
/// on a non-digit, an empty range, or a value above `bound`.
fn parse_digits(s: &str, from: usize, bound: u32) -> (r: Option<u32>)
    requires
        from <= s@.len(),
    ensures
        ({
            let t = s@.skip(from as int);
            match r {
                Some(v) => t.len() > 0 && all_digits(t) && digits_val(t) == v && v <= bound,
                None => t.len() == 0 || !all_digits(t) || digits_val(t) > bound,
            }
        }),
{
    let ghost t = s@.skip(from as int);
    let n = s.unicode_len();
    if from == n {
        return None;
    }
    let mut acc: u64 = 0;
    let mut over = false;
    let mut j = from;
    while j < n
        invariant
            from <= j <= n == s@.len(),
            t == s@.skip(from as int),
            forall|k: int| from <= k < j ==> is_digit(s@[k]),
            over <==> digits_val(s@.subrange(from as int, j as int)) > bound,
            !over ==> acc == digits_val(s@.subrange(from as int, j as int)),
            acc <= bound,
        decreases n - j,
    {
        let c = s.get_char(j);
        let u = c as u32;
        if u < 0x30 || u > 0x39 {
            assert(!is_digit(t[j - from]));
            return None;
        }
        let d = (u - 0x30) as u64;
        let ghost pre = s@.subrange(from as int, j as int);
        let ghost post = s@.subrange(from as int, j + 1int);
        assert(post.drop_last() =~= pre);
        assert(post.last() == s@[j as int]);
        if over || acc * 10 + d > bound as u64 {
            proof {
                if over {
                    assert(all_digits(pre));
                    lemma_digits_val_nonneg(pre);
                    assert(digits_val(pre) * 10 + digit_val(s@[j as int]) > bound)
                        by (nonlinear_arith)
                        requires
                            digits_val(pre) > bound,
                            digits_val(pre) >= 0,
                            digit_val(s@[j as int]) >= 0,
                    ;
                }
            }
            over = true;
        } else {
            acc = acc * 10 + d;
        }
        j += 1;
    }
    assert(s@.subrange(from as int, n as int) =~= t);
    if over {
        None
    } else {
        Some(acc as u32)
    }
}

/// Parse a parameter as a `u32`; `None` when the text is not a decimal
/// literal in range.
pub fn parse_u32_param(s: &str) -> (r: Option<u32>)
    ensures
        r == spec_parse_u32(s@),
{
    let n = s.unicode_len();
    let from: usize = if n > 0 && s.get_char(0) == '+' {
        1
    } else {
        0
    };
    assert(unsigned_body(s@) =~= s@.skip(from as int));
    parse_digits(s, from, u32::MAX)
}

/// Parse a parameter as an `i32`; `None` when the text is not a decimal
/// literal in range.
pub fn parse_i32_param(s: &str) -> (r: Option<i32>)
    ensures
        r == spec_parse_i32(s@),
{
    let n = s.unicode_len();
    if n > 0 && s.get_char(0) == '-' {
        assert(s@.drop_first() =~= s@.skip(1));
        match parse_digits(s, 1, 0x8000_0000) {
            Some(v) => {
                if v == 0x8000_0000 {
                    Some(i32::MIN)
                } else {
                    Some(-(v as i32))
                }
            },
            None => None,
        }
    } else {
        let from: usize = if n > 0 && s.get_char(0) == '+' {
            1
        } else {
            0
        };
        assert(unsigned_body(s@) =~= s@.skip(from as int));
        match parse_digits(s, from, 0x7FFF_FFFF) {
            Some(v) => Some(v as i32),
            None => None,
        }
    }
}

/// Parse a parameter as a value-based boolean; `None` when the text is not a
/// decimal literal in range.
pub fn parse_bool_param(s: &str) -> (r: Option<bool>)
    ensures
        r == spec_parse_bool(s@),
{
    match parse_u32_param(s) {
        Some(v) => Some(v == 1),
        None => None,
    }
}

/// A scalar that can be read from one textual parameter.
pub trait FromParam: View + Sized {
    /// What the coercion yields on the given text, if anything.
    spec fn spec_from(s: Seq<char>) -> Option<Self::V>;

    /// Coerce one parameter.
    fn from(param: String) -> (r: Option<Self>)
        ensures
            match r {
                Some(v) => Self::spec_from(param@) == Some(v@),
                None => Self::spec_from(param@) is None,
            },
    ;
}

impl FromParam for String {
    open spec fn spec_from(s: Seq<char>) -> Option<Seq<char>> {
        Some(s)
    }

    fn from(param: String) -> (r: Option<Self>) {
        Some(param)
    }
}

impl FromParam for bool {
    open spec fn spec_from(s: Seq<char>) -> Option<bool> {
        spec_parse_bool(s)
    }

    fn from(param: String) -> (r: Option<Self>) {
        parse_bool_param(param.as_str())
    }
}

impl FromParam for u32 {
    open spec fn spec_from(s: Seq<char>) -> Option<u32> {
        spec_parse_u32(s)
    }

    fn from(param: String) -> (r: Option<Self>) {
        parse_u32_param(param.as_str())
    }
}

impl FromParam for i32 {
    open spec fn spec_from(s: Seq<char>) -> Option<i32> {
        spec_parse_i32(s)
    }

    fn from(param: String) -> (r: Option<Self>) {
        parse_i32_param(param.as_str())
    }
}

impl ConfigLine {
    /// The parameter at `index`, coerced to `T`; `None` when the parameter is
    /// absent or does not coerce.
    pub fn param<T: FromParam>(&self, index: usize) -> (r: Option<T>)
        ensures
            match r {
                Some(v) => index < self@.params.len() && T::spec_from(
                    self@.params[index as int],
                ) == Some(v@),
                None => index >= self@.params.len() || T::spec_from(
                    self@.params[index as int],
                ) is None,
            },
    {
        if index < self.params.len() {
            let p = self.params[index].clone();
            T::from(p)
        } else {
            None
        }
    }
}

} // verus!
