//! Shared helpers: the archive name hash, byte-buffer de-obfuscation, and
//! fixed-width string fields of binary headers.

use vstd::prelude::*;
use crate::tokenize::line_chars;

verus! {

broadcast use vstd::std_specs::vec::group_vec_axioms, vstd::seq::group_seq_axioms,
    vstd::seq_lib::group_seq_lib_default;

/// The de-obfuscation applied to plain-text archive entries: every byte is
/// complemented.
pub open spec fn spec_decrypt(s: Seq<u8>) -> Seq<u8> {
    s.map(|_i: int, b: u8| !b)
}

/// Complement every byte of the buffer in place.
pub fn decrypt_buf(s: &mut Vec<u8>)
    ensures
        final(s)@ == spec_decrypt(old(s)@),
{
    let n = s.len();
    let mut i: usize = 0;
    while i < n
        invariant
            n == s@.len(),
            i <= n,
            forall|j: int| 0 <= j < i ==> s@[j] == !old(s)@[j],
            forall|j: int| i <= j < n ==> s@[j] == old(s)@[j],
        decreases n - i,
    {
        let b = s[i];
        s[i] = !b;
        i += 1;
    }
    assert(s@ =~= spec_decrypt(old(s)@));
}

/// One shift round of the name hash: shift left, folding the outgoing high
/// bit back in with the generator constant.
pub open spec fn crc_shift(v: u16) -> u16 {
    if v & 0x8000 != 0 {
        (v << 1) ^ 0x1021
    } else {
        v << 1
    }
}

pub open spec fn crc_rounds(v: u16, k: nat) -> u16
    decreases k,
{
    if k == 0 {
        v
    } else {
        crc_shift(crc_rounds(v, (k - 1) as nat))
    }
}

/// The hash table entry for one index byte: eight shift rounds of the index
/// placed in the high byte.
pub open spec fn crc_entry(idx: u8) -> u16 {
    crc_rounds((idx as u16) << 8, 8)
}

/// One character folded into a running hash half.
pub open spec fn spec_encode_char(h: u16, ch: u8) -> u16 {
    crc_entry(((h >> 8) as u8) ^ ch) ^ (h << 8)
}

/// An upper-case ASCII letter folded to lower case; every other byte is
/// taken as it is.
pub open spec fn spec_fold_lower(b: u8) -> u8 {
    if 0x41 <= b <= 0x5A {
        (b + 0x20) as u8
    } else {
        b
    }
}

/// The two halves of the name hash: characters at even positions feed the
/// first half, characters at odd positions the second, case-folded, stopping
/// at the end or at a zero byte.
pub open spec fn spec_hash_parts(bytes: Seq<u8>, i: int, p0: u16, p1: u16) -> (u16, u16)
    decreases bytes.len() - i,
{
    if i < 0 || i >= bytes.len() {
        (p0, p1)
    } else {
        let ch = spec_fold_lower(bytes[i]);
        if ch == 0 {
            (p0, p1)
        } else if i % 2 == 0 {
            spec_hash_parts(bytes, i + 1, spec_encode_char(p0, ch), p1)
        } else {
            spec_hash_parts(bytes, i + 1, p0, spec_encode_char(p1, ch))
        }
    }
}

/// The archive name hash of a path.
pub open spec fn spec_hash(bytes: Seq<u8>) -> u32 {
    let parts = spec_hash_parts(bytes, 0, 0xFFFF, 0xFFFF);
    ((parts.0 as u32) << 16) | (parts.1 as u32)
}

fn crc_table_entry(idx: u8) -> (r: u16)
    ensures
        r == crc_entry(idx),
{
    let mut v: u16 = (idx as u16) << 8;
    let mut k: usize = 0;
    while k < 8
        invariant
            k <= 8,
            v == crc_rounds((idx as u16) << 8, k as nat),
        decreases 8 - k,
    {
        let shifted = v << 1;
        if v & 0x8000 != 0 {
            v = shifted ^ 0x1021;
        } else {
            v = shifted;
        }
        k += 1;
    }
    v
}

fn encode_char(hash: &mut u16, ch: u8)
    ensures
        *final(hash) == spec_encode_char(*old(hash), ch),
{
    let index = ((*hash >> 8) as u8) ^ ch;
    let hash_lookup = crc_table_entry(index);
    *hash = hash_lookup ^ (*hash << 8);
}

/// The hash under which a path is filed in an archive header: a pair of
/// 16-bit checksums over the case-folded path, one per character parity.
pub fn hash(path: &[u8]) -> (r: u32)
    ensures
        r == spec_hash(path@),
{
    let mut p0: u16 = 0xFFFF;
    let mut p1: u16 = 0xFFFF;
    let n = path.len();
    let mut i: usize = 0;
    while i < n
        invariant
            i <= n == path@.len(),
            spec_hash_parts(path@, 0, 0xFFFF, 0xFFFF) == spec_hash_parts(path@, i as int, p0, p1),
        decreases n - i,
    {
        let b = path[i];
        let ch = if b >= 0x41 && b <= 0x5A {
            b + 0x20
        } else {
            b
        };
        if ch == 0 {
            return ((p0 as u32) << 16) | (p1 as u32);
        }
        if i % 2 == 0 {
            encode_char(&mut p0, ch);
        } else {
            encode_char(&mut p1, ch);
        }
        i += 1;
    }
    ((p0 as u32) << 16) | (p1 as u32)
}

/// First index in `[i, end)` holding a zero byte, or `end`.
pub open spec fn find_nul(bytes: Seq<u8>, i: int, end: int) -> int
    decreases end - i,
{
    if i < 0 || i >= end || i >= bytes.len() {
        end
    } else if bytes[i] == 0 {
        i
    } else {
        find_nul(bytes, i + 1, end)
    }
}

/// The content of a fixed-width string field of `len` bytes at `pos`: the
/// characters before the first zero byte, at most `len - 1` of them.
pub open spec fn spec_fixed_string(bytes: Seq<u8>, pos: int, len: int) -> Seq<char> {
    line_chars(bytes.subrange(pos, find_nul(bytes, pos, pos + len - 1)))
}

/// Read a fixed-width string field: `len` bytes at `pos`, of which the bytes
/// before the first zero, at most `len - 1`, are the string.
pub fn read_fixed_string(bytes: &[u8], pos: usize, len: usize) -> (r: String)
    requires
        len >= 1,
        pos + len <= bytes@.len(),
    ensures
        r@ == spec_fixed_string(bytes@, pos as int, len as int),
{
    let ghost end = pos + len - 1;
    let n = bytes.len();
    let mut s = String::new();
    let mut i = pos;
    while i < pos + (len - 1) && bytes[i] != 0
        invariant
            pos <= i <= end <= n == bytes@.len(),
            end == pos + len - 1,
            len >= 1,
            find_nul(bytes@, pos as int, end as int) == find_nul(bytes@, i as int, end as int),
            s@ == line_chars(bytes@.subrange(pos as int, i as int)),
        decreases end - i,
    {
        let ghost pre = s@;
        s.push(bytes[i] as char);
        assert(pre.push((bytes@[i as int]) as char) =~= line_chars(
            bytes@.subrange(pos as int, i + 1int),
        ));
        i += 1;
    }
    assert(find_nul(bytes@, i as int, end as int) == i);
    s
}

} // verus!
