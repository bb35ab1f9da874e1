//! The archive container's header: a banner that ends with an eight-byte
//! magic sequence, an entry count and archive name, and one directory entry
//! per contained file, with obfuscated names.

use vstd::prelude::*;
use crate::common::spec_decrypt;
use crate::tokenize::line_chars;

verus! {

broadcast use vstd::std_specs::vec::group_vec_axioms, vstd::seq::group_seq_axioms,
    vstd::seq_lib::group_seq_lib_default;

/// Why an archive header could not be read: the data ends, or breaks off,
/// before the header does.
#[derive(Debug, PartialEq, Eq)]
pub enum GutError {
    Truncated,
}

/// One directory entry of an archive.
#[derive(Debug, PartialEq)]
pub struct Entry {
    pub name: String,
    pub offset: u64,
    pub size: u64,
    pub is_plain_text: bool,
    pub hash: u32,
}

/// The model of an [`Entry`].
pub struct EntryM {
    pub name: Seq<char>,
    pub offset: u64,
    pub size: u64,
    pub is_plain_text: bool,
    pub hash: u32,
}

impl DeepView for Entry {
    type V = EntryM;

    open spec fn deep_view(&self) -> EntryM {
        EntryM {
            name: self.name@,
            offset: self.offset,
            size: self.size,
            is_plain_text: self.is_plain_text,
            hash: self.hash,
        }
    }
}

/// An archive's parsed header.
#[derive(Debug)]
pub struct GutFile {
    /// The size of the banner up to and including the magic sequence; entry
    /// offsets are relative to the directory that follows it.
    pub header_size: u64,
    pub entries: Vec<Entry>,
}

/// The byte at each position of the magic sequence that ends the banner.
pub open spec fn magic_byte(i: int) -> u8 {
    if i == 0 {
        0x1A
    } else if i == 1 {
        0xFA
    } else if i == 2 {
        0x31
    } else if i == 3 {
        0xC1
    } else if i == 4 {
        0xDE
    } else if i == 5 {
        0xED
    } else if i == 6 {
        0x42
    } else {
        0x13
    }
}

/// Scan for the magic sequence from position `i` with `mi` bytes already
/// matched; a mismatched byte starts the match over. Returns the position
/// just past the sequence.
pub open spec fn scan_magic(bytes: Seq<u8>, i: int, mi: int) -> Option<int>
    decreases bytes.len() - i,
{
    if i < 0 || i >= bytes.len() {
        None
    } else {
        let mi2 = if bytes[i] == magic_byte(mi) {
            mi + 1
        } else {
            0
        };
        if mi2 == 8 {
            Some(i + 1)
        } else {
            scan_magic(bytes, i + 1, mi2)
        }
    }
}

/// How far the banner may reach: a magic sequence ending at this position or
/// later is out of bounds.
pub open spec fn banner_limit() -> int {
    0x4000
}

/// Where an archive's banner ends, if a magic sequence ends within bounds.
pub open spec fn spec_banner_end(bytes: Seq<u8>) -> Option<int> {
    match scan_magic(bytes, 0, 0) {
        Some(p) => if p < banner_limit() {
            Some(p)
        } else {
            None
        },
        None => None,
    }
}

/// The little-endian 32-bit value at `i`; meaningful when four bytes are in
/// bounds.
pub open spec fn u32_le_at(bytes: Seq<u8>, i: int) -> u32 {
    (bytes[i] as u32) | ((bytes[i + 1] as u32) << 8) | ((bytes[i + 2] as u32) << 16) | ((bytes[i
        + 3] as u32) << 24)
}

/// The directory entries from `pos` on: `count` of them, each a fixed header
/// of five values and an obfuscated name. `None` when the data breaks off,
/// or an entry declares an empty name.
pub open spec fn spec_entries(bytes: Seq<u8>, pos: int, count: nat, dir_base: int) -> Option<
    Seq<EntryM>,
>
    decreases count,
{
    if count == 0 {
        Some(Seq::empty())
    } else if pos < 0 || pos + 20 > bytes.len() {
        None
    } else {
        let name_len = u32_le_at(bytes, pos);
        let size = u32_le_at(bytes, pos + 4);
        let off = u32_le_at(bytes, pos + 8);
        let is_text = u32_le_at(bytes, pos + 12) != 0;
        let h = u32_le_at(bytes, pos + 16);
        if name_len == 0 || pos + 20 + name_len > bytes.len() {
            None
        } else {
            let name_bytes = spec_decrypt(bytes.subrange(pos + 20, pos + 20 + name_len));
            let e = EntryM {
                name: line_chars(name_bytes.subrange(0, name_len - 1)),
                offset: (off + dir_base) as u64,
                size: size as u64,
                is_plain_text: is_text,
                hash: h,
            };
            match spec_entries(bytes, pos + 20 + name_len, (count - 1) as nat, dir_base) {
                Some(rest) => Some(seq![e] + rest),
                None => None,
            }
        }
    }
}

/// A whole archive header: the banner, the entry count, the 32-byte archive
/// name field, and the directory.
pub open spec fn spec_gut_parse(bytes: Seq<u8>) -> Option<(int, Seq<EntryM>)> {
    match spec_banner_end(bytes) {
        None => None,
        Some(p) => if p + 36 > bytes.len() {
            None
        } else {
            let count = u32_le_at(bytes, p);
            match spec_entries(bytes, p + 36, count as nat, p + 36) {
                Some(es) => Some((p, es)),
                None => None,
            }
        },
    }
}

fn read_u32_le(bytes: &[u8], i: usize) -> (r: u32)
    requires
        i + 4 <= bytes@.len(),
    ensures
        r == u32_le_at(bytes@, i as int),
{
    (bytes[i] as u32) | ((bytes[i + 1] as u32) << 8) | ((bytes[i + 2] as u32) << 16) | ((bytes[i
        + 3] as u32) << 24)
}

fn find_banner_end(bytes: &[u8]) -> (r: Option<usize>)
    ensures
        match r {
            Some(p) => spec_banner_end(bytes@) == Some(p as int) && p < banner_limit() && p
                <= bytes@.len(),
            None => spec_banner_end(bytes@) is None,
        },
{
    let n = bytes.len();
    let mut i: usize = 0;
    let mut mi: usize = 0;
    while i < n
        invariant
            i <= n == bytes@.len(),
            0 <= mi < 8,
            scan_magic(bytes@, 0, 0) == scan_magic(bytes@, i as int, mi as int),
        decreases n - i,
    {
        let b = bytes[i];
        let matched = b == if mi == 0 {
            0x1A
        } else if mi == 1 {
            0xFA
        } else if mi == 2 {
            0x31
        } else if mi == 3 {
            0xC1
        } else if mi == 4 {
            0xDE
        } else if mi == 5 {
            0xED
        } else if mi == 6 {
            0x42
        } else {
            0x13
        };
        assert(matched == (bytes@[i as int] == magic_byte(mi as int)));
        if matched {
            mi += 1;
            if mi == 8 {
                if i + 1 < 0x4000 {
                    return Some(i + 1);
                } else {
                    return None;
                }
            }
        } else {
            mi = 0;
        }
        i += 1;
    }
    None
}

impl GutFile {
    /// Read an archive's header from its bytes: find the banner's end, then
    /// read the directory.
    pub fn open(data: &[u8]) -> (r: Result<GutFile, GutError>)
        ensures
            match spec_gut_parse(data@) {
                Some((p, es)) => r matches Ok(g) && g.header_size == p && g.entries.deep_view() == es,
                None => r is Err,
            },
    {
        let p = match find_banner_end(data) {
            Some(p) => p,
            None => {
                return Err(GutError::Truncated);
            },
        };
        if data.len() < 36 || p > data.len() - 36 {
            return Err(GutError::Truncated);
        }
        let count = read_u32_le(data, p);
        let dir_base = p + 36;
        let mut entries: Vec<Entry> = Vec::new();
        let mut pos: usize = dir_base;
        let mut k: u32 = 0;
        let n = data.len();
        assert(entries.deep_view() =~= Seq::<EntryM>::empty());
        while k < count
            invariant
                n == data@.len(),
                dir_base == p + 36,
                p + 36 <= n,
                p < banner_limit(),
                spec_banner_end(data@) == Some(p as int),
                count == u32_le_at(data@, p as int),
                dir_base <= pos <= n,
                k <= count,
                (match spec_entries(data@, pos as int, (count - k) as nat, dir_base as int) {
                    Some(rest) => spec_entries(data@, dir_base as int, count as nat, dir_base as int)
                        == Some(entries.deep_view() + rest),
                    None => spec_entries(data@, dir_base as int, count as nat, dir_base as int)
                        is None,
                }),
            decreases count - k,
        {
            if n < 20 || pos > n - 20 {
                return Err(GutError::Truncated);
            }
            let name_len = read_u32_le(data, pos);
            let size = read_u32_le(data, pos + 4);
            let off = read_u32_le(data, pos + 8);
            let is_text = read_u32_le(data, pos + 12) != 0;
            let h = read_u32_le(data, pos + 16);
            if name_len == 0 || (name_len as usize) > n - (pos + 20) {
                return Err(GutError::Truncated);
            }
            let name_end = pos + 20 + (name_len as usize);
            let mut name = String::new();
            let mut j = pos + 20;
            let ghost name_bytes = spec_decrypt(data@.subrange(pos + 20, name_end as int));
            while j < name_end - 1
                invariant
                    pos + 20 <= j <= name_end - 1,
                    name_end <= n == data@.len(),
                    pos + 20 < name_end,
                    name_bytes == spec_decrypt(data@.subrange(pos + 20, name_end as int)),
                    name@ == line_chars(name_bytes.subrange(0, j - (pos + 20))),
                decreases name_end - j,
            {
                let ghost pre = name@;
                name.push((!data[j]) as char);
                assert(name_bytes[j - (pos + 20)] == !data@[j as int]);
                assert(pre.push((!data@[j as int]) as char) =~= line_chars(
                    name_bytes.subrange(0, j + 1 - (pos + 20)),
                ));
                j += 1;
            }
            assert(name@ == line_chars(name_bytes.subrange(0, name_len - 1)));
            let e = Entry {
                name,
                offset: (off as u64) + (dir_base as u64),
                size: size as u64,
                is_plain_text: is_text,
                hash: h,
            };
            let ghost pre_entries = entries.deep_view();
            let ghost e_m = e.deep_view();
            entries.push(e);
            proof {
                assert(entries.deep_view() =~= pre_entries.push(e_m));
                let rest_now = spec_entries(
                    data@,
                    pos as int,
                    (count - k) as nat,
                    dir_base as int,
                );
                let rest_next = spec_entries(
                    data@,
                    name_end as int,
                    (count - (k + 1)) as nat,
                    dir_base as int,
                );
                match rest_next {
                    Some(rn) => {
                        assert(rest_now == Some(seq![e_m] + rn));
                        assert(pre_entries + (seq![e_m] + rn) =~= pre_entries.push(e_m) + rn);
                    },
                    None => {
                        assert(rest_now is None);
                    },
                }
            }
            pos = name_end;
            k += 1;
        }
        assert(spec_entries(data@, pos as int, 0, dir_base as int) == Some(Seq::<EntryM>::empty()));
        assert(entries.deep_view() + Seq::<EntryM>::empty() =~= entries.deep_view());
        Ok(GutFile { header_size: p as u64, entries })
    }

    /// The archive's directory entries, in header order.
    pub fn entries(&self) -> (r: &Vec<Entry>)
        ensures
            r.deep_view() == self.entries.deep_view(),
    {
        &self.entries
    }
}

} // verus!
