//! The mathematical model of the configuration grammar's lexical layer: how a
//! byte stream splits into physical lines, and how one physical line becomes a
//! `(name, params)` pair.
//!
//! Bytes are 8-bit code units: each byte stands for the character with the
//! same code point, with no multi-byte decoding.

use vstd::prelude::*;

verus! {

/// One tokenized line: the leading keyword and its positional parameters.
pub struct LineM {
    pub name: Seq<char>,
    pub params: Seq<Seq<char>>,
}

/// A byte that terminates a physical line.
pub open spec fn is_line_break(b: u8) -> bool {
    b == 0x0Au8 || b == 0x0Du8
}

/// The character a byte stands for.
pub open spec fn byte_char(b: u8) -> char {
    b as char
}

/// The characters of a raw line, one per byte.
pub open spec fn line_chars(bytes: Seq<u8>) -> Seq<char> {
    bytes.map(|_i: int, b: u8| b as char)
}

/// Characters stripped from both ends of a line before tokenizing.
pub open spec fn is_trim_char(c: char) -> bool {
    c == ' ' || c == '\t' || c == '\n' || c == '\r'
}

/// Characters that separate tokens outside quotes: the whitespace characters
/// among the 8-bit code points.
pub open spec fn is_sep_char(c: char) -> bool {
    let u = c as u32;
    u == 0x09 || u == 0x0A || u == 0x0B || u == 0x0C || u == 0x0D || u == 0x20 || u == 0x85 || u
        == 0xA0
}

/// First index at or after `i` whose character is not trimmed, or the end.
pub open spec fn trim_start_idx(chars: Seq<char>, i: int) -> int
    decreases chars.len() - i,
{
    if i < 0 || i >= chars.len() {
        chars.len() as int
    } else if is_trim_char(chars[i]) {
        trim_start_idx(chars, i + 1)
    } else {
        i
    }
}

/// Largest index at or before `i` such that the character just before it is
/// not trimmed, or zero.
pub open spec fn trim_end_idx(chars: Seq<char>, i: int) -> int
    decreases i,
{
    if i <= 0 || i > chars.len() {
        0
    } else if is_trim_char(chars[i - 1]) {
        trim_end_idx(chars, i - 1)
    } else {
        i
    }
}

/// The line with leading and trailing trim characters removed.
pub open spec fn trimmed(chars: Seq<char>) -> Seq<char> {
    let s = trim_start_idx(chars, 0);
    let e = trim_end_idx(chars, chars.len() as int);
    if s <= e {
        chars.subrange(s, e)
    } else {
        Seq::empty()
    }
}

/// Close out the token splitter: a pending unquoted token becomes the last
/// token; nothing pending adds nothing.
pub open spec fn tok_finish(parts: Seq<Seq<char>>, cur: Seq<char>) -> Seq<Seq<char>> {
    if cur.len() > 0 {
        parts.push(cur)
    } else {
        parts
    }
}

/// The token splitter, one character at a time from index `i`. Outside a
/// quote, separator runs end tokens; a double quote opens a quoted token, and
/// the closing quote ends it immediately (possibly empty).
pub open spec fn split_from(
    chars: Seq<char>,
    i: int,
    in_quote: bool,
    cur: Seq<char>,
    parts: Seq<Seq<char>>,
) -> Seq<Seq<char>>
    decreases chars.len() - i,
{
    if i < 0 || i >= chars.len() {
        tok_finish(parts, cur)
    } else {
        let c = chars[i];
        if c == '"' {
            if in_quote {
                split_from(chars, i + 1, false, Seq::empty(), parts.push(cur))
            } else {
                split_from(chars, i + 1, true, cur, parts)
            }
        } else if in_quote {
            split_from(chars, i + 1, true, cur.push(c), parts)
        } else if is_sep_char(c) {
            if cur.len() > 0 {
                split_from(chars, i + 1, false, Seq::empty(), parts.push(cur))
            } else {
                split_from(chars, i + 1, false, cur, parts)
            }
        } else {
            split_from(chars, i + 1, false, cur.push(c), parts)
        }
    }
}

/// All tokens of a trimmed line.
pub open spec fn split_tokens(chars: Seq<char>) -> Seq<Seq<char>> {
    split_from(chars, 0, false, Seq::empty(), Seq::empty())
}

/// Tokenize one raw physical line. `None` means the line carries nothing: it
/// is blank after trimming, a `;` comment, or it yields no tokens; the reader
/// keeps scanning past such lines.
pub open spec fn tokenize_line(raw: Seq<u8>) -> Option<LineM> {
    let t = trimmed(line_chars(raw));
    if t.len() == 0 || t[0] == ';' {
        None
    } else {
        let toks = split_tokens(t);
        if toks.len() == 0 {
            None
        } else {
            Some(LineM { name: toks[0], params: toks.subrange(1, toks.len() as int) })
        }
    }
}

/// First index at or after `i` holding a line-break byte, or the end.
pub open spec fn find_break(bytes: Seq<u8>, i: int) -> int
    decreases bytes.len() - i,
{
    if i < 0 || i >= bytes.len() {
        bytes.len() as int
    } else if is_line_break(bytes[i]) {
        i
    } else {
        find_break(bytes, i + 1)
    }
}

/// First index at or after `i` holding a byte that is no line break, or the
/// end: line-break runs of any mix of the two break bytes are consumed whole.
pub open spec fn skip_breaks(bytes: Seq<u8>, i: int) -> int
    decreases bytes.len() - i,
{
    if i < 0 || i >= bytes.len() {
        bytes.len() as int
    } else if is_line_break(bytes[i]) {
        skip_breaks(bytes, i + 1)
    } else {
        i
    }
}

pub proof fn lemma_find_break_bounds(bytes: Seq<u8>, i: int)
    requires
        0 <= i <= bytes.len(),
    ensures
        i <= find_break(bytes, i) <= bytes.len(),
    decreases bytes.len() - i,
{
    if i < bytes.len() && !is_line_break(bytes[i]) {
        lemma_find_break_bounds(bytes, i + 1);
    }
}

pub proof fn lemma_skip_breaks_bounds(bytes: Seq<u8>, i: int)
    requires
        0 <= i <= bytes.len(),
    ensures
        i <= skip_breaks(bytes, i) <= bytes.len(),
    decreases bytes.len() - i,
{
    if i < bytes.len() && is_line_break(bytes[i]) {
        lemma_skip_breaks_bounds(bytes, i + 1);
    }
}

/// Where scanning resumes after the raw line that starts at `i`: past the
/// line's bytes and past the whole line-break run that ends it.
pub open spec fn next_scan_pos(bytes: Seq<u8>, i: int) -> int {
    skip_breaks(bytes, find_break(bytes, i))
}

/// Scanning a raw line that starts before the end always makes progress.
pub proof fn lemma_scan_advances(bytes: Seq<u8>, i: int)
    requires
        0 <= i < bytes.len(),
    ensures
        i < next_scan_pos(bytes, i) <= bytes.len(),
{
    let e = find_break(bytes, i);
    lemma_find_break_bounds(bytes, i);
    lemma_skip_breaks_bounds(bytes, e);
    if is_line_break(bytes[i]) {
        assert(e == i);
        assert(skip_breaks(bytes, i) == skip_breaks(bytes, i + 1));
        lemma_skip_breaks_bounds(bytes, i + 1);
    } else {
        lemma_find_break_bounds(bytes, i + 1);
        assert(e == find_break(bytes, i + 1));
    }
}

/// Every tokenized line of the byte stream from position `i` on, in order,
/// with blank lines, comments and token-free lines skipped.
pub open spec fn lines_from(bytes: Seq<u8>, i: int) -> Seq<LineM>
    decreases bytes.len() - i,
{
    if i < 0 || i >= bytes.len() {
        Seq::empty()
    } else {
        let e = find_break(bytes, i);
        let n = next_scan_pos(bytes, i);
        proof {
            lemma_find_break_bounds(bytes, i);
            lemma_scan_advances(bytes, i);
        }
        let rest = lines_from(bytes, n);
        match tokenize_line(bytes.subrange(i, e)) {
            Some(l) => seq![l] + rest,
            None => rest,
        }
    }
}

/// The lines of a whole byte stream.
pub open spec fn config_lines(bytes: Seq<u8>) -> Seq<LineM> {
    lines_from(bytes, 0)
}

} // verus!
