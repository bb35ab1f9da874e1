//! The line reader for the configuration grammar: it turns a byte stream into
//! a stream of tokenized lines and exposes a one-line lookahead.

use vstd::prelude::*;
use crate::tokenize::{
    LineM, config_lines, find_break, is_line_break, is_sep_char, is_trim_char, line_chars,
    lines_from, next_scan_pos, skip_breaks, split_from, split_tokens, tokenize_line,
    trim_end_idx, trim_start_idx, trimmed,
};

verus! {

broadcast use vstd::std_specs::vec::group_vec_axioms, vstd::seq::group_seq_axioms,
    vstd::seq_lib::group_seq_lib_default;

/// Relies on `String::push` from the standard library: it appends the given
/// character to the end of the string.
pub assume_specification[ String::push ](s: &mut String, ch: char)
    ensures
        final(s)@ == old(s)@.push(ch),
;

/// How a nested block ends.
///
/// `NoEnd` (a block without an explicit terminator) ends at the first line
/// whose name the block's record does not know, leaving that line for the
/// caller, or at end of stream. `StartKey` ends, without consuming, when the
/// key that started the repeated element reoccurs. `EndKey` ends when the
/// sentinel key is seen, consuming it.
#[derive(Debug)]
pub enum EndType {
    NoEnd,
    StartKey(String),
    EndKey(String),
}

/// The model of an [`EndType`].
pub enum EndM {
    NoEnd,
    StartKey(Seq<char>),
    EndKey(Seq<char>),
}

impl View for EndType {
    type V = EndM;

    open spec fn view(&self) -> EndM {
        match self {
            EndType::NoEnd => EndM::NoEnd,
            EndType::StartKey(k) => EndM::StartKey(k@),
            EndType::EndKey(k) => EndM::EndKey(k@),
        }
    }
}

/// Why a parse failed. `Eof` reports a read past the end of the stream;
/// `InvalidKey` carries the record type's name and the unrecognized key;
/// `FixedArrayUnderflow` carries the record type's name and the key of a
/// fixed-array line with too few parameters.
#[derive(Debug, PartialEq, Eq)]
pub enum ParseConfigError {
    Eof,
    InvalidKey(String, String),
    FixedArrayUnderflow(String, String),
}

/// The model of a [`ParseConfigError`].
pub enum ParseErrM {
    Eof,
    InvalidKey(Seq<char>, Seq<char>),
    FixedArrayUnderflow(Seq<char>, Seq<char>),
}

impl View for ParseConfigError {
    type V = ParseErrM;

    open spec fn view(&self) -> ParseErrM {
        match self {
            ParseConfigError::Eof => ParseErrM::Eof,
            ParseConfigError::InvalidKey(t, k) => ParseErrM::InvalidKey(t@, k@),
            ParseConfigError::FixedArrayUnderflow(t, k) => ParseErrM::FixedArrayUnderflow(t@, k@),
        }
    }
}

/// One tokenized line: the leading keyword and its positional parameters.
#[derive(Debug)]
pub struct ConfigLine {
    pub name: String,
    pub params: Vec<String>,
}

impl View for ConfigLine {
    type V = LineM;

    open spec fn view(&self) -> LineM {
        LineM { name: self.name@, params: self.params.deep_view() }
    }
}

impl DeepView for ConfigLine {
    type V = LineM;

    open spec fn deep_view(&self) -> LineM {
        self.view()
    }
}

fn is_break_byte(b: u8) -> (r: bool)
    ensures
        r == is_line_break(b),
{
    b == 0x0A || b == 0x0D
}

fn is_trim_byte(b: u8) -> (r: bool)
    ensures
        r == is_trim_char(b as char),
{
    b == 0x20 || b == 0x09 || b == 0x0A || b == 0x0D
}

fn is_sep_byte(b: u8) -> (r: bool)
    ensures
        r == is_sep_char(b as char),
{
    b == 0x09 || b == 0x0A || b == 0x0B || b == 0x0C || b == 0x0D || b == 0x20 || b == 0x85 || b
        == 0xA0
}

/// Tokenize the raw line held in `bytes[start..end]`.
fn tokenize_span(bytes: &Vec<u8>, start: usize, end: usize) -> (r: Option<ConfigLine>)
    requires
        start <= end <= bytes@.len(),
    ensures
        match r {
            Some(cl) => tokenize_line(bytes@.subrange(start as int, end as int)) == Some(cl@),
            None => tokenize_line(bytes@.subrange(start as int, end as int)) is None,
        },
{
    let ghost raw = bytes@.subrange(start as int, end as int);
    let ghost chars = line_chars(raw);
    assert(chars.len() == end - start);
    assert(forall|k: int|
        0 <= k < chars.len() ==> chars[k] == (bytes@[start + k] as char));

    // Trim the leading run of trim characters.
    let mut s = start;
    while s < end && is_trim_byte(bytes[s])
        invariant
            start <= s <= end <= bytes@.len(),
            chars == line_chars(bytes@.subrange(start as int, end as int)),
            trim_start_idx(chars, 0) == trim_start_idx(chars, s - start),
        decreases end - s,
    {
        s += 1;
    }
    if s == end {
        proof {
            lemma_trim_end_bounds(chars, chars.len() as int);
        }
        assert(trim_start_idx(chars, 0) == chars.len());
        assert(trimmed(chars).len() == 0);
        return None;
    }
    assert(trim_start_idx(chars, 0) == s - start);
    assert(!is_trim_char(chars[s - start]));

    // Trim the trailing run of trim characters.
    let mut e = end;
    while e > s + 1 && is_trim_byte(bytes[e - 1])
        invariant
            s < e <= end <= bytes@.len(),
            chars == line_chars(bytes@.subrange(start as int, end as int)),
            trim_end_idx(chars, chars.len() as int) == trim_end_idx(chars, e - start),
        decreases e,
    {
        e -= 1;
    }
    assert(trim_end_idx(chars, chars.len() as int) == e - start) by {
        if e == s + 1 {
            assert(!is_trim_char(chars[e - 1 - start]));
        }
    }
    let ghost t = trimmed(chars);
    assert(t =~= chars.subrange(s - start, e - start));
    assert(t.len() == e - s);
    assert(forall|k: int| 0 <= k < t.len() ==> t[k] == (bytes@[s + k] as char));

    // A comment line carries nothing.
    let first = bytes[s] as char;
    assert(first == t[0]);
    if first == ';' {
        return None;
    }

    // Split the trimmed line into tokens.
    let mut parts: Vec<String> = Vec::new();
    let mut cur = String::new();
    let mut in_quote = false;
    let mut i = s;
    assert(parts.deep_view() =~= Seq::<Seq<char>>::empty());
    while i < e
        invariant
            s <= i <= e <= bytes@.len(),
            t == trimmed(line_chars(bytes@.subrange(start as int, end as int))),
            t.len() == e - s,
            forall|k: int| 0 <= k < t.len() ==> t[k] == (bytes@[s + k] as char),
            split_tokens(t) == split_from(t, i - s, in_quote, cur@, parts.deep_view()),
        decreases e - i,
    {
        let ghost old_parts = parts.deep_view();
        let ghost old_cur = cur@;
        let c = bytes[i] as char;
        assert(c == t[i - s]);
        if c == '"' {
            if in_quote {
                parts.push(cur);
                cur = String::new();
                in_quote = false;
                assert(parts.deep_view() =~= old_parts.push(old_cur));
            } else {
                in_quote = true;
            }
        } else if in_quote {
            cur.push(c);
        } else if is_sep_byte(bytes[i]) {
            if !cur.as_str().is_empty() {
                parts.push(cur);
                cur = String::new();
                assert(parts.deep_view() =~= old_parts.push(old_cur));
            }
        } else {
            cur.push(c);
        }
        i += 1;
    }
    let ghost old_parts = parts.deep_view();
    let ghost old_cur = cur@;
    if !cur.as_str().is_empty() {
        parts.push(cur);
        assert(parts.deep_view() =~= old_parts.push(old_cur));
    }
    assert(split_tokens(t) == parts.deep_view());

    if parts.len() == 0 {
        return None;
    }
    let ghost toks = split_tokens(t);
    let name = parts.remove(0);
    assert(name@ == toks[0]);
    assert(parts.deep_view() =~= toks.subrange(1, toks.len() as int));
    Some(ConfigLine { name, params: parts })
}

pub proof fn lemma_trim_end_bounds(chars: Seq<char>, i: int)
    requires
        0 <= i <= chars.len(),
    ensures
        0 <= trim_end_idx(chars, i) <= i,
    decreases i,
{
    if i > 0 && is_trim_char(chars[i - 1]) {
        lemma_trim_end_bounds(chars, i - 1);
    }
}

/// The line reader: it owns the byte stream's tokenized lines and exposes a
/// one-line lookahead. Its view is the sequence of not-yet-consumed lines,
/// the lookahead first.
pub struct ConfigReader {
    lines: Vec<ConfigLine>,
    idx: usize,
}

impl View for ConfigReader {
    type V = Seq<LineM>;

    closed spec fn view(&self) -> Seq<LineM> {
        self.lines.deep_view().skip(self.idx as int)
    }
}

impl ConfigReader {
    pub closed spec fn wf(&self) -> bool {
        self.idx <= self.lines@.len()
    }

    /// Wrap a byte stream and prime the lookahead with its first line.
    pub fn new(bytes: Vec<u8>) -> (r: Result<ConfigReader, ParseConfigError>)
        ensures
            match r {
                Ok(cr) => cr.wf() && cr@ == config_lines(bytes@),
                Err(_) => false,
            },
    {
        let n = bytes.len();
        let mut lines: Vec<ConfigLine> = Vec::new();
        let mut i: usize = 0;
        assert(lines.deep_view() =~= Seq::<LineM>::empty());
        while i < n
            invariant
                i <= n == bytes@.len(),
                lines.deep_view() + lines_from(bytes@, i as int) == config_lines(bytes@),
            decreases n - i,
        {
            let ghost old_lines = lines.deep_view();
            let start = i;
            while i < n && !is_break_byte(bytes[i])
                invariant
                    start <= i <= n == bytes@.len(),
                    find_break(bytes@, start as int) == find_break(bytes@, i as int),
                decreases n - i,
            {
                i += 1;
            }
            assert(find_break(bytes@, start as int) == i);
            let tok = tokenize_span(&bytes, start, i);
            while i < n && is_break_byte(bytes[i])
                invariant
                    start <= i <= n == bytes@.len(),
                    skip_breaks(bytes@, find_break(bytes@, start as int)) == skip_breaks(
                        bytes@,
                        i as int,
                    ),
                decreases n - i,
            {
                i += 1;
            }
            assert(next_scan_pos(bytes@, start as int) == i);
            proof {
                crate::tokenize::lemma_scan_advances(bytes@, start as int);
            }
            match tok {
                Some(line) => {
                    lines.push(line);
                    assert(lines.deep_view() =~= old_lines.push(line@));
                    assert(old_lines.push(line@) + lines_from(bytes@, i as int) =~= old_lines + (
                    seq![line@] + lines_from(bytes@, i as int)));
                },
                None => {
                },
            }
        }
        assert(lines.deep_view() + lines_from(bytes@, i as int) =~= lines.deep_view());
        let r = ConfigReader { lines, idx: 0 };
        assert(r@ =~= r.lines.deep_view());
        Ok(r)
    }

    /// The lookahead line, if the stream still holds one.
    pub fn current(&self) -> (r: Option<&ConfigLine>)
        requires
            self.wf(),
        ensures
            match r {
                Some(l) => self@.len() > 0 && l@ == self@[0],
                None => self@.len() == 0,
            },
    {
        if self.idx < self.lines.len() {
            Some(&self.lines[self.idx])
        } else {
            None
        }
    }

    /// Consume the lookahead and move to the next line. At end of stream this
    /// is a no-op: end of stream is not an error.
    pub fn next_line(&mut self) -> (r: Result<(), ParseConfigError>)
        requires
            old(self).wf(),
        ensures
            final(self).wf(),
            r is Ok,
            old(self)@.len() > 0 ==> final(self)@ == old(self)@.drop_first(),
            old(self)@.len() == 0 ==> final(self)@ == old(self)@,
    {
        if self.idx < self.lines.len() {
            let ghost pre = self@;
            self.idx = self.idx + 1;
            assert(self@ =~= pre.drop_first());
        }
        Ok(())
    }
}

} // verus!
