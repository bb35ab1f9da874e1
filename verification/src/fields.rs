//! Reading slots off a parsed generic record.
//!
//! Every reader is total: a slot outside the record or holding a value of
//! another shape yields the type's zero value, so the typed record structs
//! can be read off any record without preconditions.

use vstd::prelude::*;
use crate::schema::{Record, RecordM, Value, ValueM, lemma_value_seq_view, record_view};

verus! {

broadcast use vstd::std_specs::vec::group_vec_axioms, vstd::seq::group_seq_axioms,
    vstd::seq_lib::group_seq_lib_default;

/// The record with no slots at all.
pub open spec fn empty_rec() -> RecordM {
    RecordM { schema_id: 0, fields: Seq::empty() }
}

pub open spec fn m_text(rm: RecordM, slot: int) -> Seq<char> {
    if 0 <= slot < rm.fields.len() {
        match rm.fields[slot] {
            ValueM::Text(s) => s,
            _ => Seq::empty(),
        }
    } else {
        Seq::empty()
    }
}

pub open spec fn m_i32(rm: RecordM, slot: int) -> i32 {
    if 0 <= slot < rm.fields.len() {
        match rm.fields[slot] {
            ValueM::Int(v) => v,
            _ => 0,
        }
    } else {
        0
    }
}

pub open spec fn m_u32(rm: RecordM, slot: int) -> u32 {
    if 0 <= slot < rm.fields.len() {
        match rm.fields[slot] {
            ValueM::Uint(v) => v,
            _ => 0,
        }
    } else {
        0
    }
}

pub open spec fn m_bool(rm: RecordM, slot: int) -> bool {
    if 0 <= slot < rm.fields.len() {
        match rm.fields[slot] {
            ValueM::Bool(v) => v,
            _ => false,
        }
    } else {
        false
    }
}

pub open spec fn m_text_list(rm: RecordM, slot: int) -> Seq<Seq<char>> {
    if 0 <= slot < rm.fields.len() {
        match rm.fields[slot] {
            ValueM::TextList(s) => s,
            _ => Seq::empty(),
        }
    } else {
        Seq::empty()
    }
}

pub open spec fn m_i32_list(rm: RecordM, slot: int) -> Seq<i32> {
    if 0 <= slot < rm.fields.len() {
        match rm.fields[slot] {
            ValueM::IntList(s) => s,
            _ => Seq::empty(),
        }
    } else {
        Seq::empty()
    }
}

pub open spec fn m_u32_list(rm: RecordM, slot: int) -> Seq<u32> {
    if 0 <= slot < rm.fields.len() {
        match rm.fields[slot] {
            ValueM::UintList(s) => s,
            _ => Seq::empty(),
        }
    } else {
        Seq::empty()
    }
}

pub open spec fn m_rec(rm: RecordM, slot: int) -> RecordM {
    if 0 <= slot < rm.fields.len() {
        match rm.fields[slot] {
            ValueM::Rec(c) => c,
            _ => empty_rec(),
        }
    } else {
        empty_rec()
    }
}

pub open spec fn m_recs(rm: RecordM, slot: int) -> Seq<RecordM> {
    if 0 <= slot < rm.fields.len() {
        match rm.fields[slot] {
            ValueM::RecList(s) => s,
            _ => Seq::empty(),
        }
    } else {
        Seq::empty()
    }
}

/// A fixed-size view of a scalar list: the list itself when it has exactly
/// `n` entries, else `n` zeros.
pub open spec fn arr_u32(s: Seq<u32>, n: int) -> Seq<u32> {
    if s.len() == n {
        s
    } else {
        Seq::new(n as nat, |_i: int| 0u32)
    }
}

/// A fixed-size view of a signed scalar list.
pub open spec fn arr_i32(s: Seq<i32>, n: int) -> Seq<i32> {
    if s.len() == n {
        s
    } else {
        Seq::new(n as nat, |_i: int| 0i32)
    }
}

/// A record with no slots, as a value: what a mismatched nested slot reads
/// as.
pub fn empty_record() -> (r: Record)
    ensures
        record_view(r) == empty_rec(),
{
    let r = Record { schema_id: 0, fields: Vec::new() };
    assert(crate::schema::value_seq_view(r.fields@) =~= Seq::<ValueM>::empty());
    r
}

/// A fixed-size view of a text list: the list itself when it has exactly `n`
/// entries, else `n` empty strings.
pub open spec fn arr_text(s: Seq<Seq<char>>, n: int) -> Seq<Seq<char>> {
    if s.len() == n {
        s
    } else {
        Seq::new(n as nat, |_i: int| Seq::<char>::empty())
    }
}

pub fn rec_text(rec: &Record, slot: usize) -> (r: String)
    ensures
        r@ == m_text(record_view(*rec), slot as int),
{
    proof {
        lemma_value_seq_view(rec.fields@);
    }
    if slot < rec.fields.len() {
        match &rec.fields[slot] {
            Value::Text(s) => s.clone(),
            _ => String::new(),
        }
    } else {
        String::new()
    }
}

pub fn rec_i32(rec: &Record, slot: usize) -> (r: i32)
    ensures
        r == m_i32(record_view(*rec), slot as int),
{
    proof {
        lemma_value_seq_view(rec.fields@);
    }
    if slot < rec.fields.len() {
        match &rec.fields[slot] {
            Value::Int(v) => *v,
            _ => 0,
        }
    } else {
        0
    }
}

pub fn rec_u32(rec: &Record, slot: usize) -> (r: u32)
    ensures
        r == m_u32(record_view(*rec), slot as int),
{
    proof {
        lemma_value_seq_view(rec.fields@);
    }
    if slot < rec.fields.len() {
        match &rec.fields[slot] {
            Value::Uint(v) => *v,
            _ => 0,
        }
    } else {
        0
    }
}

pub fn rec_bool(rec: &Record, slot: usize) -> (r: bool)
    ensures
        r == m_bool(record_view(*rec), slot as int),
{
    proof {
        lemma_value_seq_view(rec.fields@);
    }
    if slot < rec.fields.len() {
        match &rec.fields[slot] {
            Value::Bool(v) => *v,
            _ => false,
        }
    } else {
        false
    }
}

pub fn rec_text_list(rec: &Record, slot: usize) -> (r: Vec<String>)
    ensures
        r.deep_view() == m_text_list(record_view(*rec), slot as int),
{
    proof {
        lemma_value_seq_view(rec.fields@);
    }
    let mut out: Vec<String> = Vec::new();
    if slot < rec.fields.len() {
        match &rec.fields[slot] {
            Value::TextList(xs) => {
                let ghost target = xs.deep_view();
                let n = xs.len();
                let mut i: usize = 0;
                while i < n
                    invariant
                        i <= n == xs@.len(),
                        target == xs.deep_view(),
                        out.deep_view() == target.subrange(0, i as int),
                    decreases n - i,
                {
                    let ghost pre = out.deep_view();
                    out.push(xs[i].clone());
                    assert(out.deep_view() =~= pre.push(target[i as int]));
                    assert(pre.push(target[i as int]) =~= target.subrange(0, i + 1int));
                    i += 1;
                }
                assert(target.subrange(0, n as int) =~= target);
            },
            _ => {
                assert(out.deep_view() =~= Seq::<Seq<char>>::empty());
            },
        }
    } else {
        assert(out.deep_view() =~= Seq::<Seq<char>>::empty());
    }
    out
}

pub fn rec_i32_list(rec: &Record, slot: usize) -> (r: Vec<i32>)
    ensures
        r@ == m_i32_list(record_view(*rec), slot as int),
{
    proof {
        lemma_value_seq_view(rec.fields@);
    }
    let mut out: Vec<i32> = Vec::new();
    if slot < rec.fields.len() {
        match &rec.fields[slot] {
            Value::IntList(xs) => {
                let n = xs.len();
                let mut i: usize = 0;
                while i < n
                    invariant
                        i <= n == xs@.len(),
                        out@ == xs@.subrange(0, i as int),
                    decreases n - i,
                {
                    out.push(xs[i]);
                    assert(out@ =~= xs@.subrange(0, i + 1int));
                    i += 1;
                }
                assert(xs@.subrange(0, n as int) =~= xs@);
            },
            _ => {
                assert(out@ =~= Seq::<i32>::empty());
            },
        }
    } else {
        assert(out@ =~= Seq::<i32>::empty());
    }
    out
}

pub fn rec_u32_list(rec: &Record, slot: usize) -> (r: Vec<u32>)
    ensures
        r@ == m_u32_list(record_view(*rec), slot as int),
{
    proof {
        lemma_value_seq_view(rec.fields@);
    }
    let mut out: Vec<u32> = Vec::new();
    if slot < rec.fields.len() {
        match &rec.fields[slot] {
            Value::UintList(xs) => {
                let n = xs.len();
                let mut i: usize = 0;
                while i < n
                    invariant
                        i <= n == xs@.len(),
                        out@ == xs@.subrange(0, i as int),
                    decreases n - i,
                {
                    out.push(xs[i]);
                    assert(out@ =~= xs@.subrange(0, i + 1int));
                    i += 1;
                }
                assert(xs@.subrange(0, n as int) =~= xs@);
            },
            _ => {
                assert(out@ =~= Seq::<u32>::empty());
            },
        }
    } else {
        assert(out@ =~= Seq::<u32>::empty());
    }
    out
}

/// The nested record of a slot, if the slot holds one.
pub fn rec_child<'a>(rec: &'a Record, slot: usize) -> (r: Option<&'a Record>)
    ensures
        match r {
            Some(c) => m_rec(record_view(*rec), slot as int) == record_view(*c),
            None => m_rec(record_view(*rec), slot as int) == empty_rec(),
        },
{
    proof {
        lemma_value_seq_view(rec.fields@);
    }
    if slot < rec.fields.len() {
        match &rec.fields[slot] {
            Value::Rec(b) => Some(&**b),
            _ => None,
        }
    } else {
        None
    }
}

/// The nested records of a repeated slot, if the slot holds them.
pub fn rec_children<'a>(rec: &'a Record, slot: usize) -> (r: Option<&'a Vec<Record>>)
    ensures
        match r {
            Some(rs) => m_recs(record_view(*rec), slot as int) == crate::schema::rec_seq_view(rs@),
            None => m_recs(record_view(*rec), slot as int) == Seq::<RecordM>::empty(),
        },
{
    proof {
        lemma_value_seq_view(rec.fields@);
    }
    if slot < rec.fields.len() {
        match &rec.fields[slot] {
            Value::RecList(rs) => Some(rs),
            _ => None,
        }
    } else {
        None
    }
}

/// Three entries of an unsigned list, or zeros where the list is not exactly
/// that long.
pub fn rec_u32_arr3(rec: &Record, slot: usize) -> (r: [u32; 3])
    ensures
        r@ == arr_u32(m_u32_list(record_view(*rec), slot as int), 3),
{
    let xs = rec_u32_list(rec, slot);
    if xs.len() == 3 {
        let r = [xs[0], xs[1], xs[2]];
        assert(r@ =~= xs@);
        r
    } else {
        let r = [0u32, 0u32, 0u32];
        assert(r@ =~= Seq::new(3nat, |_i: int| 0u32));
        r
    }
}

/// Two entries of an unsigned list, or zeros.
pub fn rec_u32_arr2(rec: &Record, slot: usize) -> (r: [u32; 2])
    ensures
        r@ == arr_u32(m_u32_list(record_view(*rec), slot as int), 2),
{
    let xs = rec_u32_list(rec, slot);
    if xs.len() == 2 {
        let r = [xs[0], xs[1]];
        assert(r@ =~= xs@);
        r
    } else {
        let r = [0u32, 0u32];
        assert(r@ =~= Seq::new(2nat, |_i: int| 0u32));
        r
    }
}

/// Three entries of a text list, or empty strings.
pub fn rec_text_arr3(rec: &Record, slot: usize) -> (r: [String; 3])
    ensures
        r.deep_view() == arr_text(m_text_list(record_view(*rec), slot as int), 3),
{
    let xs = rec_text_list(rec, slot);
    if xs.len() == 3 {
        let r = [xs[0].clone(), xs[1].clone(), xs[2].clone()];
        assert(r.deep_view() =~= m_text_list(record_view(*rec), slot as int));
        r
    } else {
        let r = [String::new(), String::new(), String::new()];
        assert(r.deep_view() =~= Seq::new(3nat, |_i: int| Seq::<char>::empty()));
        r
    }
}

/// Four entries of a text list, or empty strings.
pub fn rec_text_arr4(rec: &Record, slot: usize) -> (r: [String; 4])
    ensures
        r.deep_view() == arr_text(m_text_list(record_view(*rec), slot as int), 4),
{
    let xs = rec_text_list(rec, slot);
    if xs.len() == 4 {
        let r = [xs[0].clone(), xs[1].clone(), xs[2].clone(), xs[3].clone()];
        assert(r.deep_view() =~= m_text_list(record_view(*rec), slot as int));
        r
    } else {
        let r = [String::new(), String::new(), String::new(), String::new()];
        assert(r.deep_view() =~= Seq::new(4nat, |_i: int| Seq::<char>::empty()));
        r
    }
}

/// Two entries of a signed list, or zeros.
pub fn rec_i32_arr2(rec: &Record, slot: usize) -> (r: [i32; 2])
    ensures
        r@ == arr_i32(m_i32_list(record_view(*rec), slot as int), 2),
{
    let xs = rec_i32_list(rec, slot);
    if xs.len() == 2 {
        let r = [xs[0], xs[1]];
        assert(r@ =~= xs@);
        r
    } else {
        let r = [0i32, 0i32];
        assert(r@ =~= Seq::new(2nat, |_i: int| 0i32));
        r
    }
}

} // verus!
