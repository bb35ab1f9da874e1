//! The recursive block parser: one generic interpreter that consumes the
//! lookahead line by line, dispatches each line through the current record's
//! keyed binding table, and recurses into nested record bodies under their
//! declared termination rules.
//!
//! The executable engine is proved to return exactly what the specification
//! interpreter ([`spec_with_end`], [`spec_from_config`]) computes from the
//! reader's line stream, so the whole parse is a function of the input bytes.

use vstd::prelude::*;
use crate::coerce::{parse_i32_param, parse_u32_param, spec_parse_i32, spec_parse_u32};
use crate::config::{ConfigLine, ConfigReader, EndM, EndType, ParseConfigError, ParseErrM};
use crate::schema::{
    Binding, BindingM, Coerce, KeyBinding, KeyBindingM, Record, RecordM, Schema, SchemaM, Value,
    ValueM, append_child, binding_wf, default_record, param_at, record_view, schema_wf,
    schemas_wf, set_field, spec_append_child, spec_coerce_scalar, spec_default_record,
    spec_from_line, spec_has_child_fields, spec_rest_ints, spec_rest_uints, spec_rest_value,
    spec_set_rec, value_view,
};
use crate::tokenize::LineM;

verus! {

broadcast use vstd::std_specs::vec::group_vec_axioms, vstd::seq::group_seq_axioms,
    vstd::seq_lib::group_seq_lib_default;

/// An `i32` parameter, or zero where it does not parse.
pub open spec fn spec_i32_or_zero(s: Seq<char>) -> i32 {
    match spec_parse_i32(s) {
        Some(v) => v,
        None => 0,
    }
}

/// A `u32` parameter, or zero where it does not parse.
pub open spec fn spec_u32_or_zero(s: Seq<char>) -> u32 {
    match spec_parse_u32(s) {
        Some(v) => v,
        None => 0,
    }
}

/// A fixed array's value: the first `n` parameters, each coerced with the
/// zero fallback. Meaningful when the line carries at least `n` parameters;
/// fewer is the underflow error.
pub open spec fn spec_array_value(c: Coerce, params: Seq<Seq<char>>, n: usize) -> ValueM {
    match c {
        Coerce::Text => ValueM::TextList(Seq::new(n as nat, |i: int| params[i])),
        Coerce::Int => ValueM::IntList(Seq::new(n as nat, |i: int| spec_i32_or_zero(params[i]))),
        Coerce::Uint => ValueM::UintList(Seq::new(n as nat, |i: int| spec_u32_or_zero(params[i]))),
        Coerce::BoolVal => ValueM::Bool(false),
    }
}

/// The first keyed binding whose key equals the line name, if any; lookup is
/// exact and case-sensitive.
pub open spec fn spec_find_key(keyed: Seq<KeyBindingM>, name: Seq<char>) -> Option<KeyBindingM>
    decreases keyed.len(),
{
    if keyed.len() == 0 {
        None
    } else if keyed[0].key == name {
        Some(keyed[0])
    } else {
        spec_find_key(keyed.drop_first(), name)
    }
}

/// The schema of a record, or an empty one for an index outside the set.
pub open spec fn spec_schema_at(schemas: Seq<SchemaM>, id: usize) -> SchemaM {
    if id < schemas.len() {
        schemas[id as int]
    } else {
        SchemaM {
            name: Seq::empty(),
            slots: Seq::empty(),
            positional: Seq::empty(),
            keyed: Seq::empty(),
        }
    }
}

pub open spec fn end_matches_start(end: EndM, name: Seq<char>) -> bool {
    match end {
        EndM::StartKey(k) => k == name,
        _ => false,
    }
}

pub open spec fn end_matches_end(end: EndM, name: Seq<char>) -> bool {
    match end {
        EndM::EndKey(k) => k == name,
        _ => false,
    }
}

/// Only an explicitly delimited block treats a foreign line as fatal; a
/// `NoEnd` or `StartKey` block ends at it and leaves it to the caller.
pub open spec fn end_is_open(end: EndM) -> bool {
    match end {
        EndM::EndKey(_) => false,
        _ => true,
    }
}

/// What one keyed line does, given its binding: the new record and the lines
/// that remain. Scalar, presence and array lines consume the line itself;
/// nested and repeated bindings construct a child from the line and then
/// consume the child's whole body if its type has keyed fields of its own.
pub open spec fn spec_dispatch(
    schemas: Seq<SchemaM>,
    rec: RecordM,
    tname: Seq<char>,
    kb: KeyBindingM,
    lines: Seq<LineM>,
) -> Result<(RecordM, Seq<LineM>), ParseErrM>
    decreases lines.len(), 0int,
{
    if lines.len() == 0 {
        Err(ParseErrM::Eof)
    } else {
        let line = lines[0];
        let rest = lines.drop_first();
        match kb.binding {
            BindingM::Scalar(c) => Ok(
                (spec_set_rec(rec, kb.slot, spec_coerce_scalar(c, param_at(line.params, 0))), rest),
            ),
            BindingM::Presence => Ok((spec_set_rec(rec, kb.slot, ValueM::Bool(true)), rest)),
            BindingM::FixedArray(c, n) => if line.params.len() < n {
                Err(ParseErrM::FixedArrayUnderflow(tname, line.name))
            } else {
                Ok((spec_set_rec(rec, kb.slot, spec_array_value(c, line.params, n)), rest))
            },
            BindingM::Nested(j, e2) => {
                let child0 = spec_from_line(schemas, j, line);
                if spec_has_child_fields(schemas, j) {
                    match spec_with_end(schemas, child0, rest, e2) {
                        Ok((child, rest2)) => Ok(
                            (spec_set_rec(rec, kb.slot, ValueM::Rec(child)), rest2),
                        ),
                        Err(e) => Err(e),
                    }
                } else {
                    Ok((spec_set_rec(rec, kb.slot, ValueM::Rec(child0)), rest))
                }
            },
            BindingM::Repeated(j, e2) => {
                let child0 = spec_from_line(schemas, j, line);
                if spec_has_child_fields(schemas, j) {
                    match spec_with_end(schemas, child0, rest, e2) {
                        Ok((child, rest2)) => Ok((spec_append_child(rec, kb.slot, child), rest2)),
                        Err(e) => Err(e),
                    }
                } else {
                    Ok((spec_append_child(rec, kb.slot, child0), rest))
                }
            },
        }
    }
}

/// One record body under a termination rule.
///
/// The loop stops cleanly at end of stream; a `StartKey` match stops without
/// consuming the line; an `EndKey` match consumes the sentinel and stops. A
/// line whose name the record does not know ends a `NoEnd` or `StartKey`
/// block without being consumed — the caller sees the same line and decides
/// for itself — but is a fatal `InvalidKey` error inside an explicitly
/// delimited `EndKey` block.
pub open spec fn spec_with_end(
    schemas: Seq<SchemaM>,
    rec: RecordM,
    lines: Seq<LineM>,
    end: EndM,
) -> Result<(RecordM, Seq<LineM>), ParseErrM>
    decreases lines.len(), 1int,
{
    if lines.len() == 0 {
        Ok((rec, lines))
    } else {
        let line = lines[0];
        if end_matches_start(end, line.name) {
            Ok((rec, lines))
        } else if end_matches_end(end, line.name) {
            Ok((rec, lines.drop_first()))
        } else {
            let sch = spec_schema_at(schemas, rec.schema_id);
            match spec_find_key(sch.keyed, line.name) {
                None => {
                    if end_is_open(end) {
                        Ok((rec, lines))
                    } else {
                        Err(ParseErrM::InvalidKey(sch.name, line.name))
                    }
                },
                Some(kb) => match spec_dispatch(schemas, rec, sch.name, kb, lines) {
                    Err(e) => Err(e),
                    Ok((rec2, rest2)) => {
                        let rest3 = if rest2.len() < lines.len() {
                            rest2
                        } else {
                            lines.drop_first()
                        };
                        spec_with_end(schemas, rec2, rest3, end)
                    },
                },
            }
        }
    }
}

/// One line dispatched into the current record: an absent lookahead is an
/// error here, and so is a name outside the record's keyed table.
pub open spec fn spec_one_line(schemas: Seq<SchemaM>, rec: RecordM, lines: Seq<LineM>) -> Result<
    (RecordM, Seq<LineM>),
    ParseErrM,
> {
    if lines.len() == 0 {
        Err(ParseErrM::Eof)
    } else {
        let sch = spec_schema_at(schemas, rec.schema_id);
        match spec_find_key(sch.keyed, lines[0].name) {
            None => Err(ParseErrM::InvalidKey(sch.name, lines[0].name)),
            Some(kb) => spec_dispatch(schemas, rec, sch.name, kb, lines),
        }
    }
}

/// A whole document parsed into one root record: the default record's body,
/// parsed without a terminator. A parse that stops before the end of the
/// stream stopped at a line whose name no enclosing record knew, and that is
/// the `InvalidKey` error; nothing of the line stream is ever skipped.
pub open spec fn spec_from_config(schemas: Seq<SchemaM>, id: usize, lines: Seq<LineM>) -> Result<
    RecordM,
    ParseErrM,
> {
    match spec_with_end(schemas, spec_default_record(schemas, id), lines, EndM::NoEnd) {
        Err(e) => Err(e),
        Ok((rm, rest)) => if rest.len() == 0 {
            Ok(rm)
        } else {
            Err(ParseErrM::InvalidKey(spec_schema_at(schemas, id).name, rest[0].name))
        },
    }
}

/// An unrecognized line is never skipped. When the root body stops before
/// the stream's end — which is exactly what a line foreign to every
/// enclosing record causes — the whole parse fails with the invalid-key
/// error naming the root record and that line; and any error of the body
/// itself is the parse's error.
pub proof fn lemma_foreign_line_is_fatal(schemas: Seq<SchemaM>, id: usize, lines: Seq<LineM>)
    ensures
        (match spec_with_end(schemas, spec_default_record(schemas, id), lines, EndM::NoEnd) {
            Ok((rm, rest)) => if rest.len() == 0 {
                spec_from_config(schemas, id, lines) == Ok::<RecordM, ParseErrM>(rm)
            } else {
                spec_from_config(schemas, id, lines) == Err::<RecordM, ParseErrM>(
                    ParseErrM::InvalidKey(spec_schema_at(schemas, id).name, rest[0].name),
                )
            },
            Err(e) => spec_from_config(schemas, id, lines) == Err::<RecordM, ParseErrM>(e),
        }),
{
}

/// Parsing is deterministic: the parse result is a function of the schema set
/// and the line stream alone, so two records parsed from one and the same
/// stream have equal models — structurally equal record trees.
pub proof fn lemma_parse_deterministic(
    schemas: Seq<SchemaM>,
    id: usize,
    lines: Seq<LineM>,
    r1: Record,
    r2: Record,
)
    requires
        spec_from_config(schemas, id, lines) == Ok::<RecordM, ParseErrM>(record_view(r1)),
        spec_from_config(schemas, id, lines) == Ok::<RecordM, ParseErrM>(record_view(r2)),
    ensures
        record_view(r1) == record_view(r2),
{
}

fn find_key(keyed: &Vec<KeyBinding>, name: &String) -> (r: Option<usize>)
    ensures
        match r {
            Some(i) => i < keyed@.len() && spec_find_key(keyed.deep_view(), name@) == Some(
                keyed@[i as int]@,
            ),
            None => spec_find_key(keyed.deep_view(), name@) is None,
        },
{
    let ghost km = keyed.deep_view();
    let n = keyed.len();
    let mut i: usize = 0;
    assert(km.skip(0) =~= km);
    while i < n
        invariant
            i <= n == keyed@.len(),
            km == keyed.deep_view(),
            spec_find_key(km, name@) == spec_find_key(km.skip(i as int), name@),
        decreases n - i,
    {
        assert(km.skip(i as int)[0] == km[i as int]);
        if keyed[i].key == *name {
            assert(km[i as int].key == name@);
            return Some(i);
        }
        assert(km.skip(i as int).drop_first() =~= km.skip(i + 1int));
        i += 1;
    }
    assert(km.skip(n as int) =~= Seq::<KeyBindingM>::empty());
    None
}

/// Coerce the parameter at `index` of a line to a scalar value.
fn coerce_scalar(c: Coerce, line: &ConfigLine, index: usize) -> (r: Value)
    ensures
        value_view(r) == spec_coerce_scalar(c, param_at(line@.params, index)),
{
    let present = index < line.params.len();
    match c {
        Coerce::Text => {
            if present {
                Value::Text(line.params[index].clone())
            } else {
                Value::Text(String::new())
            }
        },
        Coerce::Int => {
            if present {
                match parse_i32_param(line.params[index].as_str()) {
                    Some(v) => Value::Int(v),
                    None => Value::Int(0),
                }
            } else {
                Value::Int(0)
            }
        },
        Coerce::Uint => {
            if present {
                match parse_u32_param(line.params[index].as_str()) {
                    Some(v) => Value::Uint(v),
                    None => Value::Uint(0),
                }
            } else {
                Value::Uint(0)
            }
        },
        Coerce::BoolVal => {
            if present {
                match parse_u32_param(line.params[index].as_str()) {
                    Some(v) => Value::Bool(v == 1),
                    None => Value::Bool(false),
                }
            } else {
                Value::Bool(false)
            }
        },
    }
}

/// The value of a fixed-array line: the first `n` parameters, coerced.
fn array_value(c: Coerce, line: &ConfigLine, n: usize) -> (r: Value)
    requires
        n <= line@.params.len(),
    ensures
        value_view(r) == spec_array_value(c, line@.params, n),
{
    let ghost params = line@.params;
    match c {
        Coerce::Text => {
            let mut xs: Vec<String> = Vec::new();
            let mut k: usize = 0;
            while k < n
                invariant
                    k <= n <= params.len(),
                    params == line@.params,
                    xs.deep_view() == Seq::new(k as nat, |i: int| params[i]),
                decreases n - k,
            {
                let ghost pre = xs.deep_view();
                xs.push(line.params[k].clone());
                assert(xs.deep_view() =~= pre.push(params[k as int]));
                assert(pre.push(params[k as int]) =~= Seq::new((k + 1) as nat, |i: int| params[i]));
                k += 1;
            }
            Value::TextList(xs)
        },
        Coerce::Int => {
            let mut xs: Vec<i32> = Vec::new();
            let mut k: usize = 0;
            while k < n
                invariant
                    k <= n <= params.len(),
                    params == line@.params,
                    xs@ == Seq::new(k as nat, |i: int| spec_i32_or_zero(params[i])),
                decreases n - k,
            {
                let ghost pre = xs@;
                let v = match parse_i32_param(line.params[k].as_str()) {
                    Some(v) => v,
                    None => 0,
                };
                xs.push(v);
                assert(xs@ =~= Seq::new((k + 1) as nat, |i: int| spec_i32_or_zero(params[i])));
                k += 1;
            }
            Value::IntList(xs)
        },
        Coerce::Uint => {
            let mut xs: Vec<u32> = Vec::new();
            let mut k: usize = 0;
            while k < n
                invariant
                    k <= n <= params.len(),
                    params == line@.params,
                    xs@ == Seq::new(k as nat, |i: int| spec_u32_or_zero(params[i])),
                decreases n - k,
            {
                let ghost pre = xs@;
                let v = match parse_u32_param(line.params[k].as_str()) {
                    Some(v) => v,
                    None => 0,
                };
                xs.push(v);
                assert(xs@ =~= Seq::new((k + 1) as nat, |i: int| spec_u32_or_zero(params[i])));
                k += 1;
            }
            Value::UintList(xs)
        },
        Coerce::BoolVal => Value::Bool(false),
    }
}

/// The value of a rest binding: every parameter from `from` on, coerced, with
/// numeric parameters that do not parse dropped.
fn rest_value(c: Coerce, line: &ConfigLine, from: usize) -> (r: Value)
    ensures
        value_view(r) == spec_rest_value(c, line@.params, from),
{
    let ghost params = line@.params;
    let n = line.params.len();
    match c {
        Coerce::Text => {
            let mut xs: Vec<String> = Vec::new();
            if from < n {
                let mut k = from;
                while k < n
                    invariant
                        from <= k <= n == params.len(),
                        params == line@.params,
                        xs.deep_view() == params.subrange(from as int, k as int),
                    decreases n - k,
                {
                    let ghost pre = xs.deep_view();
                    xs.push(line.params[k].clone());
                    assert(xs.deep_view() =~= pre.push(params[k as int]));
                    assert(pre.push(params[k as int]) =~= params.subrange(from as int, k + 1int));
                    k += 1;
                }
                assert(params.subrange(from as int, n as int) =~= params.skip(from as int));
            } else {
                assert(xs.deep_view() =~= Seq::<Seq<char>>::empty());
            }
            Value::TextList(xs)
        },
        Coerce::Int => {
            let mut xs: Vec<i32> = Vec::new();
            let mut k = from;
            if from >= n {
                return Value::IntList(xs);
            }
            while k < n
                invariant
                    from <= k <= n == params.len(),
                    params == line@.params,
                    spec_rest_ints(params, from as int) == xs@ + spec_rest_ints(params, k as int),
                decreases n - k,
            {
                let ghost pre = xs@;
                match parse_i32_param(line.params[k].as_str()) {
                    Some(v) => {
                        xs.push(v);
                        assert(pre + (seq![v] + spec_rest_ints(params, k + 1int)) =~= pre.push(v)
                            + spec_rest_ints(params, k + 1int));
                    },
                    None => {
                    },
                }
                k += 1;
            }
            assert(xs@ + spec_rest_ints(params, n as int) =~= xs@);
            Value::IntList(xs)
        },
        Coerce::Uint => {
            let mut xs: Vec<u32> = Vec::new();
            let mut k = from;
            if from >= n {
                return Value::UintList(xs);
            }
            while k < n
                invariant
                    from <= k <= n == params.len(),
                    params == line@.params,
                    spec_rest_uints(params, from as int) == xs@ + spec_rest_uints(params, k as int),
                decreases n - k,
            {
                let ghost pre = xs@;
                match parse_u32_param(line.params[k].as_str()) {
                    Some(v) => {
                        xs.push(v);
                        assert(pre + (seq![v] + spec_rest_uints(params, k + 1int)) =~= pre.push(v)
                            + spec_rest_uints(params, k + 1int));
                    },
                    None => {
                    },
                }
                k += 1;
            }
            assert(xs@ + spec_rest_uints(params, n as int) =~= xs@);
            Value::UintList(xs)
        },
        Coerce::BoolVal => Value::Bool(false),
    }
}

/// Construct a record from its introducing line: every slot at its default,
/// then the positional bindings applied in order.
pub fn record_from_line(schemas: &Vec<Schema>, id: usize, line: &ConfigLine) -> (r: Record)
    requires
        schemas_wf(schemas.deep_view()),
    ensures
        record_view(r) == spec_from_line(schemas.deep_view(), id, line@),
        r.schema_id == id,
{
    let ghost sm = schemas.deep_view();
    let ghost target = spec_from_line(sm, id, line@);
    let mut rec = default_record(schemas, id);
    if id < schemas.len() {
        let ghost positional = sm[id as int].positional;
        let n = schemas[id].positional.len();
        let mut k: usize = 0;
        assert(positional.skip(0) =~= positional);
        while k < n
            invariant
                k <= n == positional.len(),
                sm == schemas.deep_view(),
                id < schemas@.len(),
                positional == sm[id as int].positional,
                rec.schema_id == id,
                target == spec_from_line(sm, id, line@),
                target.fields == crate::schema::spec_apply_positional(
                    record_view(rec).fields,
                    positional.skip(k as int),
                    line@.params,
                ),
            decreases n - k,
        {
            let b = schemas[id].positional[k];
            assert(positional.skip(k as int)[0] == positional[k as int]);
            assert(positional.skip(k as int).drop_first() =~= positional.skip(k + 1int));
            let v = if b.rest {
                rest_value(b.coerce, line, b.index)
            } else {
                coerce_scalar(b.coerce, line, b.index)
            };
            set_field(&mut rec, b.slot, v);
            k += 1;
        }
        assert(positional.skip(n as int) =~= Seq::<crate::schema::PosBinding>::empty());
    }
    assert(record_view(rec) == target);
    rec
}

/// Apply one found keyed binding to the record, consuming the line and, for
/// nested records with keyed fields of their own, the child's whole body.
fn dispatch_binding(
    schemas: &Vec<Schema>,
    rec: &mut Record,
    tname: &String,
    kb: &KeyBinding,
    reader: &mut ConfigReader,
) -> (r: Result<(), ParseConfigError>)
    requires
        old(reader).wf(),
        old(reader)@.len() > 0,
        schemas_wf(schemas.deep_view()),
        binding_wf(kb@.binding, schemas.deep_view().len() as int),
    ensures
        final(reader).wf(),
        (match spec_dispatch(
            schemas.deep_view(),
            record_view(*old(rec)),
            tname@,
            kb@,
            old(reader)@,
        ) {
            Ok((rm, rest)) => r is Ok && record_view(*final(rec)) == rm && final(reader)@ == rest
                && final(reader)@.len() < old(reader)@.len(),
            Err(e) => (r matches Err(err) && err@ == e),
        }),
    decreases old(reader)@.len(), 0int,
{
    let ghost sm = schemas.deep_view();
    let ghost lines0 = reader@;
    match &kb.binding {
        Binding::Scalar(c) => {
            let v = match reader.current() {
                Some(line) => coerce_scalar(*c, line, 0),
                None => Value::Bool(false),
            };
            let _ = reader.next_line();
            set_field(rec, kb.slot, v);
            Ok(())
        },
        Binding::Presence => {
            let _ = reader.next_line();
            set_field(rec, kb.slot, Value::Bool(true));
            Ok(())
        },
        Binding::FixedArray(c, n) => {
            let underflow = match reader.current() {
                Some(line) => line.params.len() < *n,
                None => true,
            };
            if underflow {
                let nm = match reader.current() {
                    Some(line) => line.name.clone(),
                    None => String::new(),
                };
                return Err(ParseConfigError::FixedArrayUnderflow(tname.clone(), nm));
            }
            let v = match reader.current() {
                Some(line) => array_value(*c, line, *n),
                None => Value::Bool(false),
            };
            let _ = reader.next_line();
            set_field(rec, kb.slot, v);
            Ok(())
        },
        Binding::Nested(j, e2) => {
            let mut child = match reader.current() {
                Some(line) => record_from_line(schemas, *j, line),
                None => Record { schema_id: 0, fields: Vec::new() },
            };
            let _ = reader.next_line();
            if schemas[*j].keyed.len() > 0 {
                assert(spec_has_child_fields(sm, *j));
                match parse_with_end(schemas, &mut child, reader, e2) {
                    Ok(()) => {
                        set_field(rec, kb.slot, Value::Rec(Box::new(child)));
                        Ok(())
                    },
                    Err(e) => Err(e),
                }
            } else {
                assert(!spec_has_child_fields(sm, *j));
                set_field(rec, kb.slot, Value::Rec(Box::new(child)));
                Ok(())
            }
        },
        Binding::Repeated(j, e2) => {
            let mut child = match reader.current() {
                Some(line) => record_from_line(schemas, *j, line),
                None => Record { schema_id: 0, fields: Vec::new() },
            };
            let _ = reader.next_line();
            if schemas[*j].keyed.len() > 0 {
                assert(spec_has_child_fields(sm, *j));
                match parse_with_end(schemas, &mut child, reader, e2) {
                    Ok(()) => {
                        let ghost pre = record_view(*rec);
                        append_child(rec, kb.slot, child);
                        Ok(())
                    },
                    Err(e) => Err(e),
                }
            } else {
                assert(!spec_has_child_fields(sm, *j));
                append_child(rec, kb.slot, child);
                Ok(())
            }
        },
    }
}

/// Parse the record's body under a termination rule, line by line, until the
/// rule, a foreign line of a `NoEnd` block, the end of the stream, or an
/// error stops it.
pub fn parse_with_end(
    schemas: &Vec<Schema>,
    rec: &mut Record,
    reader: &mut ConfigReader,
    end: &EndType,
) -> (r: Result<(), ParseConfigError>)
    requires
        old(reader).wf(),
        schemas_wf(schemas.deep_view()),
        old(rec).schema_id < schemas@.len(),
    ensures
        final(reader).wf(),
        (match spec_with_end(schemas.deep_view(), record_view(*old(rec)), old(reader)@, end@) {
            Ok((rm, rest)) => r is Ok && record_view(*final(rec)) == rm && final(reader)@ == rest
                && final(reader)@.len() <= old(reader)@.len(),
            Err(e) => (r matches Err(err) && err@ == e),
        }),
    decreases old(reader)@.len(), 1int,
{
    let ghost sm = schemas.deep_view();
    let ghost target = spec_with_end(sm, record_view(*old(rec)), old(reader)@, end@);
    loop
        invariant
            reader.wf(),
            sm == schemas.deep_view(),
            schemas_wf(sm),
            rec.schema_id < schemas@.len(),
            reader@.len() <= old(reader)@.len(),
            target == spec_with_end(sm, record_view(*old(rec)), old(reader)@, end@),
            target == spec_with_end(sm, record_view(*rec), reader@, end@),
        decreases reader@.len(),
    {
        let ghost lines_i = reader@;
        let ghost rv_i = record_view(*rec);
        let mut has_line = false;
        let mut matches_start = false;
        let mut matches_end = false;
        let mut found: Option<usize> = None;
        match reader.current() {
            None => {
            },
            Some(line) => {
                has_line = true;
                match end {
                    EndType::StartKey(k) => {
                        matches_start = line.name == *k;
                    },
                    EndType::EndKey(k) => {
                        matches_end = line.name == *k;
                    },
                    EndType::NoEnd => {
                    },
                }
                if !matches_start && !matches_end {
                    found = find_key(&schemas[rec.schema_id].keyed, &line.name);
                }
            },
        }
        if !has_line {
            return Ok(());
        }
        if matches_start {
            return Ok(());
        }
        if matches_end {
            let _ = reader.next_line();
            return Ok(());
        }
        match found {
            None => {
                match end {
                    EndType::EndKey(_) => {
                        let t = schemas[rec.schema_id].name.clone();
                        let nm = match reader.current() {
                            Some(line) => line.name.clone(),
                            None => String::new(),
                        };
                        return Err(ParseConfigError::InvalidKey(t, nm));
                    },
                    _ => {
                        return Ok(());
                    },
                }
            },
            Some(ki) => {
                let sid = rec.schema_id;
                proof {
                    assert(schema_wf(sm[sid as int], sid, sm.len() as int));
                    assert(binding_wf(sm[sid as int].keyed[ki as int].binding, sm.len() as int));
                }
                let tname = &schemas[sid].name;
                let kb = &schemas[sid].keyed[ki];
                match dispatch_binding(schemas, rec, tname, kb, reader) {
                    Err(e) => {
                        return Err(e);
                    },
                    Ok(()) => {
                        assert(reader@.len() < lines_i.len());
                    },
                }
            },
        }
    }
}

/// Dispatch exactly one line into the record: an absent lookahead is an
/// error, and so is a line name outside the record's keyed table.
pub fn parse_one_line(schemas: &Vec<Schema>, rec: &mut Record, reader: &mut ConfigReader) -> (r:
    Result<(), ParseConfigError>)
    requires
        old(reader).wf(),
        schemas_wf(schemas.deep_view()),
        old(rec).schema_id < schemas@.len(),
    ensures
        final(reader).wf(),
        (match spec_one_line(schemas.deep_view(), record_view(*old(rec)), old(reader)@) {
            Ok((rm, rest)) => r is Ok && record_view(*final(rec)) == rm && final(reader)@ == rest,
            Err(e) => (r matches Err(err) && err@ == e),
        }),
{
    let ghost sm = schemas.deep_view();
    let mut found: Option<usize> = None;
    let mut has_line = false;
    match reader.current() {
        None => {
        },
        Some(line) => {
            has_line = true;
            found = find_key(&schemas[rec.schema_id].keyed, &line.name);
        },
    }
    if !has_line {
        return Err(ParseConfigError::Eof);
    }
    match found {
        None => {
            let t = schemas[rec.schema_id].name.clone();
            let nm = match reader.current() {
                Some(line) => line.name.clone(),
                None => String::new(),
            };
            Err(ParseConfigError::InvalidKey(t, nm))
        },
        Some(ki) => {
            let sid = rec.schema_id;
            proof {
                assert(schema_wf(sm[sid as int], sid, sm.len() as int));
                assert(binding_wf(sm[sid as int].keyed[ki as int].binding, sm.len() as int));
            }
            let tname = &schemas[sid].name;
            let kb = &schemas[sid].keyed[ki];
            dispatch_binding(schemas, rec, tname, kb, reader)
        },
    }
}

/// Parse a whole document into one record of the schema with index `id`:
/// default-construct it, parse its body without a terminator, and demand
/// that the stream was consumed to its end.
pub fn from_config_record(schemas: &Vec<Schema>, id: usize, reader: &mut ConfigReader) -> (r:
    Result<Record, ParseConfigError>)
    requires
        old(reader).wf(),
        schemas_wf(schemas.deep_view()),
        id < schemas@.len(),
    ensures
        final(reader).wf(),
        (match spec_from_config(schemas.deep_view(), id, old(reader)@) {
            Ok(rm) => (r matches Ok(rec) && record_view(rec) == rm),
            Err(e) => (r matches Err(err) && err@ == e),
        }),
{
    let mut rec = default_record(schemas, id);
    let no_end = EndType::NoEnd;
    match parse_with_end(schemas, &mut rec, reader, &no_end) {
        Err(e) => Err(e),
        Ok(()) => {
            match reader.current() {
                None => Ok(rec),
                Some(line) => {
                    let t = schemas[id].name.clone();
                    let nm = line.name.clone();
                    Err(ParseConfigError::InvalidKey(t, nm))
                },
            }
        },
    }
}

} // verus!
