//! The schema and dispatch model.
//!
//! A record type's grammar is one data artifact, its [`Schema`]: an ordered
//! list of positional bindings used when an instance is constructed from its
//! own introducing line, and a keyed binding table used while parsing the
//! instance's nested body. One generic interpreter consumes these tables; no
//! parsing code is written per record type.
//!
//! A parsed instance is a [`Record`]: one [`Value`] per declared slot. The
//! typed record structs of this crate are read off such a generic record
//! after parsing.

use vstd::prelude::*;
use vstd::pervasive::VecAdditionalExecFns;
use crate::config::{EndM, EndType};
use crate::coerce::{spec_parse_bool, spec_parse_i32, spec_parse_u32};
use crate::tokenize::LineM;

verus! {

broadcast use vstd::std_specs::vec::group_vec_axioms, vstd::seq::group_seq_axioms,
    vstd::seq_lib::group_seq_lib_default;

/// How one textual parameter becomes a typed scalar.
#[derive(Clone, Copy, Debug)]
pub enum Coerce {
    /// Keep the text itself; an absent parameter yields the empty string.
    /// Fields whose values are not parsed by this crate (fractional numbers
    /// among them) carry their raw text under this coercion.
    Text,
    /// A signed 32-bit integer; absent or malformed text yields zero.
    Int,
    /// An unsigned 32-bit integer; absent or malformed text yields zero.
    Uint,
    /// The value-based boolean convention: true exactly when the parameter
    /// parses as the integer one.
    BoolVal,
}

/// What one record slot holds, and how it starts out.
#[derive(Clone, Copy, Debug)]
pub enum SlotKind {
    Text,
    Int,
    Uint,
    Bool,
    /// A list of scalars: a fixed array starts as that many zero values, a
    /// growable list as an empty one.
    Arr(Coerce, usize),
    /// One nested record of the schema with the given index, which must come
    /// earlier in the schema set.
    Rec(usize),
    /// A growable list of nested records.
    RecList,
}

/// One positional binding: fill `slot` from the parameter at `index` when the
/// record is constructed from its introducing line. With `rest` set, the slot
/// collects every parameter from `index` on instead.
#[derive(Clone, Copy, Debug)]
pub struct PosBinding {
    pub slot: usize,
    pub index: usize,
    pub coerce: Coerce,
    pub rest: bool,
}

/// What a keyed line does to the record being parsed.
#[derive(Debug)]
pub enum Binding {
    /// Replace the slot with the coercion of the first parameter.
    Scalar(Coerce),
    /// Set the slot to true merely because the key line occurred.
    Presence,
    /// Fill that many array slots from the leading parameters; fewer
    /// parameters than slots is a fatal error.
    FixedArray(Coerce, usize),
    /// Construct a replacing nested record of the given schema from the line,
    /// then parse its body under the given termination rule if it has keyed
    /// bindings of its own.
    Nested(usize, EndType),
    /// Append a new nested record of the given schema, constructed and parsed
    /// the same way.
    Repeated(usize, EndType),
}

/// One keyed binding: lines whose name equals `key`, matched exactly and
/// case-sensitively, act on `slot` as `binding` says.
#[derive(Debug)]
pub struct KeyBinding {
    pub key: String,
    pub slot: usize,
    pub binding: Binding,
}

/// The full grammar of one record type.
#[derive(Debug)]
pub struct Schema {
    /// The record type's name, carried in errors.
    pub name: String,
    pub slots: Vec<SlotKind>,
    pub positional: Vec<PosBinding>,
    pub keyed: Vec<KeyBinding>,
}

/// A parsed value: what one record slot holds.
#[derive(Debug)]
pub enum Value {
    Text(String),
    Int(i32),
    Uint(u32),
    Bool(bool),
    TextList(Vec<String>),
    IntList(Vec<i32>),
    UintList(Vec<u32>),
    Rec(Box<Record>),
    RecList(Vec<Record>),
}

/// A parsed record: one value per slot of its schema.
#[derive(Debug)]
pub struct Record {
    pub schema_id: usize,
    pub fields: Vec<Value>,
}

/// The model of a [`Binding`].
pub enum BindingM {
    Scalar(Coerce),
    Presence,
    FixedArray(Coerce, usize),
    Nested(usize, EndM),
    Repeated(usize, EndM),
}

/// The model of a [`KeyBinding`].
pub struct KeyBindingM {
    pub key: Seq<char>,
    pub slot: usize,
    pub binding: BindingM,
}

/// The model of a [`Schema`].
pub struct SchemaM {
    pub name: Seq<char>,
    pub slots: Seq<SlotKind>,
    pub positional: Seq<PosBinding>,
    pub keyed: Seq<KeyBindingM>,
}

/// The model of a [`Value`].
pub enum ValueM {
    Text(Seq<char>),
    Int(i32),
    Uint(u32),
    Bool(bool),
    TextList(Seq<Seq<char>>),
    IntList(Seq<i32>),
    UintList(Seq<u32>),
    Rec(RecordM),
    RecList(Seq<RecordM>),
}

/// The model of a [`Record`].
pub struct RecordM {
    pub schema_id: usize,
    pub fields: Seq<ValueM>,
}

impl View for Binding {
    type V = BindingM;

    open spec fn view(&self) -> BindingM {
        match self {
            Binding::Scalar(c) => BindingM::Scalar(*c),
            Binding::Presence => BindingM::Presence,
            Binding::FixedArray(c, n) => BindingM::FixedArray(*c, *n),
            Binding::Nested(j, e) => BindingM::Nested(*j, e@),
            Binding::Repeated(j, e) => BindingM::Repeated(*j, e@),
        }
    }
}

impl View for KeyBinding {
    type V = KeyBindingM;

    open spec fn view(&self) -> KeyBindingM {
        KeyBindingM { key: self.key@, slot: self.slot, binding: self.binding@ }
    }
}

impl DeepView for KeyBinding {
    type V = KeyBindingM;

    open spec fn deep_view(&self) -> KeyBindingM {
        self.view()
    }
}

impl View for Schema {
    type V = SchemaM;

    open spec fn view(&self) -> SchemaM {
        SchemaM {
            name: self.name@,
            slots: self.slots@,
            positional: self.positional@,
            keyed: self.keyed.deep_view(),
        }
    }
}

impl DeepView for Schema {
    type V = SchemaM;

    open spec fn deep_view(&self) -> SchemaM {
        self.view()
    }
}

/// The model of a [`Value`].
pub open spec fn value_view(v: Value) -> ValueM
    decreases v,
{
    match v {
        Value::Text(s) => ValueM::Text(s@),
        Value::Int(x) => ValueM::Int(x),
        Value::Uint(x) => ValueM::Uint(x),
        Value::Bool(x) => ValueM::Bool(x),
        Value::TextList(xs) => ValueM::TextList(xs.deep_view()),
        Value::IntList(xs) => ValueM::IntList(xs@),
        Value::UintList(xs) => ValueM::UintList(xs@),
        Value::Rec(b) => ValueM::Rec(record_view(*b)),
        Value::RecList(rs) => ValueM::RecList(rec_seq_view(rs@)),
    }
}

/// The models of a sequence of values.
pub open spec fn value_seq_view(vs: Seq<Value>) -> Seq<ValueM>
    decreases vs,
{
    if vs.len() == 0 {
        Seq::empty()
    } else {
        seq![value_view(vs[0])] + value_seq_view(vs.drop_first())
    }
}

/// The models of a sequence of records.
pub open spec fn rec_seq_view(rs: Seq<Record>) -> Seq<RecordM>
    decreases rs,
{
    if rs.len() == 0 {
        Seq::empty()
    } else {
        seq![record_view(rs[0])] + rec_seq_view(rs.drop_first())
    }
}

/// The model of a [`Record`].
pub open spec fn record_view(r: Record) -> RecordM
    decreases r,
{
    RecordM { schema_id: r.schema_id, fields: value_seq_view(r.fields@) }
}

impl View for Value {
    type V = ValueM;

    open spec fn view(&self) -> ValueM {
        value_view(*self)
    }
}

impl DeepView for Value {
    type V = ValueM;

    open spec fn deep_view(&self) -> ValueM {
        value_view(*self)
    }
}

impl View for Record {
    type V = RecordM;

    open spec fn view(&self) -> RecordM {
        record_view(*self)
    }
}

impl DeepView for Record {
    type V = RecordM;

    open spec fn deep_view(&self) -> RecordM {
        record_view(*self)
    }
}

pub proof fn lemma_value_seq_view(vs: Seq<Value>)
    ensures
        value_seq_view(vs).len() == vs.len(),
        forall|i: int| 0 <= i < vs.len() ==> value_seq_view(vs)[i] == value_view(vs[i]),
    decreases vs,
{
    if vs.len() > 0 {
        lemma_value_seq_view(vs.drop_first());
    }
}

pub proof fn lemma_rec_seq_view(rs: Seq<Record>)
    ensures
        rec_seq_view(rs).len() == rs.len(),
        forall|i: int| 0 <= i < rs.len() ==> rec_seq_view(rs)[i] == record_view(rs[i]),
    decreases rs,
{
    if rs.len() > 0 {
        lemma_rec_seq_view(rs.drop_first());
    }
}

pub proof fn lemma_value_seq_view_push(vs: Seq<Value>, v: Value)
    ensures
        value_seq_view(vs.push(v)) == value_seq_view(vs).push(value_view(v)),
{
    lemma_value_seq_view(vs);
    lemma_value_seq_view(vs.push(v));
    assert(value_seq_view(vs.push(v)) =~= value_seq_view(vs).push(value_view(v)));
}

pub proof fn lemma_rec_seq_view_push(rs: Seq<Record>, r: Record)
    ensures
        rec_seq_view(rs.push(r)) == rec_seq_view(rs).push(record_view(r)),
{
    lemma_rec_seq_view(rs);
    lemma_rec_seq_view(rs.push(r));
    assert(rec_seq_view(rs.push(r)) =~= rec_seq_view(rs).push(record_view(r)));
}

pub proof fn lemma_value_seq_view_update(vs: Seq<Value>, i: int, v: Value)
    requires
        0 <= i < vs.len(),
    ensures
        value_seq_view(vs.update(i, v)) == value_seq_view(vs).update(i, value_view(v)),
{
    lemma_value_seq_view(vs);
    lemma_value_seq_view(vs.update(i, v));
    assert(value_seq_view(vs.update(i, v)) =~= value_seq_view(vs).update(i, value_view(v)));
}

/// A `Rec` slot must refer to an earlier schema, so that default construction
/// grounds out.
pub open spec fn slot_wf(kind: SlotKind, id: usize) -> bool {
    match kind {
        SlotKind::Rec(j) => j < id,
        _ => true,
    }
}

/// A nested or repeated binding must name a schema of the set.
pub open spec fn binding_wf(b: BindingM, n: int) -> bool {
    match b {
        BindingM::Nested(j, _) => (j as int) < n,
        BindingM::Repeated(j, _) => (j as int) < n,
        _ => true,
    }
}

pub open spec fn schema_wf(s: SchemaM, id: usize, n: int) -> bool {
    &&& forall|k: int| 0 <= k < s.slots.len() ==> slot_wf(#[trigger] s.slots[k], id)
    &&& forall|k: int| 0 <= k < s.keyed.len() ==> binding_wf(#[trigger] s.keyed[k].binding, n)
}

/// The well-formedness of a schema set: every reference between schemas stays
/// inside the set, and default nesting only ever points backwards.
pub open spec fn schemas_wf(schemas: Seq<SchemaM>) -> bool {
    forall|i: int|
        0 <= i < schemas.len() ==> schema_wf(#[trigger] schemas[i], i as usize, schemas.len() as int)
}

/// The default value of a slot.
pub open spec fn spec_default_value(schemas: Seq<SchemaM>, kind: SlotKind, id: usize) -> ValueM
    decreases id, 0int, 0int,
{
    match kind {
        SlotKind::Text => ValueM::Text(Seq::empty()),
        SlotKind::Int => ValueM::Int(0),
        SlotKind::Uint => ValueM::Uint(0),
        SlotKind::Bool => ValueM::Bool(false),
        SlotKind::Arr(c, n) => spec_default_list(c, n),
        SlotKind::Rec(j) => if j < id {
            ValueM::Rec(spec_default_record(schemas, j))
        } else {
            ValueM::Rec(RecordM { schema_id: j, fields: Seq::empty() })
        },
        SlotKind::RecList => ValueM::RecList(Seq::empty()),
    }
}

/// A list slot's default: that many zero values.
pub open spec fn spec_default_list(c: Coerce, n: usize) -> ValueM {
    match c {
        Coerce::Text => ValueM::TextList(Seq::new(n as nat, |_i: int| Seq::<char>::empty())),
        Coerce::Int => ValueM::IntList(Seq::new(n as nat, |_i: int| 0i32)),
        Coerce::Uint => ValueM::UintList(Seq::new(n as nat, |_i: int| 0u32)),
        Coerce::BoolVal => ValueM::Bool(false),
    }
}

pub open spec fn spec_default_fields(schemas: Seq<SchemaM>, slots: Seq<SlotKind>, id: usize) -> Seq<
    ValueM,
>
    decreases id, 0int, slots.len(),
{
    if slots.len() == 0 {
        Seq::empty()
    } else {
        spec_default_fields(schemas, slots.drop_last(), id).push(
            spec_default_value(schemas, slots.last(), id),
        )
    }
}

/// The default-constructed record of a schema: every slot at its default.
pub open spec fn spec_default_record(schemas: Seq<SchemaM>, id: usize) -> RecordM
    decreases id, 1int, 0int,
{
    let slots = if id < schemas.len() {
        schemas[id as int].slots
    } else {
        Seq::empty()
    };
    RecordM { schema_id: id, fields: spec_default_fields(schemas, slots, id) }
}

pub proof fn lemma_default_fields(schemas: Seq<SchemaM>, slots: Seq<SlotKind>, id: usize)
    ensures
        spec_default_fields(schemas, slots, id).len() == slots.len(),
        forall|k: int|
            0 <= k < slots.len() ==> spec_default_fields(schemas, slots, id)[k]
                == spec_default_value(schemas, slots[k], id),
    decreases slots.len(),
{
    if slots.len() > 0 {
        lemma_default_fields(schemas, slots.drop_last(), id);
    }
}

/// The parameter at an index, if present.
pub open spec fn param_at(params: Seq<Seq<char>>, index: usize) -> Option<Seq<char>> {
    if index < params.len() {
        Some(params[index as int])
    } else {
        None
    }
}

/// Coerce one optional parameter to a scalar value: text passes through (the
/// empty string when absent), numbers fall back to zero, the value-based
/// boolean to false.
pub open spec fn spec_coerce_scalar(c: Coerce, p: Option<Seq<char>>) -> ValueM {
    match c {
        Coerce::Text => ValueM::Text(
            match p {
                Some(s) => s,
                None => Seq::empty(),
            },
        ),
        Coerce::Int => ValueM::Int(
            match p {
                Some(s) => match spec_parse_i32(s) {
                    Some(v) => v,
                    None => 0,
                },
                None => 0,
            },
        ),
        Coerce::Uint => ValueM::Uint(
            match p {
                Some(s) => match spec_parse_u32(s) {
                    Some(v) => v,
                    None => 0,
                },
                None => 0,
            },
        ),
        Coerce::BoolVal => ValueM::Bool(
            match p {
                Some(s) => spec_parse_bool(s) == Some(true),
                None => false,
            },
        ),
    }
}

/// The signed integers among the parameters from `i` on; parameters that do
/// not parse are dropped.
pub open spec fn spec_rest_ints(params: Seq<Seq<char>>, i: int) -> Seq<i32>
    decreases params.len() - i,
{
    if i < 0 || i >= params.len() {
        Seq::empty()
    } else {
        match spec_parse_i32(params[i]) {
            Some(v) => seq![v] + spec_rest_ints(params, i + 1),
            None => spec_rest_ints(params, i + 1),
        }
    }
}

/// The unsigned integers among the parameters from `i` on.
pub open spec fn spec_rest_uints(params: Seq<Seq<char>>, i: int) -> Seq<u32>
    decreases params.len() - i,
{
    if i < 0 || i >= params.len() {
        Seq::empty()
    } else {
        match spec_parse_u32(params[i]) {
            Some(v) => seq![v] + spec_rest_uints(params, i + 1),
            None => spec_rest_uints(params, i + 1),
        }
    }
}

/// A rest binding's value: every parameter from `from` on, coerced; numeric
/// parameters that do not parse are dropped.
pub open spec fn spec_rest_value(c: Coerce, params: Seq<Seq<char>>, from: usize) -> ValueM {
    match c {
        Coerce::Text => ValueM::TextList(
            if from < params.len() {
                params.skip(from as int)
            } else {
                Seq::empty()
            },
        ),
        Coerce::Int => ValueM::IntList(spec_rest_ints(params, from as int)),
        Coerce::Uint => ValueM::UintList(spec_rest_uints(params, from as int)),
        Coerce::BoolVal => ValueM::Bool(false),
    }
}

/// Replace a slot; a slot index outside the record changes nothing.
pub open spec fn spec_set_field(fields: Seq<ValueM>, slot: usize, v: ValueM) -> Seq<ValueM> {
    if slot < fields.len() {
        fields.update(slot as int, v)
    } else {
        fields
    }
}

pub open spec fn spec_apply_one(fields: Seq<ValueM>, b: PosBinding, params: Seq<Seq<char>>) -> Seq<
    ValueM,
> {
    let v = if b.rest {
        spec_rest_value(b.coerce, params, b.index)
    } else {
        spec_coerce_scalar(b.coerce, param_at(params, b.index))
    };
    spec_set_field(fields, b.slot, v)
}

pub open spec fn spec_apply_positional(
    fields: Seq<ValueM>,
    positional: Seq<PosBinding>,
    params: Seq<Seq<char>>,
) -> Seq<ValueM>
    decreases positional.len(),
{
    if positional.len() == 0 {
        fields
    } else {
        spec_apply_positional(
            spec_apply_one(fields, positional[0], params),
            positional.drop_first(),
            params,
        )
    }
}

/// A record constructed from its introducing line: every slot at its default,
/// then the positional bindings applied in order.
pub open spec fn spec_from_line(schemas: Seq<SchemaM>, id: usize, line: LineM) -> RecordM {
    let d = spec_default_record(schemas, id);
    let positional = if id < schemas.len() {
        schemas[id as int].positional
    } else {
        Seq::empty()
    };
    RecordM { schema_id: id, fields: spec_apply_positional(d.fields, positional, line.params) }
}

/// A record type has keyed child fields exactly when its keyed table is
/// non-empty; only then does a nested instance own a body.
pub open spec fn spec_has_child_fields(schemas: Seq<SchemaM>, id: usize) -> bool {
    id < schemas.len() && schemas[id as int].keyed.len() > 0
}

/// Append a child to a repeated-record slot; any other slot changes nothing.
pub open spec fn spec_append_child(rm: RecordM, slot: usize, child: RecordM) -> RecordM {
    if slot < rm.fields.len() {
        match rm.fields[slot as int] {
            ValueM::RecList(rs) => RecordM {
                schema_id: rm.schema_id,
                fields: rm.fields.update(slot as int, ValueM::RecList(rs.push(child))),
            },
            _ => rm,
        }
    } else {
        rm
    }
}

fn default_list(c: Coerce, n: usize) -> (r: Value)
    ensures
        value_view(r) == spec_default_list(c, n),
{
    match c {
        Coerce::Text => {
            let mut xs: Vec<String> = Vec::new();
            let mut k: usize = 0;
            while k < n
                invariant
                    k <= n,
                    xs.deep_view() == Seq::new(k as nat, |_i: int| Seq::<char>::empty()),
                decreases n - k,
            {
                let ghost pre = xs.deep_view();
                xs.push(String::new());
                assert(xs.deep_view() =~= pre.push(Seq::<char>::empty()));
                assert(pre.push(Seq::<char>::empty()) =~= Seq::new(
                    (k + 1) as nat,
                    |_i: int| Seq::<char>::empty(),
                ));
                k += 1;
            }
            assert(xs.deep_view() =~= Seq::new(n as nat, |_i: int| Seq::<char>::empty()));
            Value::TextList(xs)
        },
        Coerce::Int => {
            let mut xs: Vec<i32> = Vec::new();
            let mut k: usize = 0;
            while k < n
                invariant
                    k <= n,
                    xs@ =~= Seq::new(k as nat, |_i: int| 0i32),
                decreases n - k,
            {
                xs.push(0);
                k += 1;
            }
            assert(xs@ =~= Seq::new(n as nat, |_i: int| 0i32));
            Value::IntList(xs)
        },
        Coerce::Uint => {
            let mut xs: Vec<u32> = Vec::new();
            let mut k: usize = 0;
            while k < n
                invariant
                    k <= n,
                    xs@ =~= Seq::new(k as nat, |_i: int| 0u32),
                decreases n - k,
            {
                xs.push(0);
                k += 1;
            }
            assert(xs@ =~= Seq::new(n as nat, |_i: int| 0u32));
            Value::UintList(xs)
        },
        Coerce::BoolVal => Value::Bool(false),
    }
}

fn default_value(schemas: &Vec<Schema>, kind: SlotKind, id: usize) -> (r: Value)
    requires
        schemas_wf(schemas.deep_view()),
        slot_wf(kind, id),
    ensures
        value_view(r) == spec_default_value(schemas.deep_view(), kind, id),
    decreases id, 0int, 0int,
{
    match kind {
        SlotKind::Text => Value::Text(String::new()),
        SlotKind::Int => Value::Int(0),
        SlotKind::Uint => Value::Uint(0),
        SlotKind::Bool => Value::Bool(false),
        SlotKind::Arr(c, n) => default_list(c, n),
        SlotKind::Rec(j) => Value::Rec(Box::new(default_record(schemas, j))),
        SlotKind::RecList => Value::RecList(Vec::new()),
    }
}

/// Construct the default record of the schema with the given index: every
/// slot at its default value.
pub fn default_record(schemas: &Vec<Schema>, id: usize) -> (r: Record)
    requires
        schemas_wf(schemas.deep_view()),
    ensures
        record_view(r) == spec_default_record(schemas.deep_view(), id),
    decreases id, 1int, 0int,
{
    let ghost sm = schemas.deep_view();
    let mut fields: Vec<Value> = Vec::new();
    if id < schemas.len() {
        let ghost slots = sm[id as int].slots;
        assert(schema_wf(sm[id as int], id, sm.len() as int));
        let n = schemas[id].slots.len();
        let mut k: usize = 0;
        assert(value_seq_view(fields@) =~= spec_default_fields(sm, slots.subrange(0, 0), id));
        while k < n
            invariant
                k <= n,
                n == slots.len(),
                sm == schemas.deep_view(),
                schemas_wf(sm),
                id < schemas@.len(),
                slots == sm[id as int].slots,
                schema_wf(sm[id as int], id, sm.len() as int),
                value_seq_view(fields@) == spec_default_fields(sm, slots.subrange(0, k as int), id),
            decreases n - k,
        {
            assert(slot_wf(slots[k as int], id));
            let v = default_value(schemas, schemas[id].slots[k], id);
            let ghost pre = fields@;
            fields.push(v);
            proof {
                lemma_value_seq_view_push(pre, v);
                assert(slots.subrange(0, k + 1int).drop_last() =~= slots.subrange(0, k as int));
                assert(slots.subrange(0, k + 1int).last() == slots[k as int]);
            }
            k += 1;
        }
        assert(slots.subrange(0, n as int) =~= slots);
    } else {
        assert(value_seq_view(fields@) =~= Seq::<ValueM>::empty());
    }
    Record { schema_id: id, fields }
}

/// Replace a slot of a record's model.
pub open spec fn spec_set_rec(rm: RecordM, slot: usize, v: ValueM) -> RecordM {
    RecordM { schema_id: rm.schema_id, fields: spec_set_field(rm.fields, slot, v) }
}

/// Replace a slot of a record; a slot index outside the record changes
/// nothing.
pub fn set_field(rec: &mut Record, slot: usize, v: Value)
    ensures
        final(rec).schema_id == old(rec).schema_id,
        (record_view(*final(rec)) == spec_set_rec(record_view(*old(rec)), slot, value_view(v))),
{
    proof {
        lemma_value_seq_view(old(rec).fields@);
    }
    if slot < rec.fields.len() {
        let ghost pre = rec.fields@;
        rec.fields.set(slot, v);
        proof {
            lemma_value_seq_view_update(pre, slot as int, v);
        }
    }
}

/// Append a child record to a repeated-record slot; any other slot changes
/// nothing.
pub fn append_child(rec: &mut Record, slot: usize, child: Record)
    ensures
        final(rec).schema_id == old(rec).schema_id,
        (record_view(*final(rec)) == spec_append_child(
            record_view(*old(rec)),
            slot,
            record_view(child),
        )),
{
    proof {
        lemma_value_seq_view(old(rec).fields@);
    }
    if slot < rec.fields.len() {
        let ghost pre = rec.fields@;
        let mut taken = Value::Bool(false);
        rec.fields.set_and_swap(slot, &mut taken);
        match taken {
            Value::RecList(mut rs) => {
                let ghost rs_pre = rs@;
                rs.push(child);
                proof {
                    lemma_rec_seq_view_push(rs_pre, child);
                }
                let new_val = Value::RecList(rs);
                let ghost mid = rec.fields@;
                rec.fields.set(slot, new_val);
                proof {
                    lemma_value_seq_view_update(pre, slot as int, new_val);
                    assert(mid == pre.update(slot as int, Value::Bool(false)));
                    assert(pre.update(slot as int, Value::Bool(false)).update(
                        slot as int,
                        new_val,
                    ) =~= pre.update(slot as int, new_val));
                }
            },
            other => {
                let ghost mid = rec.fields@;
                rec.fields.set(slot, other);
                proof {
                    lemma_value_seq_view_update(pre, slot as int, other);
                    assert(pre.update(slot as int, Value::Bool(false)).update(
                        slot as int,
                        other,
                    ) =~= pre.update(slot as int, other));
                    assert(pre.update(slot as int, other) =~= pre);
                }
            },
        }
    }
}

} // verus!
