//! Map object decks: flat key=value lines for the game state, plus `OBJECT`
//! and `OBJECT_INVENTORY` lines that open object records.
//!
//! Fog intensities and object placement are fractional numbers in the files;
//! this crate carries them as their raw parameter text.

use vstd::prelude::*;
use crate::config::{ConfigReader, EndM, EndType, ParseConfigError, ParseErrM};
use crate::fields::{
    arr_i32, arr_text, empty_record, m_i32_list, m_rec, m_recs, m_text, m_text_list, m_u32,
    rec_child, rec_children, rec_i32_arr2, rec_text, rec_text_arr3, rec_text_arr4, rec_u32,
};
use crate::parser::{from_config_record, spec_from_config};
use crate::schema::{
    Binding, BindingM, Coerce, KeyBinding, KeyBindingM, PosBinding, Record, RecordM, Schema,
    SchemaM, SlotKind, lemma_rec_seq_view, record_view, schema_wf, schemas_wf,
};
use crate::tokenize::LineM;

verus! {

broadcast use vstd::std_specs::vec::group_vec_axioms, vstd::seq::group_seq_axioms,
    vstd::seq_lib::group_seq_lib_default;

/// The in-game clock: `GAME_STATE_TIME_OF_DAY <hour> <min>`.
#[derive(Debug, PartialEq)]
pub struct TimeOfDay {
    pub hour: u32,
    pub min: u32,
}

/// The model of a [`TimeOfDay`].
pub struct TimeOfDayM {
    pub hour: u32,
    pub min: u32,
}

impl DeepView for TimeOfDay {
    type V = TimeOfDayM;

    open spec fn deep_view(&self) -> TimeOfDayM {
        TimeOfDayM { hour: self.hour, min: self.min }
    }
}

/// The fog configuration: six fractional parameters, kept as raw text.
#[derive(Debug, PartialEq)]
pub struct Fog {
    pub f0: String,
    pub f1: String,
    pub f2: String,
    pub f3: String,
    pub f4: String,
    pub f5: String,
}

/// The model of a [`Fog`].
pub struct FogM {
    pub f0: Seq<char>,
    pub f1: Seq<char>,
    pub f2: Seq<char>,
    pub f3: Seq<char>,
    pub f4: Seq<char>,
    pub f5: Seq<char>,
}

impl DeepView for Fog {
    type V = FogM;

    open spec fn deep_view(&self) -> FogM {
        FogM {
            f0: self.f0@,
            f1: self.f1@,
            f2: self.f2@,
            f3: self.f3@,
            f4: self.f4@,
            f5: self.f5@,
        }
    }
}

/// One map object. The deck declares no bindings for its fields, so parsing
/// leaves them at their defaults: position and rotation text, and an id pair.
#[derive(Debug, PartialEq)]
pub struct Object {
    pub position: [String; 3],
    pub rotation: [String; 4],
    pub id: [i32; 2],
}

/// The model of an [`Object`].
pub struct ObjectM {
    pub position: Seq<Seq<char>>,
    pub rotation: Seq<Seq<char>>,
    pub id: Seq<i32>,
}

impl DeepView for Object {
    type V = ObjectM;

    open spec fn deep_view(&self) -> ObjectM {
        ObjectM {
            position: self.position.deep_view(),
            rotation: self.rotation.deep_view(),
            id: self.id@,
        }
    }
}

/// A whole map object deck.
#[derive(Debug, PartialEq)]
pub struct Mtf {
    pub time_of_day: TimeOfDay,
    pub fog: Fog,
    pub inventory_objects: Vec<Object>,
    pub objects: Vec<Object>,
}

/// The model of an [`Mtf`].
pub struct MtfM {
    pub time_of_day: TimeOfDayM,
    pub fog: FogM,
    pub inventory_objects: Seq<ObjectM>,
    pub objects: Seq<ObjectM>,
}

impl DeepView for Mtf {
    type V = MtfM;

    open spec fn deep_view(&self) -> MtfM {
        MtfM {
            time_of_day: self.time_of_day.deep_view(),
            fog: self.fog.deep_view(),
            inventory_objects: self.inventory_objects.deep_view(),
            objects: self.objects.deep_view(),
        }
    }
}

/// The schema index of each record type of this file format.
pub const TIME_OF_DAY_ID: usize = 0;

pub const FOG_ID: usize = 1;

pub const OBJECT_ID: usize = 2;

pub const MTF_ID: usize = 3;

pub open spec fn spec_time_of_day_schema() -> SchemaM {
    SchemaM {
        name: "TimeOfDay"@,
        slots: seq![SlotKind::Uint, SlotKind::Uint],
        positional: seq![
            PosBinding { slot: 0, index: 0, coerce: Coerce::Uint, rest: false },
            PosBinding { slot: 1, index: 1, coerce: Coerce::Uint, rest: false },
        ],
        keyed: Seq::empty(),
    }
}

pub open spec fn spec_fog_schema() -> SchemaM {
    SchemaM {
        name: "Fog"@,
        slots: seq![
            SlotKind::Text,
            SlotKind::Text,
            SlotKind::Text,
            SlotKind::Text,
            SlotKind::Text,
            SlotKind::Text,
        ],
        positional: seq![
            PosBinding { slot: 0, index: 0, coerce: Coerce::Text, rest: false },
            PosBinding { slot: 1, index: 1, coerce: Coerce::Text, rest: false },
            PosBinding { slot: 2, index: 2, coerce: Coerce::Text, rest: false },
            PosBinding { slot: 3, index: 3, coerce: Coerce::Text, rest: false },
            PosBinding { slot: 4, index: 4, coerce: Coerce::Text, rest: false },
            PosBinding { slot: 5, index: 5, coerce: Coerce::Text, rest: false },
        ],
        keyed: Seq::empty(),
    }
}

pub open spec fn spec_object_schema() -> SchemaM {
    SchemaM {
        name: "Object"@,
        slots: seq![
            SlotKind::Arr(Coerce::Text, 3),
            SlotKind::Arr(Coerce::Text, 4),
            SlotKind::Arr(Coerce::Int, 2),
        ],
        positional: Seq::empty(),
        keyed: Seq::empty(),
    }
}

pub open spec fn spec_mtf_schema() -> SchemaM {
    SchemaM {
        name: "Mtf"@,
        slots: seq![
            SlotKind::Rec(TIME_OF_DAY_ID),
            SlotKind::Rec(FOG_ID),
            SlotKind::RecList,
            SlotKind::RecList,
        ],
        positional: Seq::empty(),
        keyed: seq![
            KeyBindingM {
                key: "GAME_STATE_TIME_OF_DAY"@,
                slot: 0,
                binding: BindingM::Nested(TIME_OF_DAY_ID, EndM::NoEnd),
            },
            KeyBindingM {
                key: "GAME_CONFIG_FOG_ENABLED"@,
                slot: 1,
                binding: BindingM::Nested(FOG_ID, EndM::NoEnd),
            },
            KeyBindingM {
                key: "OBJECT_INVENTORY"@,
                slot: 2,
                binding: BindingM::Repeated(OBJECT_ID, EndM::NoEnd),
            },
            KeyBindingM {
                key: "OBJECT"@,
                slot: 3,
                binding: BindingM::Repeated(OBJECT_ID, EndM::NoEnd),
            },
        ],
    }
}

/// The whole schema set of the map deck grammar.
pub open spec fn spec_mtf_schemas() -> Seq<SchemaM> {
    seq![spec_time_of_day_schema(), spec_fog_schema(), spec_object_schema(), spec_mtf_schema()]
}

pub proof fn lemma_mtf_schemas_wf()
    ensures
        schemas_wf(spec_mtf_schemas()),
{
    let s = spec_mtf_schemas();
    assert forall|i: int| 0 <= i < s.len() implies schema_wf(
        #[trigger] s[i],
        i as usize,
        s.len() as int,
    ) by {
        if i == 0 {
            assert(schema_wf(s[0], 0usize, 4));
        } else if i == 1 {
            assert(schema_wf(s[1], 1usize, 4));
        } else if i == 2 {
            assert(schema_wf(s[2], 2usize, 4));
        } else {
            assert(schema_wf(s[3], 3usize, 4));
        }
    }
}

fn time_of_day_schema() -> (s: Schema)
    ensures
        s@ == spec_time_of_day_schema(),
{
    let mut slots: Vec<SlotKind> = Vec::new();
    slots.push(SlotKind::Uint);
    slots.push(SlotKind::Uint);
    let mut positional: Vec<PosBinding> = Vec::new();
    positional.push(PosBinding { slot: 0, index: 0, coerce: Coerce::Uint, rest: false });
    positional.push(PosBinding { slot: 1, index: 1, coerce: Coerce::Uint, rest: false });
    let s = Schema { name: "TimeOfDay".to_owned(), slots, positional, keyed: Vec::new() };
    assert(s@.slots =~= spec_time_of_day_schema().slots);
    assert(s@.positional =~= spec_time_of_day_schema().positional);
    assert(s@.keyed =~= spec_time_of_day_schema().keyed);
    s
}

fn fog_schema() -> (s: Schema)
    ensures
        s@ == spec_fog_schema(),
{
    let mut slots: Vec<SlotKind> = Vec::new();
    let mut positional: Vec<PosBinding> = Vec::new();
    let mut k: usize = 0;
    while k < 6
        invariant
            k <= 6,
            slots@ =~= Seq::new(k as nat, |_i: int| SlotKind::Text),
            positional@ =~= Seq::new(
                k as nat,
                |i: int|
                    PosBinding {
                        slot: i as usize,
                        index: i as usize,
                        coerce: Coerce::Text,
                        rest: false,
                    },
            ),
        decreases 6 - k,
    {
        slots.push(SlotKind::Text);
        positional.push(PosBinding { slot: k, index: k, coerce: Coerce::Text, rest: false });
        k += 1;
    }
    let s = Schema { name: "Fog".to_owned(), slots, positional, keyed: Vec::new() };
    assert(s@.slots =~= spec_fog_schema().slots);
    assert(s@.positional =~= spec_fog_schema().positional);
    assert(s@.keyed =~= spec_fog_schema().keyed);
    s
}

fn object_schema() -> (s: Schema)
    ensures
        s@ == spec_object_schema(),
{
    let mut slots: Vec<SlotKind> = Vec::new();
    slots.push(SlotKind::Arr(Coerce::Text, 3));
    slots.push(SlotKind::Arr(Coerce::Text, 4));
    slots.push(SlotKind::Arr(Coerce::Int, 2));
    let s = Schema { name: "Object".to_owned(), slots, positional: Vec::new(), keyed: Vec::new() };
    assert(s@.slots =~= spec_object_schema().slots);
    assert(s@.positional =~= spec_object_schema().positional);
    assert(s@.keyed =~= spec_object_schema().keyed);
    s
}

fn mtf_schema() -> (s: Schema)
    ensures
        s@ == spec_mtf_schema(),
{
    let mut slots: Vec<SlotKind> = Vec::new();
    slots.push(SlotKind::Rec(TIME_OF_DAY_ID));
    slots.push(SlotKind::Rec(FOG_ID));
    slots.push(SlotKind::RecList);
    slots.push(SlotKind::RecList);
    let mut keyed: Vec<KeyBinding> = Vec::new();
    keyed.push(
        KeyBinding {
            key: "GAME_STATE_TIME_OF_DAY".to_owned(),
            slot: 0,
            binding: Binding::Nested(TIME_OF_DAY_ID, EndType::NoEnd),
        },
    );
    keyed.push(
        KeyBinding {
            key: "GAME_CONFIG_FOG_ENABLED".to_owned(),
            slot: 1,
            binding: Binding::Nested(FOG_ID, EndType::NoEnd),
        },
    );
    keyed.push(
        KeyBinding {
            key: "OBJECT_INVENTORY".to_owned(),
            slot: 2,
            binding: Binding::Repeated(OBJECT_ID, EndType::NoEnd),
        },
    );
    keyed.push(
        KeyBinding {
            key: "OBJECT".to_owned(),
            slot: 3,
            binding: Binding::Repeated(OBJECT_ID, EndType::NoEnd),
        },
    );
    let s = Schema { name: "Mtf".to_owned(), slots, positional: Vec::new(), keyed };
    assert(s@.slots =~= spec_mtf_schema().slots);
    assert(s@.positional =~= spec_mtf_schema().positional);
    assert(s@.keyed =~= spec_mtf_schema().keyed);
    s
}

/// The map deck grammar's schema set.
fn mtf_schemas() -> (r: Vec<Schema>)
    ensures
        r.deep_view() == spec_mtf_schemas(),
{
    let mut v: Vec<Schema> = Vec::new();
    v.push(time_of_day_schema());
    v.push(fog_schema());
    v.push(object_schema());
    v.push(mtf_schema());
    assert(v.deep_view() =~= spec_mtf_schemas());
    v
}

pub open spec fn spec_time_of_day_of(rm: RecordM) -> TimeOfDayM {
    TimeOfDayM { hour: m_u32(rm, 0), min: m_u32(rm, 1) }
}

pub open spec fn spec_fog_of(rm: RecordM) -> FogM {
    FogM {
        f0: m_text(rm, 0),
        f1: m_text(rm, 1),
        f2: m_text(rm, 2),
        f3: m_text(rm, 3),
        f4: m_text(rm, 4),
        f5: m_text(rm, 5),
    }
}

pub open spec fn spec_object_of(rm: RecordM) -> ObjectM {
    ObjectM {
        position: arr_text(m_text_list(rm, 0), 3),
        rotation: arr_text(m_text_list(rm, 1), 4),
        id: arr_i32(m_i32_list(rm, 2), 2),
    }
}

pub open spec fn spec_mtf_of(rm: RecordM) -> MtfM {
    MtfM {
        time_of_day: spec_time_of_day_of(m_rec(rm, 0)),
        fog: spec_fog_of(m_rec(rm, 1)),
        inventory_objects: Seq::new(
            m_recs(rm, 2).len(),
            |i: int| spec_object_of(m_recs(rm, 2)[i]),
        ),
        objects: Seq::new(m_recs(rm, 3).len(), |i: int| spec_object_of(m_recs(rm, 3)[i])),
    }
}

fn time_of_day_from_record(rec: &Record) -> (r: TimeOfDay)
    ensures
        r.deep_view() == spec_time_of_day_of(record_view(*rec)),
{
    TimeOfDay { hour: rec_u32(rec, 0), min: rec_u32(rec, 1) }
}

fn fog_from_record(rec: &Record) -> (r: Fog)
    ensures
        r.deep_view() == spec_fog_of(record_view(*rec)),
{
    Fog {
        f0: rec_text(rec, 0),
        f1: rec_text(rec, 1),
        f2: rec_text(rec, 2),
        f3: rec_text(rec, 3),
        f4: rec_text(rec, 4),
        f5: rec_text(rec, 5),
    }
}

fn object_from_record(rec: &Record) -> (r: Object)
    ensures
        r.deep_view() == spec_object_of(record_view(*rec)),
{
    Object {
        position: rec_text_arr3(rec, 0),
        rotation: rec_text_arr4(rec, 1),
        id: rec_i32_arr2(rec, 2),
    }
}

fn objects_from(rec: &Record, slot: usize) -> (r: Vec<Object>)
    ensures
        r.deep_view() == Seq::new(
            m_recs(record_view(*rec), slot as int).len(),
            |i: int| spec_object_of(m_recs(record_view(*rec), slot as int)[i]),
        ),
{
    let ghost rms = m_recs(record_view(*rec), slot as int);
    let mut out: Vec<Object> = Vec::new();
    match rec_children(rec, slot) {
        None => {
            assert(out.deep_view() =~= Seq::new(rms.len(), |i: int| spec_object_of(rms[i])));
        },
        Some(rs) => {
            proof {
                lemma_rec_seq_view(rs@);
            }
            let n = rs.len();
            let mut i: usize = 0;
            while i < n
                invariant
                    i <= n == rs@.len(),
                    rms == crate::schema::rec_seq_view(rs@),
                    rms.len() == n,
                    forall|k: int| 0 <= k < n ==> rms[k] == record_view(rs@[k]),
                    out.deep_view() == Seq::new(i as nat, |k: int| spec_object_of(rms[k])),
                decreases n - i,
            {
                let ghost pre = out.deep_view();
                out.push(object_from_record(&rs[i]));
                assert(out.deep_view() =~= pre.push(spec_object_of(rms[i as int])));
                assert(pre.push(spec_object_of(rms[i as int])) =~= Seq::new(
                    (i + 1) as nat,
                    |k: int| spec_object_of(rms[k]),
                ));
                i += 1;
            }
            assert(Seq::new(n as nat, |k: int| spec_object_of(rms[k])) =~= Seq::new(
                rms.len(),
                |k: int| spec_object_of(rms[k]),
            ));
        },
    }
    out
}

fn mtf_from_record(rec: &Record) -> (r: Mtf)
    ensures
        r.deep_view() == spec_mtf_of(record_view(*rec)),
{
    let time_of_day = match rec_child(rec, 0) {
        Some(c) => time_of_day_from_record(c),
        None => {
            let e = empty_record();
            time_of_day_from_record(&e)
        },
    };
    let fog = match rec_child(rec, 1) {
        Some(c) => fog_from_record(c),
        None => {
            let e = empty_record();
            fog_from_record(&e)
        },
    };
    Mtf {
        time_of_day,
        fog,
        inventory_objects: objects_from(rec, 2),
        objects: objects_from(rec, 3),
    }
}

/// What parsing a map deck yields: the typed deck, or the error that aborted
/// the parse.
pub open spec fn spec_mtf_result(lines: Seq<LineM>) -> Result<MtfM, ParseErrM> {
    match spec_from_config(spec_mtf_schemas(), MTF_ID, lines) {
        Ok(rm) => Ok(spec_mtf_of(rm)),
        Err(e) => Err(e),
    }
}

impl Mtf {
    /// Parse a whole map deck from the reader's lines.
    pub fn from_config(reader: &mut ConfigReader) -> (r: Result<Mtf, ParseConfigError>)
        requires
            old(reader).wf(),
        ensures
            final(reader).wf(),
            (match spec_mtf_result(old(reader)@) {
                Ok(m) => (r matches Ok(v) && v.deep_view() == m),
                Err(e) => (r matches Err(err) && err@ == e),
            }),
    {
        let schemas = mtf_schemas();
        proof {
            lemma_mtf_schemas_wf();
        }
        match from_config_record(&schemas, MTF_ID, reader) {
            Ok(rec) => Ok(mtf_from_record(&rec)),
            Err(e) => Err(e),
        }
    }
}

/// Parsing is deterministic at the deck level: two decks parsed from one
/// and the same line stream are structurally equal.
pub proof fn lemma_mtf_deterministic(lines: Seq<LineM>, a: Mtf, b: Mtf)
    requires
        spec_mtf_result(lines) == Ok::<MtfM, ParseErrM>(a.deep_view()),
        spec_mtf_result(lines) == Ok::<MtfM, ParseErrM>(b.deep_view()),
    ensures
        a.deep_view() == b.deep_view(),
{
}

} // verus!
