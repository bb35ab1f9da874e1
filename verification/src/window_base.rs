//! Window layout files: `WINDOW_BASE` records whose bodies mix keyed scalars,
//! repeated sub-records, and nested geometry blocks with their own bodies.
//!
//! Vertex coordinates and colors are fractional numbers in the files; this
//! crate carries them as their raw parameter text.

use vstd::prelude::*;
use crate::config::{ConfigReader, EndM, EndType, ParseConfigError, ParseErrM};
use crate::fields::{
    arr_i32, empty_record, m_i32, m_i32_list, m_bool, m_rec, m_recs, m_text, rec_bool, rec_child,
    rec_children, rec_i32, rec_i32_arr2, rec_text,
};
use crate::parser::{from_config_record, spec_from_config};
use crate::schema::{
    Binding, BindingM, Coerce, KeyBinding, KeyBindingM, PosBinding, Record, RecordM, Schema,
    SchemaM, SlotKind, lemma_rec_seq_view, record_view, schema_wf, schemas_wf,
};
use crate::tokenize::LineM;

verus! {

broadcast use vstd::std_specs::vec::group_vec_axioms, vstd::seq::group_seq_axioms,
    vstd::seq_lib::group_seq_lib_default;

/// A user integer variable: `DEFINE_USER_IVAR <name> <value>`.
#[derive(Debug, PartialEq)]
pub struct UserIVar {
    pub name: String,
    pub value: i32,
}

/// The model of a [`UserIVar`].
pub struct UserIVarM {
    pub name: Seq<char>,
    pub value: i32,
}

impl DeepView for UserIVar {
    type V = UserIVarM;

    open spec fn deep_view(&self) -> UserIVarM {
        UserIVarM { name: self.name@, value: self.value }
    }
}

/// A button advice rectangle: `DEFINE_BUTTON_ADVICE <name> <x> <y> <dx> <dy>`.
#[derive(Debug, PartialEq)]
pub struct ButtonAdvice {
    pub name: String,
    pub x: i32,
    pub y: i32,
    pub dx: i32,
    pub dy: i32,
}

/// The model of a [`ButtonAdvice`].
pub struct ButtonAdviceM {
    pub name: Seq<char>,
    pub x: i32,
    pub y: i32,
    pub dx: i32,
    pub dy: i32,
}

impl DeepView for ButtonAdvice {
    type V = ButtonAdviceM;

    open spec fn deep_view(&self) -> ButtonAdviceM {
        ButtonAdviceM { name: self.name@, x: self.x, y: self.y, dx: self.dx, dy: self.dy }
    }
}

/// One geometry vertex: position, color and texture coordinates, kept as the
/// raw fractional text of the line.
#[derive(Debug, PartialEq)]
pub struct Vertex {
    pub x_pos: String,
    pub y_pos: String,
    pub r: String,
    pub g: String,
    pub b: String,
    pub a: String,
    pub tu: String,
    pub tv: String,
}

/// The model of a [`Vertex`].
pub struct VertexM {
    pub x_pos: Seq<char>,
    pub y_pos: Seq<char>,
    pub r: Seq<char>,
    pub g: Seq<char>,
    pub b: Seq<char>,
    pub a: Seq<char>,
    pub tu: Seq<char>,
    pub tv: Seq<char>,
}

impl DeepView for Vertex {
    type V = VertexM;

    open spec fn deep_view(&self) -> VertexM {
        VertexM {
            x_pos: self.x_pos@,
            y_pos: self.y_pos@,
            r: self.r@,
            g: self.g@,
            b: self.b@,
            a: self.a@,
            tu: self.tu@,
            tv: self.tv@,
        }
    }
}

/// A vertex list: `GEOMETRY_VERTICES <count>` followed by `GEOMETRY_VERTEX`
/// lines.
#[derive(Debug, PartialEq)]
pub struct Vertices {
    pub count: i32,
    pub vertices: Vec<Vertex>,
}

/// The model of a [`Vertices`].
pub struct VerticesM {
    pub count: i32,
    pub vertices: Seq<VertexM>,
}

impl DeepView for Vertices {
    type V = VerticesM;

    open spec fn deep_view(&self) -> VerticesM {
        VerticesM { count: self.count, vertices: self.vertices.deep_view() }
    }
}

/// One triangle of a geometry block: three vertex indices.
#[derive(Debug, PartialEq)]
pub struct Polygon {
    pub i0: i32,
    pub i1: i32,
    pub i2: i32,
}

/// The model of a [`Polygon`].
pub struct PolygonM {
    pub i0: i32,
    pub i1: i32,
    pub i2: i32,
}

impl DeepView for Polygon {
    type V = PolygonM;

    open spec fn deep_view(&self) -> PolygonM {
        PolygonM { i0: self.i0, i1: self.i1, i2: self.i2 }
    }
}

/// A polygon list: `GEOMETRY_POLYGONS <count>` followed by `GEOMETRY_POLYGON`
/// lines.
#[derive(Debug, PartialEq)]
pub struct Polygons {
    pub count: i32,
    pub polygons: Vec<Polygon>,
}

/// The model of a [`Polygons`].
pub struct PolygonsM {
    pub count: i32,
    pub polygons: Seq<PolygonM>,
}

impl DeepView for Polygons {
    type V = PolygonsM;

    open spec fn deep_view(&self) -> PolygonsM {
        PolygonsM { count: self.count, polygons: self.polygons.deep_view() }
    }
}

/// A window integer variable record; the corpus declares none of its fields.
#[derive(Debug, PartialEq)]
pub struct WindowIVar {}

/// The model of a [`WindowIVar`].
pub struct WindowIVarM {}

impl DeepView for WindowIVar {
    type V = WindowIVarM;

    open spec fn deep_view(&self) -> WindowIVarM {
        WindowIVarM {  }
    }
}

/// A textured geometry block of a window.
#[derive(Debug, PartialEq)]
pub struct Geometry {
    pub texture: String,
    pub texture_pack_dx: i32,
    pub texture_pack_dy: i32,
    pub bilinear_filtering: String,
    pub geometry_blend_mode: String,
    pub vertices: Vertices,
    pub polygons: Polygons,
}

/// The model of a [`Geometry`].
pub struct GeometryM {
    pub texture: Seq<char>,
    pub texture_pack_dx: i32,
    pub texture_pack_dy: i32,
    pub bilinear_filtering: Seq<char>,
    pub geometry_blend_mode: Seq<char>,
    pub vertices: VerticesM,
    pub polygons: PolygonsM,
}

impl DeepView for Geometry {
    type V = GeometryM;

    open spec fn deep_view(&self) -> GeometryM {
        GeometryM {
            texture: self.texture@,
            texture_pack_dx: self.texture_pack_dx,
            texture_pack_dy: self.texture_pack_dy,
            bilinear_filtering: self.bilinear_filtering@,
            geometry_blend_mode: self.geometry_blend_mode@,
            vertices: self.vertices.deep_view(),
            polygons: self.polygons.deep_view(),
        }
    }
}

/// A tiled background block: a picture name and its dimensions.
#[derive(Debug, PartialEq)]
pub struct GeometryTiled {
    pub jpg_name: String,
    pub jpg_dimensions: [i32; 2],
    pub chunk_dimensions: [i32; 2],
}

/// The model of a [`GeometryTiled`].
pub struct GeometryTiledM {
    pub jpg_name: Seq<char>,
    pub jpg_dimensions: Seq<i32>,
    pub chunk_dimensions: Seq<i32>,
}

impl DeepView for GeometryTiled {
    type V = GeometryTiledM;

    open spec fn deep_view(&self) -> GeometryTiledM {
        GeometryTiledM {
            jpg_name: self.jpg_name@,
            jpg_dimensions: self.jpg_dimensions@,
            chunk_dimensions: self.chunk_dimensions@,
        }
    }
}

/// One window: `WINDOW_BASE <name>` and its keyed body.
#[derive(Debug, PartialEq)]
pub struct WindowBase {
    pub name: String,
    pub dx: i32,
    pub dy: i32,
    pub render_dx: i32,
    pub render_dy: i32,
    pub reload_on_mode_switch: bool,
    pub user_ivars: Vec<UserIVar>,
    pub user_ivars_modify: Vec<UserIVar>,
    pub button_advices: Vec<ButtonAdvice>,
    pub geometry: Vec<Geometry>,
    pub geometry_tiled: Vec<GeometryTiled>,
}

/// The model of a [`WindowBase`].
pub struct WindowBaseM {
    pub name: Seq<char>,
    pub dx: i32,
    pub dy: i32,
    pub render_dx: i32,
    pub render_dy: i32,
    pub reload_on_mode_switch: bool,
    pub user_ivars: Seq<UserIVarM>,
    pub user_ivars_modify: Seq<UserIVarM>,
    pub button_advices: Seq<ButtonAdviceM>,
    pub geometry: Seq<GeometryM>,
    pub geometry_tiled: Seq<GeometryTiledM>,
}

impl DeepView for WindowBase {
    type V = WindowBaseM;

    open spec fn deep_view(&self) -> WindowBaseM {
        WindowBaseM {
            name: self.name@,
            dx: self.dx,
            dy: self.dy,
            render_dx: self.render_dx,
            render_dy: self.render_dy,
            reload_on_mode_switch: self.reload_on_mode_switch,
            user_ivars: self.user_ivars.deep_view(),
            user_ivars_modify: self.user_ivars_modify.deep_view(),
            button_advices: self.button_advices.deep_view(),
            geometry: self.geometry.deep_view(),
            geometry_tiled: self.geometry_tiled.deep_view(),
        }
    }
}

/// A whole window layout file: every `WINDOW_BASE` in order.
#[derive(Debug, PartialEq)]
pub struct WindowBases {
    pub window_bases: Vec<WindowBase>,
}

/// The model of a [`WindowBases`].
pub struct WindowBasesM {
    pub window_bases: Seq<WindowBaseM>,
}

impl DeepView for WindowBases {
    type V = WindowBasesM;

    open spec fn deep_view(&self) -> WindowBasesM {
        WindowBasesM { window_bases: self.window_bases.deep_view() }
    }
}

/// The schema index of each record type of this file format.
pub const USER_IVAR_ID: usize = 0;

pub const BUTTON_ADVICE_ID: usize = 1;

pub const VERTEX_ID: usize = 2;

pub const VERTICES_ID: usize = 3;

pub const POLYGON_ID: usize = 4;

pub const POLYGONS_ID: usize = 5;

pub const GEOMETRY_ID: usize = 6;

pub const GEOMETRY_TILED_ID: usize = 7;

pub const WINDOW_BASE_ID: usize = 8;

pub const WINDOW_BASES_ID: usize = 9;

pub open spec fn spec_user_ivar_schema() -> SchemaM {
    SchemaM {
        name: "UserIVar"@,
        slots: seq![SlotKind::Text, SlotKind::Int],
        positional: seq![
            PosBinding { slot: 0, index: 0, coerce: Coerce::Text, rest: false },
            PosBinding { slot: 1, index: 1, coerce: Coerce::Int, rest: false },
        ],
        keyed: Seq::empty(),
    }
}

pub open spec fn spec_button_advice_schema() -> SchemaM {
    SchemaM {
        name: "ButtonAdvice"@,
        slots: seq![SlotKind::Text, SlotKind::Int, SlotKind::Int, SlotKind::Int, SlotKind::Int],
        positional: seq![
            PosBinding { slot: 0, index: 0, coerce: Coerce::Text, rest: false },
            PosBinding { slot: 1, index: 1, coerce: Coerce::Int, rest: false },
            PosBinding { slot: 2, index: 2, coerce: Coerce::Int, rest: false },
            PosBinding { slot: 3, index: 3, coerce: Coerce::Int, rest: false },
            PosBinding { slot: 4, index: 4, coerce: Coerce::Int, rest: false },
        ],
        keyed: Seq::empty(),
    }
}

pub open spec fn spec_vertex_schema() -> SchemaM {
    SchemaM {
        name: "Vertex"@,
        slots: seq![
            SlotKind::Text,
            SlotKind::Text,
            SlotKind::Text,
            SlotKind::Text,
            SlotKind::Text,
            SlotKind::Text,
            SlotKind::Text,
            SlotKind::Text,
        ],
        positional: seq![
            PosBinding { slot: 0, index: 0, coerce: Coerce::Text, rest: false },
            PosBinding { slot: 1, index: 1, coerce: Coerce::Text, rest: false },
            PosBinding { slot: 2, index: 2, coerce: Coerce::Text, rest: false },
            PosBinding { slot: 3, index: 3, coerce: Coerce::Text, rest: false },
            PosBinding { slot: 4, index: 4, coerce: Coerce::Text, rest: false },
            PosBinding { slot: 5, index: 5, coerce: Coerce::Text, rest: false },
            PosBinding { slot: 6, index: 6, coerce: Coerce::Text, rest: false },
            PosBinding { slot: 7, index: 7, coerce: Coerce::Text, rest: false },
        ],
        keyed: Seq::empty(),
    }
}

pub open spec fn spec_vertices_schema() -> SchemaM {
    SchemaM {
        name: "Vertices"@,
        slots: seq![SlotKind::Int, SlotKind::RecList],
        positional: seq![PosBinding { slot: 0, index: 0, coerce: Coerce::Int, rest: false }],
        keyed: seq![
            KeyBindingM {
                key: "GEOMETRY_VERTEX"@,
                slot: 1,
                binding: BindingM::Repeated(VERTEX_ID, EndM::NoEnd),
            },
        ],
    }
}

pub open spec fn spec_polygon_schema() -> SchemaM {
    SchemaM {
        name: "Polygon"@,
        slots: seq![SlotKind::Int, SlotKind::Int, SlotKind::Int],
        positional: seq![
            PosBinding { slot: 0, index: 0, coerce: Coerce::Int, rest: false },
            PosBinding { slot: 1, index: 1, coerce: Coerce::Int, rest: false },
            PosBinding { slot: 2, index: 2, coerce: Coerce::Int, rest: false },
        ],
        keyed: Seq::empty(),
    }
}

pub open spec fn spec_polygons_schema() -> SchemaM {
    SchemaM {
        name: "Polygons"@,
        slots: seq![SlotKind::Int, SlotKind::RecList],
        positional: seq![PosBinding { slot: 0, index: 0, coerce: Coerce::Int, rest: false }],
        keyed: seq![
            KeyBindingM {
                key: "GEOMETRY_POLYGON"@,
                slot: 1,
                binding: BindingM::Repeated(POLYGON_ID, EndM::NoEnd),
            },
        ],
    }
}

pub open spec fn spec_geometry_schema() -> SchemaM {
    SchemaM {
        name: "Geometry"@,
        slots: seq![
            SlotKind::Text,
            SlotKind::Int,
            SlotKind::Int,
            SlotKind::Text,
            SlotKind::Text,
            SlotKind::Rec(VERTICES_ID),
            SlotKind::Rec(POLYGONS_ID),
        ],
        positional: Seq::empty(),
        keyed: seq![
            KeyBindingM { key: "GEOMETRY_TEXTURE"@, slot: 0, binding: BindingM::Scalar(Coerce::Text) },
            KeyBindingM {
                key: "GEOMETRY_TEXTURE_PACK_DX"@,
                slot: 1,
                binding: BindingM::Scalar(Coerce::Int),
            },
            KeyBindingM {
                key: "GEOMETRY_TEXTURE_PACK_DY"@,
                slot: 2,
                binding: BindingM::Scalar(Coerce::Int),
            },
            KeyBindingM {
                key: "GEOMETRY_BILINEAR_FILTERING"@,
                slot: 3,
                binding: BindingM::Scalar(Coerce::Text),
            },
            KeyBindingM {
                key: "GEOMETRY_BLEND_MODE"@,
                slot: 4,
                binding: BindingM::Scalar(Coerce::Text),
            },
            KeyBindingM {
                key: "GEOMETRY_VERTICES"@,
                slot: 5,
                binding: BindingM::Nested(VERTICES_ID, EndM::NoEnd),
            },
            KeyBindingM {
                key: "GEOMETRY_POLYGONS"@,
                slot: 6,
                binding: BindingM::Nested(POLYGONS_ID, EndM::NoEnd),
            },
        ],
    }
}

pub open spec fn spec_geometry_tiled_schema() -> SchemaM {
    SchemaM {
        name: "GeometryTiled"@,
        slots: seq![SlotKind::Text, SlotKind::Arr(Coerce::Int, 2), SlotKind::Arr(Coerce::Int, 2)],
        positional: Seq::empty(),
        keyed: seq![
            KeyBindingM {
                key: "GEOMETRY_JPG_NAME"@,
                slot: 0,
                binding: BindingM::Scalar(Coerce::Text),
            },
            KeyBindingM {
                key: "GEOMETRY_JPG_DIMENSIONS"@,
                slot: 1,
                binding: BindingM::FixedArray(Coerce::Int, 2),
            },
            KeyBindingM {
                key: "GEOMETRY_CHUNK_DIMENSIONS"@,
                slot: 2,
                binding: BindingM::FixedArray(Coerce::Int, 2),
            },
        ],
    }
}

pub open spec fn spec_window_base_schema() -> SchemaM {
    SchemaM {
        name: "WindowBase"@,
        slots: seq![
            SlotKind::Text,
            SlotKind::Int,
            SlotKind::Int,
            SlotKind::Int,
            SlotKind::Int,
            SlotKind::Bool,
            SlotKind::RecList,
            SlotKind::RecList,
            SlotKind::RecList,
            SlotKind::RecList,
            SlotKind::RecList,
        ],
        positional: seq![PosBinding { slot: 0, index: 0, coerce: Coerce::Text, rest: false }],
        keyed: seq![
            KeyBindingM { key: "WINDOW_BASE_DX"@, slot: 1, binding: BindingM::Scalar(Coerce::Int) },
            KeyBindingM { key: "WINDOW_BASE_DY"@, slot: 2, binding: BindingM::Scalar(Coerce::Int) },
            KeyBindingM {
                key: "WINDOW_BASE_RENDER_DX"@,
                slot: 3,
                binding: BindingM::Scalar(Coerce::Int),
            },
            KeyBindingM {
                key: "WINDOW_BASE_RENDER_DY"@,
                slot: 4,
                binding: BindingM::Scalar(Coerce::Int),
            },
            KeyBindingM {
                key: "WINDOW_BASE_RELOAD_ON_MODE_SWITCH"@,
                slot: 5,
                binding: BindingM::Presence,
            },
            KeyBindingM {
                key: "DEFINE_USER_IVAR"@,
                slot: 6,
                binding: BindingM::Repeated(USER_IVAR_ID, EndM::NoEnd),
            },
            KeyBindingM {
                key: "MODIFY_USER_IVAR"@,
                slot: 7,
                binding: BindingM::Repeated(USER_IVAR_ID, EndM::NoEnd),
            },
            KeyBindingM {
                key: "DEFINE_BUTTON_ADVICE"@,
                slot: 8,
                binding: BindingM::Repeated(BUTTON_ADVICE_ID, EndM::NoEnd),
            },
            KeyBindingM {
                key: "WINDOW_BASE_GEOMETRY"@,
                slot: 9,
                binding: BindingM::Repeated(GEOMETRY_ID, EndM::StartKey("WINDOW_BASE_GEOMETRY"@)),
            },
            KeyBindingM {
                key: "WINDOW_BASE_GEOMETRY_TILED"@,
                slot: 10,
                binding: BindingM::Repeated(
                    GEOMETRY_TILED_ID,
                    EndM::StartKey("WINDOW_BASE_GEOMETRY_TILED"@),
                ),
            },
        ],
    }
}

pub open spec fn spec_window_bases_schema() -> SchemaM {
    SchemaM {
        name: "WindowBases"@,
        slots: seq![SlotKind::RecList],
        positional: Seq::empty(),
        keyed: seq![
            KeyBindingM {
                key: "WINDOW_BASE"@,
                slot: 0,
                binding: BindingM::Repeated(WINDOW_BASE_ID, EndM::NoEnd),
            },
        ],
    }
}

/// The whole schema set of the window layout grammar.
pub open spec fn spec_window_schemas() -> Seq<SchemaM> {
    seq![
        spec_user_ivar_schema(),
        spec_button_advice_schema(),
        spec_vertex_schema(),
        spec_vertices_schema(),
        spec_polygon_schema(),
        spec_polygons_schema(),
        spec_geometry_schema(),
        spec_geometry_tiled_schema(),
        spec_window_base_schema(),
        spec_window_bases_schema(),
    ]
}

pub proof fn lemma_window_schemas_wf()
    ensures
        schemas_wf(spec_window_schemas()),
{
    let s = spec_window_schemas();
    assert forall|i: int| 0 <= i < s.len() implies schema_wf(
        #[trigger] s[i],
        i as usize,
        s.len() as int,
    ) by {
        if i == 0 {
            assert(schema_wf(s[0], 0usize, 10));
        } else if i == 1 {
            assert(schema_wf(s[1], 1usize, 10));
        } else if i == 2 {
            assert(schema_wf(s[2], 2usize, 10));
        } else if i == 3 {
            assert(schema_wf(s[3], 3usize, 10));
        } else if i == 4 {
            assert(schema_wf(s[4], 4usize, 10));
        } else if i == 5 {
            assert(schema_wf(s[5], 5usize, 10));
        } else if i == 6 {
            assert(schema_wf(s[6], 6usize, 10));
        } else if i == 7 {
            assert(schema_wf(s[7], 7usize, 10));
        } else if i == 8 {
            assert(schema_wf(s[8], 8usize, 10));
        } else {
            assert(schema_wf(s[9], 9usize, 10));
        }
    }
}

fn pos_scalar(slot: usize, index: usize, c: Coerce) -> (b: PosBinding)
    ensures
        b == (PosBinding { slot, index, coerce: c, rest: false }),
{
    PosBinding { slot, index, coerce: c, rest: false }
}

fn scalar_key(key: &str, slot: usize, c: Coerce) -> (kb: KeyBinding)
    ensures
        kb@ == (KeyBindingM { key: key@, slot, binding: BindingM::Scalar(c) }),
{
    KeyBinding { key: key.to_owned(), slot, binding: Binding::Scalar(c) }
}

fn repeated_key(key: &str, slot: usize, child: usize) -> (kb: KeyBinding)
    ensures
        kb@ == (KeyBindingM { key: key@, slot, binding: BindingM::Repeated(child, EndM::NoEnd) }),
{
    KeyBinding { key: key.to_owned(), slot, binding: Binding::Repeated(child, EndType::NoEnd) }
}

fn repeated_start_key(key: &str, slot: usize, child: usize) -> (kb: KeyBinding)
    ensures
        kb@ == (KeyBindingM {
            key: key@,
            slot,
            binding: BindingM::Repeated(child, EndM::StartKey(key@)),
        }),
{
    KeyBinding {
        key: key.to_owned(),
        slot,
        binding: Binding::Repeated(child, EndType::StartKey(key.to_owned())),
    }
}

fn user_ivar_schema() -> (s: Schema)
    ensures
        s@ == spec_user_ivar_schema(),
{
    let mut slots: Vec<SlotKind> = Vec::new();
    slots.push(SlotKind::Text);
    slots.push(SlotKind::Int);
    let mut positional: Vec<PosBinding> = Vec::new();
    positional.push(pos_scalar(0, 0, Coerce::Text));
    positional.push(pos_scalar(1, 1, Coerce::Int));
    let s = Schema { name: "UserIVar".to_owned(), slots, positional, keyed: Vec::new() };
    assert(s@.slots =~= spec_user_ivar_schema().slots);
    assert(s@.positional =~= spec_user_ivar_schema().positional);
    assert(s@.keyed =~= spec_user_ivar_schema().keyed);
    s
}

fn button_advice_schema() -> (s: Schema)
    ensures
        s@ == spec_button_advice_schema(),
{
    let mut slots: Vec<SlotKind> = Vec::new();
    slots.push(SlotKind::Text);
    slots.push(SlotKind::Int);
    slots.push(SlotKind::Int);
    slots.push(SlotKind::Int);
    slots.push(SlotKind::Int);
    let mut positional: Vec<PosBinding> = Vec::new();
    positional.push(pos_scalar(0, 0, Coerce::Text));
    positional.push(pos_scalar(1, 1, Coerce::Int));
    positional.push(pos_scalar(2, 2, Coerce::Int));
    positional.push(pos_scalar(3, 3, Coerce::Int));
    positional.push(pos_scalar(4, 4, Coerce::Int));
    let s = Schema { name: "ButtonAdvice".to_owned(), slots, positional, keyed: Vec::new() };
    assert(s@.slots =~= spec_button_advice_schema().slots);
    assert(s@.positional =~= spec_button_advice_schema().positional);
    assert(s@.keyed =~= spec_button_advice_schema().keyed);
    s
}

fn vertex_schema() -> (s: Schema)
    ensures
        s@ == spec_vertex_schema(),
{
    let mut slots: Vec<SlotKind> = Vec::new();
    let mut positional: Vec<PosBinding> = Vec::new();
    let mut k: usize = 0;
    while k < 8
        invariant
            k <= 8,
            slots@ =~= Seq::new(k as nat, |_i: int| SlotKind::Text),
            positional@ =~= Seq::new(
                k as nat,
                |i: int|
                    PosBinding {
                        slot: i as usize,
                        index: i as usize,
                        coerce: Coerce::Text,
                        rest: false,
                    },
            ),
        decreases 8 - k,
    {
        slots.push(SlotKind::Text);
        positional.push(pos_scalar(k, k, Coerce::Text));
        k += 1;
    }
    let s = Schema { name: "Vertex".to_owned(), slots, positional, keyed: Vec::new() };
    assert(s@.slots =~= spec_vertex_schema().slots);
    assert(s@.positional =~= spec_vertex_schema().positional);
    assert(s@.keyed =~= spec_vertex_schema().keyed);
    s
}

fn vertices_schema() -> (s: Schema)
    ensures
        s@ == spec_vertices_schema(),
{
    let mut slots: Vec<SlotKind> = Vec::new();
    slots.push(SlotKind::Int);
    slots.push(SlotKind::RecList);
    let mut positional: Vec<PosBinding> = Vec::new();
    positional.push(pos_scalar(0, 0, Coerce::Int));
    let mut keyed: Vec<KeyBinding> = Vec::new();
    keyed.push(repeated_key("GEOMETRY_VERTEX", 1, VERTEX_ID));
    let s = Schema { name: "Vertices".to_owned(), slots, positional, keyed };
    assert(s@.slots =~= spec_vertices_schema().slots);
    assert(s@.positional =~= spec_vertices_schema().positional);
    assert(s@.keyed =~= spec_vertices_schema().keyed);
    s
}

fn polygon_schema() -> (s: Schema)
    ensures
        s@ == spec_polygon_schema(),
{
    let mut slots: Vec<SlotKind> = Vec::new();
    slots.push(SlotKind::Int);
    slots.push(SlotKind::Int);
    slots.push(SlotKind::Int);
    let mut positional: Vec<PosBinding> = Vec::new();
    positional.push(pos_scalar(0, 0, Coerce::Int));
    positional.push(pos_scalar(1, 1, Coerce::Int));
    positional.push(pos_scalar(2, 2, Coerce::Int));
    let s = Schema { name: "Polygon".to_owned(), slots, positional, keyed: Vec::new() };
    assert(s@.slots =~= spec_polygon_schema().slots);
    assert(s@.positional =~= spec_polygon_schema().positional);
    assert(s@.keyed =~= spec_polygon_schema().keyed);
    s
}

fn polygons_schema() -> (s: Schema)
    ensures
        s@ == spec_polygons_schema(),
{
    let mut slots: Vec<SlotKind> = Vec::new();
    slots.push(SlotKind::Int);
    slots.push(SlotKind::RecList);
    let mut positional: Vec<PosBinding> = Vec::new();
    positional.push(pos_scalar(0, 0, Coerce::Int));
    let mut keyed: Vec<KeyBinding> = Vec::new();
    keyed.push(repeated_key("GEOMETRY_POLYGON", 1, POLYGON_ID));
    let s = Schema { name: "Polygons".to_owned(), slots, positional, keyed };
    assert(s@.slots =~= spec_polygons_schema().slots);
    assert(s@.positional =~= spec_polygons_schema().positional);
    assert(s@.keyed =~= spec_polygons_schema().keyed);
    s
}

fn geometry_schema() -> (s: Schema)
    ensures
        s@ == spec_geometry_schema(),
{
    let mut slots: Vec<SlotKind> = Vec::new();
    slots.push(SlotKind::Text);
    slots.push(SlotKind::Int);
    slots.push(SlotKind::Int);
    slots.push(SlotKind::Text);
    slots.push(SlotKind::Text);
    slots.push(SlotKind::Rec(VERTICES_ID));
    slots.push(SlotKind::Rec(POLYGONS_ID));
    let mut keyed: Vec<KeyBinding> = Vec::new();
    keyed.push(scalar_key("GEOMETRY_TEXTURE", 0, Coerce::Text));
    keyed.push(scalar_key("GEOMETRY_TEXTURE_PACK_DX", 1, Coerce::Int));
    keyed.push(scalar_key("GEOMETRY_TEXTURE_PACK_DY", 2, Coerce::Int));
    keyed.push(scalar_key("GEOMETRY_BILINEAR_FILTERING", 3, Coerce::Text));
    keyed.push(scalar_key("GEOMETRY_BLEND_MODE", 4, Coerce::Text));
    keyed.push(
        KeyBinding {
            key: "GEOMETRY_VERTICES".to_owned(),
            slot: 5,
            binding: Binding::Nested(VERTICES_ID, EndType::NoEnd),
        },
    );
    keyed.push(
        KeyBinding {
            key: "GEOMETRY_POLYGONS".to_owned(),
            slot: 6,
            binding: Binding::Nested(POLYGONS_ID, EndType::NoEnd),
        },
    );
    let s = Schema { name: "Geometry".to_owned(), slots, positional: Vec::new(), keyed };
    assert(s@.slots =~= spec_geometry_schema().slots);
    assert(s@.positional =~= spec_geometry_schema().positional);
    assert(s@.keyed =~= spec_geometry_schema().keyed);
    s
}

fn geometry_tiled_schema() -> (s: Schema)
    ensures
        s@ == spec_geometry_tiled_schema(),
{
    let mut slots: Vec<SlotKind> = Vec::new();
    slots.push(SlotKind::Text);
    slots.push(SlotKind::Arr(Coerce::Int, 2));
    slots.push(SlotKind::Arr(Coerce::Int, 2));
    let mut keyed: Vec<KeyBinding> = Vec::new();
    keyed.push(scalar_key("GEOMETRY_JPG_NAME", 0, Coerce::Text));
    keyed.push(
        KeyBinding {
            key: "GEOMETRY_JPG_DIMENSIONS".to_owned(),
            slot: 1,
            binding: Binding::FixedArray(Coerce::Int, 2),
        },
    );
    keyed.push(
        KeyBinding {
            key: "GEOMETRY_CHUNK_DIMENSIONS".to_owned(),
            slot: 2,
            binding: Binding::FixedArray(Coerce::Int, 2),
        },
    );
    let s = Schema { name: "GeometryTiled".to_owned(), slots, positional: Vec::new(), keyed };
    assert(s@.slots =~= spec_geometry_tiled_schema().slots);
    assert(s@.positional =~= spec_geometry_tiled_schema().positional);
    assert(s@.keyed =~= spec_geometry_tiled_schema().keyed);
    s
}

fn window_base_schema() -> (s: Schema)
    ensures
        s@ == spec_window_base_schema(),
{
    let mut slots: Vec<SlotKind> = Vec::new();
    slots.push(SlotKind::Text);
    slots.push(SlotKind::Int);
    slots.push(SlotKind::Int);
    slots.push(SlotKind::Int);
    slots.push(SlotKind::Int);
    slots.push(SlotKind::Bool);
    slots.push(SlotKind::RecList);
    slots.push(SlotKind::RecList);
    slots.push(SlotKind::RecList);
    slots.push(SlotKind::RecList);
    slots.push(SlotKind::RecList);
    let mut positional: Vec<PosBinding> = Vec::new();
    positional.push(pos_scalar(0, 0, Coerce::Text));
    let mut keyed: Vec<KeyBinding> = Vec::new();
    keyed.push(scalar_key("WINDOW_BASE_DX", 1, Coerce::Int));
    keyed.push(scalar_key("WINDOW_BASE_DY", 2, Coerce::Int));
    keyed.push(scalar_key("WINDOW_BASE_RENDER_DX", 3, Coerce::Int));
    keyed.push(scalar_key("WINDOW_BASE_RENDER_DY", 4, Coerce::Int));
    keyed.push(
        KeyBinding {
            key: "WINDOW_BASE_RELOAD_ON_MODE_SWITCH".to_owned(),
            slot: 5,
            binding: Binding::Presence,
        },
    );
    keyed.push(repeated_key("DEFINE_USER_IVAR", 6, USER_IVAR_ID));
    keyed.push(repeated_key("MODIFY_USER_IVAR", 7, USER_IVAR_ID));
    keyed.push(repeated_key("DEFINE_BUTTON_ADVICE", 8, BUTTON_ADVICE_ID));
    keyed.push(repeated_start_key("WINDOW_BASE_GEOMETRY", 9, GEOMETRY_ID));
    keyed.push(repeated_start_key("WINDOW_BASE_GEOMETRY_TILED", 10, GEOMETRY_TILED_ID));
    let s = Schema { name: "WindowBase".to_owned(), slots, positional, keyed };
    assert(s@.slots =~= spec_window_base_schema().slots);
    assert(s@.positional =~= spec_window_base_schema().positional);
    assert(s@.keyed =~= spec_window_base_schema().keyed);
    s
}

fn window_bases_schema() -> (s: Schema)
    ensures
        s@ == spec_window_bases_schema(),
{
    let mut slots: Vec<SlotKind> = Vec::new();
    slots.push(SlotKind::RecList);
    let mut keyed: Vec<KeyBinding> = Vec::new();
    keyed.push(repeated_key("WINDOW_BASE", 0, WINDOW_BASE_ID));
    let s = Schema { name: "WindowBases".to_owned(), slots, positional: Vec::new(), keyed };
    assert(s@.slots =~= spec_window_bases_schema().slots);
    assert(s@.positional =~= spec_window_bases_schema().positional);
    assert(s@.keyed =~= spec_window_bases_schema().keyed);
    s
}

/// The window layout grammar's schema set.
fn window_schemas() -> (r: Vec<Schema>)
    ensures
        r.deep_view() == spec_window_schemas(),
{
    let mut v: Vec<Schema> = Vec::new();
    v.push(user_ivar_schema());
    v.push(button_advice_schema());
    v.push(vertex_schema());
    v.push(vertices_schema());
    v.push(polygon_schema());
    v.push(polygons_schema());
    v.push(geometry_schema());
    v.push(geometry_tiled_schema());
    v.push(window_base_schema());
    v.push(window_bases_schema());
    assert(v.deep_view() =~= spec_window_schemas());
    v
}

pub open spec fn spec_user_ivar_of(rm: RecordM) -> UserIVarM {
    UserIVarM { name: m_text(rm, 0), value: m_i32(rm, 1) }
}

pub open spec fn spec_button_advice_of(rm: RecordM) -> ButtonAdviceM {
    ButtonAdviceM {
        name: m_text(rm, 0),
        x: m_i32(rm, 1),
        y: m_i32(rm, 2),
        dx: m_i32(rm, 3),
        dy: m_i32(rm, 4),
    }
}

pub open spec fn spec_vertex_of(rm: RecordM) -> VertexM {
    VertexM {
        x_pos: m_text(rm, 0),
        y_pos: m_text(rm, 1),
        r: m_text(rm, 2),
        g: m_text(rm, 3),
        b: m_text(rm, 4),
        a: m_text(rm, 5),
        tu: m_text(rm, 6),
        tv: m_text(rm, 7),
    }
}

pub open spec fn spec_vertices_of(rm: RecordM) -> VerticesM {
    VerticesM {
        count: m_i32(rm, 0),
        vertices: Seq::new(m_recs(rm, 1).len(), |i: int| spec_vertex_of(m_recs(rm, 1)[i])),
    }
}

pub open spec fn spec_polygon_of(rm: RecordM) -> PolygonM {
    PolygonM { i0: m_i32(rm, 0), i1: m_i32(rm, 1), i2: m_i32(rm, 2) }
}

pub open spec fn spec_polygons_of(rm: RecordM) -> PolygonsM {
    PolygonsM {
        count: m_i32(rm, 0),
        polygons: Seq::new(m_recs(rm, 1).len(), |i: int| spec_polygon_of(m_recs(rm, 1)[i])),
    }
}

pub open spec fn spec_geometry_of(rm: RecordM) -> GeometryM {
    GeometryM {
        texture: m_text(rm, 0),
        texture_pack_dx: m_i32(rm, 1),
        texture_pack_dy: m_i32(rm, 2),
        bilinear_filtering: m_text(rm, 3),
        geometry_blend_mode: m_text(rm, 4),
        vertices: spec_vertices_of(m_rec(rm, 5)),
        polygons: spec_polygons_of(m_rec(rm, 6)),
    }
}

pub open spec fn spec_geometry_tiled_of(rm: RecordM) -> GeometryTiledM {
    GeometryTiledM {
        jpg_name: m_text(rm, 0),
        jpg_dimensions: arr_i32(m_i32_list(rm, 1), 2),
        chunk_dimensions: arr_i32(m_i32_list(rm, 2), 2),
    }
}

pub open spec fn spec_window_base_of(rm: RecordM) -> WindowBaseM {
    WindowBaseM {
        name: m_text(rm, 0),
        dx: m_i32(rm, 1),
        dy: m_i32(rm, 2),
        render_dx: m_i32(rm, 3),
        render_dy: m_i32(rm, 4),
        reload_on_mode_switch: m_bool(rm, 5),
        user_ivars: Seq::new(m_recs(rm, 6).len(), |i: int| spec_user_ivar_of(m_recs(rm, 6)[i])),
        user_ivars_modify: Seq::new(
            m_recs(rm, 7).len(),
            |i: int| spec_user_ivar_of(m_recs(rm, 7)[i]),
        ),
        button_advices: Seq::new(
            m_recs(rm, 8).len(),
            |i: int| spec_button_advice_of(m_recs(rm, 8)[i]),
        ),
        geometry: Seq::new(m_recs(rm, 9).len(), |i: int| spec_geometry_of(m_recs(rm, 9)[i])),
        geometry_tiled: Seq::new(
            m_recs(rm, 10).len(),
            |i: int| spec_geometry_tiled_of(m_recs(rm, 10)[i]),
        ),
    }
}

pub open spec fn spec_window_bases_of(rm: RecordM) -> WindowBasesM {
    WindowBasesM {
        window_bases: Seq::new(m_recs(rm, 0).len(), |i: int| spec_window_base_of(m_recs(rm, 0)[i])),
    }
}

fn user_ivar_from_record(rec: &Record) -> (r: UserIVar)
    ensures
        r.deep_view() == spec_user_ivar_of(record_view(*rec)),
{
    UserIVar { name: rec_text(rec, 0), value: rec_i32(rec, 1) }
}

fn button_advice_from_record(rec: &Record) -> (r: ButtonAdvice)
    ensures
        r.deep_view() == spec_button_advice_of(record_view(*rec)),
{
    ButtonAdvice {
        name: rec_text(rec, 0),
        x: rec_i32(rec, 1),
        y: rec_i32(rec, 2),
        dx: rec_i32(rec, 3),
        dy: rec_i32(rec, 4),
    }
}

fn vertex_from_record(rec: &Record) -> (r: Vertex)
    ensures
        r.deep_view() == spec_vertex_of(record_view(*rec)),
{
    Vertex {
        x_pos: rec_text(rec, 0),
        y_pos: rec_text(rec, 1),
        r: rec_text(rec, 2),
        g: rec_text(rec, 3),
        b: rec_text(rec, 4),
        a: rec_text(rec, 5),
        tu: rec_text(rec, 6),
        tv: rec_text(rec, 7),
    }
}

fn polygon_from_record(rec: &Record) -> (r: Polygon)
    ensures
        r.deep_view() == spec_polygon_of(record_view(*rec)),
{
    Polygon { i0: rec_i32(rec, 0), i1: rec_i32(rec, 1), i2: rec_i32(rec, 2) }
}

fn vertices_from_record(rec: &Record) -> (r: Vertices)
    ensures
        r.deep_view() == spec_vertices_of(record_view(*rec)),
{
    let ghost rms = m_recs(record_view(*rec), 1);
    let mut out: Vec<Vertex> = Vec::new();
    match rec_children(rec, 1) {
        None => {
            assert(out.deep_view() =~= Seq::new(rms.len(), |i: int| spec_vertex_of(rms[i])));
        },
        Some(rs) => {
            proof {
                lemma_rec_seq_view(rs@);
            }
            let n = rs.len();
            let mut i: usize = 0;
            while i < n
                invariant
                    i <= n == rs@.len(),
                    rms == crate::schema::rec_seq_view(rs@),
                    rms.len() == n,
                    forall|k: int| 0 <= k < n ==> rms[k] == record_view(rs@[k]),
                    out.deep_view() == Seq::new(i as nat, |k: int| spec_vertex_of(rms[k])),
                decreases n - i,
            {
                let ghost pre = out.deep_view();
                out.push(vertex_from_record(&rs[i]));
                assert(out.deep_view() =~= pre.push(spec_vertex_of(rms[i as int])));
                assert(pre.push(spec_vertex_of(rms[i as int])) =~= Seq::new(
                    (i + 1) as nat,
                    |k: int| spec_vertex_of(rms[k]),
                ));
                i += 1;
            }
            assert(Seq::new(n as nat, |k: int| spec_vertex_of(rms[k])) =~= Seq::new(
                rms.len(),
                |k: int| spec_vertex_of(rms[k]),
            ));
        },
    }
    Vertices { count: rec_i32(rec, 0), vertices: out }
}

fn polygons_from_record(rec: &Record) -> (r: Polygons)
    ensures
        r.deep_view() == spec_polygons_of(record_view(*rec)),
{
    let ghost rms = m_recs(record_view(*rec), 1);
    let mut out: Vec<Polygon> = Vec::new();
    match rec_children(rec, 1) {
        None => {
            assert(out.deep_view() =~= Seq::new(rms.len(), |i: int| spec_polygon_of(rms[i])));
        },
        Some(rs) => {
            proof {
                lemma_rec_seq_view(rs@);
            }
            let n = rs.len();
            let mut i: usize = 0;
            while i < n
                invariant
                    i <= n == rs@.len(),
                    rms == crate::schema::rec_seq_view(rs@),
                    rms.len() == n,
                    forall|k: int| 0 <= k < n ==> rms[k] == record_view(rs@[k]),
                    out.deep_view() == Seq::new(i as nat, |k: int| spec_polygon_of(rms[k])),
                decreases n - i,
            {
                let ghost pre = out.deep_view();
                out.push(polygon_from_record(&rs[i]));
                assert(out.deep_view() =~= pre.push(spec_polygon_of(rms[i as int])));
                assert(pre.push(spec_polygon_of(rms[i as int])) =~= Seq::new(
                    (i + 1) as nat,
                    |k: int| spec_polygon_of(rms[k]),
                ));
                i += 1;
            }
            assert(Seq::new(n as nat, |k: int| spec_polygon_of(rms[k])) =~= Seq::new(
                rms.len(),
                |k: int| spec_polygon_of(rms[k]),
            ));
        },
    }
    Polygons { count: rec_i32(rec, 0), polygons: out }
}

fn geometry_from_record(rec: &Record) -> (r: Geometry)
    ensures
        r.deep_view() == spec_geometry_of(record_view(*rec)),
{
    let vertices = match rec_child(rec, 5) {
        Some(c) => vertices_from_record(c),
        None => {
            let e = empty_record();
            vertices_from_record(&e)
        },
    };
    let polygons = match rec_child(rec, 6) {
        Some(c) => polygons_from_record(c),
        None => {
            let e = empty_record();
            polygons_from_record(&e)
        },
    };
    Geometry {
        texture: rec_text(rec, 0),
        texture_pack_dx: rec_i32(rec, 1),
        texture_pack_dy: rec_i32(rec, 2),
        bilinear_filtering: rec_text(rec, 3),
        geometry_blend_mode: rec_text(rec, 4),
        vertices,
        polygons,
    }
}

fn geometry_tiled_from_record(rec: &Record) -> (r: GeometryTiled)
    ensures
        r.deep_view() == spec_geometry_tiled_of(record_view(*rec)),
{
    GeometryTiled {
        jpg_name: rec_text(rec, 0),
        jpg_dimensions: rec_i32_arr2(rec, 1),
        chunk_dimensions: rec_i32_arr2(rec, 2),
    }
}

fn window_base_from_record(rec: &Record) -> (r: WindowBase)
    ensures
        r.deep_view() == spec_window_base_of(record_view(*rec)),
{
    let ghost rv = record_view(*rec);
    let mut user_ivars: Vec<UserIVar> = Vec::new();
    let mut user_ivars_modify: Vec<UserIVar> = Vec::new();
    let mut button_advices: Vec<ButtonAdvice> = Vec::new();
    let mut geometry: Vec<Geometry> = Vec::new();
    let mut geometry_tiled: Vec<GeometryTiled> = Vec::new();
    match rec_children(rec, 6) {
        None => {
            assert(user_ivars.deep_view() =~= Seq::new(
                m_recs(rv, 6).len(),
                |i: int| spec_user_ivar_of(m_recs(rv, 6)[i]),
            ));
        },
        Some(rs) => {
            proof {
                lemma_rec_seq_view(rs@);
            }
            let ghost rms = m_recs(rv, 6);
            let n = rs.len();
            let mut i: usize = 0;
            while i < n
                invariant
                    i <= n == rs@.len(),
                    rms == crate::schema::rec_seq_view(rs@),
                    rms.len() == n,
                    forall|k: int| 0 <= k < n ==> rms[k] == record_view(rs@[k]),
                    user_ivars.deep_view() == Seq::new(
                        i as nat,
                        |k: int| spec_user_ivar_of(rms[k]),
                    ),
                decreases n - i,
            {
                let ghost pre = user_ivars.deep_view();
                user_ivars.push(user_ivar_from_record(&rs[i]));
                assert(user_ivars.deep_view() =~= pre.push(spec_user_ivar_of(rms[i as int])));
                assert(pre.push(spec_user_ivar_of(rms[i as int])) =~= Seq::new(
                    (i + 1) as nat,
                    |k: int| spec_user_ivar_of(rms[k]),
                ));
                i += 1;
            }
            assert(Seq::new(n as nat, |k: int| spec_user_ivar_of(rms[k])) =~= Seq::new(
                rms.len(),
                |k: int| spec_user_ivar_of(rms[k]),
            ));
        },
    }
    match rec_children(rec, 7) {
        None => {
            assert(user_ivars_modify.deep_view() =~= Seq::new(
                m_recs(rv, 7).len(),
                |i: int| spec_user_ivar_of(m_recs(rv, 7)[i]),
            ));
        },
        Some(rs) => {
            proof {
                lemma_rec_seq_view(rs@);
            }
            let ghost rms = m_recs(rv, 7);
            let n = rs.len();
            let mut i: usize = 0;
            while i < n
                invariant
                    i <= n == rs@.len(),
                    rms == crate::schema::rec_seq_view(rs@),
                    rms.len() == n,
                    forall|k: int| 0 <= k < n ==> rms[k] == record_view(rs@[k]),
                    user_ivars_modify.deep_view() == Seq::new(
                        i as nat,
                        |k: int| spec_user_ivar_of(rms[k]),
                    ),
                decreases n - i,
            {
                let ghost pre = user_ivars_modify.deep_view();
                user_ivars_modify.push(user_ivar_from_record(&rs[i]));
                assert(user_ivars_modify.deep_view() =~= pre.push(
                    spec_user_ivar_of(rms[i as int]),
                ));
                assert(pre.push(spec_user_ivar_of(rms[i as int])) =~= Seq::new(
                    (i + 1) as nat,
                    |k: int| spec_user_ivar_of(rms[k]),
                ));
                i += 1;
            }
            assert(Seq::new(n as nat, |k: int| spec_user_ivar_of(rms[k])) =~= Seq::new(
                rms.len(),
                |k: int| spec_user_ivar_of(rms[k]),
            ));
        },
    }
    match rec_children(rec, 8) {
        None => {
            assert(button_advices.deep_view() =~= Seq::new(
                m_recs(rv, 8).len(),
                |i: int| spec_button_advice_of(m_recs(rv, 8)[i]),
            ));
        },
        Some(rs) => {
            proof {
                lemma_rec_seq_view(rs@);
            }
            let ghost rms = m_recs(rv, 8);
            let n = rs.len();
            let mut i: usize = 0;
            while i < n
                invariant
                    i <= n == rs@.len(),
                    rms == crate::schema::rec_seq_view(rs@),
                    rms.len() == n,
                    forall|k: int| 0 <= k < n ==> rms[k] == record_view(rs@[k]),
                    button_advices.deep_view() == Seq::new(
                        i as nat,
                        |k: int| spec_button_advice_of(rms[k]),
                    ),
                decreases n - i,
            {
                let ghost pre = button_advices.deep_view();
                button_advices.push(button_advice_from_record(&rs[i]));
                assert(button_advices.deep_view() =~= pre.push(
                    spec_button_advice_of(rms[i as int]),
                ));
                assert(pre.push(spec_button_advice_of(rms[i as int])) =~= Seq::new(
                    (i + 1) as nat,
                    |k: int| spec_button_advice_of(rms[k]),
                ));
                i += 1;
            }
            assert(Seq::new(n as nat, |k: int| spec_button_advice_of(rms[k])) =~= Seq::new(
                rms.len(),
                |k: int| spec_button_advice_of(rms[k]),
            ));
        },
    }
    match rec_children(rec, 9) {
        None => {
            assert(geometry.deep_view() =~= Seq::new(
                m_recs(rv, 9).len(),
                |i: int| spec_geometry_of(m_recs(rv, 9)[i]),
            ));
        },
        Some(rs) => {
            proof {
                lemma_rec_seq_view(rs@);
            }
            let ghost rms = m_recs(rv, 9);
            let n = rs.len();
            let mut i: usize = 0;
            while i < n
                invariant
                    i <= n == rs@.len(),
                    rms == crate::schema::rec_seq_view(rs@),
                    rms.len() == n,
                    forall|k: int| 0 <= k < n ==> rms[k] == record_view(rs@[k]),
                    geometry.deep_view() == Seq::new(i as nat, |k: int| spec_geometry_of(rms[k])),
                decreases n - i,
            {
                let ghost pre = geometry.deep_view();
                geometry.push(geometry_from_record(&rs[i]));
                assert(geometry.deep_view() =~= pre.push(spec_geometry_of(rms[i as int])));
                assert(pre.push(spec_geometry_of(rms[i as int])) =~= Seq::new(
                    (i + 1) as nat,
                    |k: int| spec_geometry_of(rms[k]),
                ));
                i += 1;
            }
            assert(Seq::new(n as nat, |k: int| spec_geometry_of(rms[k])) =~= Seq::new(
                rms.len(),
                |k: int| spec_geometry_of(rms[k]),
            ));
        },
    }
    match rec_children(rec, 10) {
        None => {
            assert(geometry_tiled.deep_view() =~= Seq::new(
                m_recs(rv, 10).len(),
                |i: int| spec_geometry_tiled_of(m_recs(rv, 10)[i]),
            ));
        },
        Some(rs) => {
            proof {
                lemma_rec_seq_view(rs@);
            }
            let ghost rms = m_recs(rv, 10);
            let n = rs.len();
            let mut i: usize = 0;
            while i < n
                invariant
                    i <= n == rs@.len(),
                    rms == crate::schema::rec_seq_view(rs@),
                    rms.len() == n,
                    forall|k: int| 0 <= k < n ==> rms[k] == record_view(rs@[k]),
                    geometry_tiled.deep_view() == Seq::new(
                        i as nat,
                        |k: int| spec_geometry_tiled_of(rms[k]),
                    ),
                decreases n - i,
            {
                let ghost pre = geometry_tiled.deep_view();
                geometry_tiled.push(geometry_tiled_from_record(&rs[i]));
                assert(geometry_tiled.deep_view() =~= pre.push(
                    spec_geometry_tiled_of(rms[i as int]),
                ));
                assert(pre.push(spec_geometry_tiled_of(rms[i as int])) =~= Seq::new(
                    (i + 1) as nat,
                    |k: int| spec_geometry_tiled_of(rms[k]),
                ));
                i += 1;
            }
            assert(Seq::new(n as nat, |k: int| spec_geometry_tiled_of(rms[k])) =~= Seq::new(
                rms.len(),
                |k: int| spec_geometry_tiled_of(rms[k]),
            ));
        },
    }
    WindowBase {
        name: rec_text(rec, 0),
        dx: rec_i32(rec, 1),
        dy: rec_i32(rec, 2),
        render_dx: rec_i32(rec, 3),
        render_dy: rec_i32(rec, 4),
        reload_on_mode_switch: rec_bool(rec, 5),
        user_ivars,
        user_ivars_modify,
        button_advices,
        geometry,
        geometry_tiled,
    }
}

fn window_bases_from_record(rec: &Record) -> (r: WindowBases)
    ensures
        r.deep_view() == spec_window_bases_of(record_view(*rec)),
{
    let ghost rms = m_recs(record_view(*rec), 0);
    let mut out: Vec<WindowBase> = Vec::new();
    match rec_children(rec, 0) {
        None => {
            assert(out.deep_view() =~= Seq::new(rms.len(), |i: int| spec_window_base_of(rms[i])));
        },
        Some(rs) => {
            proof {
                lemma_rec_seq_view(rs@);
            }
            let n = rs.len();
            let mut i: usize = 0;
            while i < n
                invariant
                    i <= n == rs@.len(),
                    rms == crate::schema::rec_seq_view(rs@),
                    rms.len() == n,
                    forall|k: int| 0 <= k < n ==> rms[k] == record_view(rs@[k]),
                    out.deep_view() == Seq::new(i as nat, |k: int| spec_window_base_of(rms[k])),
                decreases n - i,
            {
                let ghost pre = out.deep_view();
                out.push(window_base_from_record(&rs[i]));
                assert(out.deep_view() =~= pre.push(spec_window_base_of(rms[i as int])));
                assert(pre.push(spec_window_base_of(rms[i as int])) =~= Seq::new(
                    (i + 1) as nat,
                    |k: int| spec_window_base_of(rms[k]),
                ));
                i += 1;
            }
            assert(Seq::new(n as nat, |k: int| spec_window_base_of(rms[k])) =~= Seq::new(
                rms.len(),
                |k: int| spec_window_base_of(rms[k]),
            ));
        },
    }
    WindowBases { window_bases: out }
}

/// What parsing a window layout document yields: the typed tree, or the
/// error that aborted the parse.
pub open spec fn spec_window_bases_result(lines: Seq<LineM>) -> Result<WindowBasesM, ParseErrM> {
    match spec_from_config(spec_window_schemas(), WINDOW_BASES_ID, lines) {
        Ok(rm) => Ok(spec_window_bases_of(rm)),
        Err(e) => Err(e),
    }
}

impl WindowBases {
    /// Parse a whole window layout document from the reader's lines.
    pub fn from_config(reader: &mut ConfigReader) -> (r: Result<WindowBases, ParseConfigError>)
        requires
            old(reader).wf(),
        ensures
            final(reader).wf(),
            (match spec_window_bases_result(old(reader)@) {
                Ok(m) => (r matches Ok(v) && v.deep_view() == m),
                Err(e) => (r matches Err(err) && err@ == e),
            }),
    {
        let schemas = window_schemas();
        proof {
            lemma_window_schemas_wf();
        }
        match from_config_record(&schemas, WINDOW_BASES_ID, reader) {
            Ok(rec) => Ok(window_bases_from_record(&rec)),
            Err(e) => Err(e),
        }
    }
}

/// Parsing is deterministic at the window level: two trees parsed from one
/// and the same line stream are structurally equal.
pub proof fn lemma_window_bases_deterministic(lines: Seq<LineM>, a: WindowBases, b: WindowBases)
    requires
        spec_window_bases_result(lines) == Ok::<WindowBasesM, ParseErrM>(a.deep_view()),
        spec_window_bases_result(lines) == Ok::<WindowBasesM, ParseErrM>(b.deep_view()),
    ensures
        a.deep_view() == b.deep_view(),
{
}

} // verus!
