//! Image and animation catalogs: flat `IMAGE` entries, and sprite sections
//! that are explicitly delimited by an `ENDDEF` sentinel line.

use vstd::prelude::*;
use crate::config::{ConfigReader, EndM, EndType, ParseConfigError, ParseErrM};
use crate::fields::{
    empty_record, m_i32, m_i32_list, m_rec, m_recs, m_text, rec_child, rec_children, rec_i32,
    rec_i32_list, rec_text,
};
use crate::parser::{from_config_record, spec_from_config};
use crate::schema::{
    Binding, BindingM, Coerce, KeyBinding, KeyBindingM, PosBinding, Record, RecordM, Schema,
    SchemaM, SlotKind, lemma_rec_seq_view, record_view, schema_wf, schemas_wf,
};
use crate::tokenize::LineM;

verus! {

broadcast use vstd::std_specs::vec::group_vec_axioms, vstd::seq::group_seq_axioms,
    vstd::seq_lib::group_seq_lib_default;

/// One sprite frame rectangle: `SPRITEFRAME <x1> <y1> <x2> <y2>`.
#[derive(Debug, PartialEq)]
pub struct SpriteFrame {
    pub x1: i32,
    pub y1: i32,
    pub x2: i32,
    pub y2: i32,
}

/// The model of a [`SpriteFrame`].
pub struct SpriteFrameM {
    pub x1: i32,
    pub y1: i32,
    pub x2: i32,
    pub y2: i32,
}

impl DeepView for SpriteFrame {
    type V = SpriteFrameM;

    open spec fn deep_view(&self) -> SpriteFrameM {
        SpriteFrameM { x1: self.x1, y1: self.y1, x2: self.x2, y2: self.y2 }
    }
}

/// A horizontal run of frames: `SPRITEFRAME_XRUN <x1> <y1> <dx> <dy> <n>`.
#[derive(Debug, PartialEq)]
pub struct SpriteFrameXRun {
    pub x1: i32,
    pub y1: i32,
    pub x2: i32,
    pub y2: i32,
    pub num_frames: i32,
}

/// The model of a [`SpriteFrameXRun`].
pub struct SpriteFrameXRunM {
    pub x1: i32,
    pub y1: i32,
    pub x2: i32,
    pub y2: i32,
    pub num_frames: i32,
}

impl DeepView for SpriteFrameXRun {
    type V = SpriteFrameXRunM;

    open spec fn deep_view(&self) -> SpriteFrameXRunM {
        SpriteFrameXRunM {
            x1: self.x1,
            y1: self.y1,
            x2: self.x2,
            y2: self.y2,
            num_frames: self.num_frames,
        }
    }
}

/// A spaced run of frames: `SPRITEFRAME_DXRUN` with separation and width.
#[derive(Debug, PartialEq)]
pub struct SpriteFrameDxRun {
    pub x1: i32,
    pub y1: i32,
    pub sep_dx: i32,
    pub dy: i32,
    pub num_frame: i32,
    pub dx: i32,
}

/// The model of a [`SpriteFrameDxRun`].
pub struct SpriteFrameDxRunM {
    pub x1: i32,
    pub y1: i32,
    pub sep_dx: i32,
    pub dy: i32,
    pub num_frame: i32,
    pub dx: i32,
}

impl DeepView for SpriteFrameDxRun {
    type V = SpriteFrameDxRunM;

    open spec fn deep_view(&self) -> SpriteFrameDxRunM {
        SpriteFrameDxRunM {
            x1: self.x1,
            y1: self.y1,
            sep_dx: self.sep_dx,
            dy: self.dy,
            num_frame: self.num_frame,
            dx: self.dx,
        }
    }
}

/// One plain image entry: `IMAGE <name> <filename> <vid_mem>`.
#[derive(Debug, PartialEq)]
pub struct Image {
    pub name: String,
    pub filename: String,
    pub vid_mem: i32,
}

/// The model of an [`Image`].
pub struct ImageM {
    pub name: Seq<char>,
    pub filename: Seq<char>,
    pub vid_mem: i32,
}

impl DeepView for Image {
    type V = ImageM;

    open spec fn deep_view(&self) -> ImageM {
        ImageM { name: self.name@, filename: self.filename@, vid_mem: self.vid_mem }
    }
}

/// An animation's frame layout: `FRAMEDESCRIPTOR <images> <frames> <rate>`.
#[derive(Debug, PartialEq)]
pub struct FrameDescriptor {
    pub num_images: i32,
    pub num_frames: i32,
    pub frame_rate: i32,
}

/// The model of a [`FrameDescriptor`].
pub struct FrameDescriptorM {
    pub num_images: i32,
    pub num_frames: i32,
    pub frame_rate: i32,
}

impl DeepView for FrameDescriptor {
    type V = FrameDescriptorM;

    open spec fn deep_view(&self) -> FrameDescriptorM {
        FrameDescriptorM {
            num_images: self.num_images,
            num_frames: self.num_frames,
            frame_rate: self.frame_rate,
        }
    }
}

/// A playback order: `FRAMEORDER` followed by frame indices.
#[derive(Debug, PartialEq)]
pub struct FrameOrder {
    pub order: Vec<i32>,
}

/// The model of a [`FrameOrder`].
pub struct FrameOrderM {
    pub order: Seq<i32>,
}

impl DeepView for FrameOrder {
    type V = FrameOrderM;

    open spec fn deep_view(&self) -> FrameOrderM {
        FrameOrderM { order: self.order@ }
    }
}

/// A textured 3D sprite section, ended by an `ENDDEF` sentinel.
#[derive(Debug, PartialEq)]
pub struct Sprite3d {
    pub name: String,
    pub texture_name: String,
    pub texture_width: i32,
    pub texture_height: i32,
    pub alpha: i32,
    pub sprite_frames: Vec<SpriteFrame>,
}

/// The model of a [`Sprite3d`].
pub struct Sprite3dM {
    pub name: Seq<char>,
    pub texture_name: Seq<char>,
    pub texture_width: i32,
    pub texture_height: i32,
    pub alpha: i32,
    pub sprite_frames: Seq<SpriteFrameM>,
}

impl DeepView for Sprite3d {
    type V = Sprite3dM;

    open spec fn deep_view(&self) -> Sprite3dM {
        Sprite3dM {
            name: self.name@,
            texture_name: self.texture_name@,
            texture_width: self.texture_width,
            texture_height: self.texture_height,
            alpha: self.alpha,
            sprite_frames: self.sprite_frames.deep_view(),
        }
    }
}

/// An animated sprite section, ended by an `ENDDEF` sentinel.
#[derive(Debug, PartialEq)]
pub struct AnimSprite {
    pub name: String,
    pub texture_name: String,
    pub width: i32,
    pub height: i32,
    pub frame_descriptor: FrameDescriptor,
    pub frame_orders: Vec<FrameOrder>,
    pub sprite_frames: Vec<SpriteFrame>,
    pub sprite_frame_xruns: Vec<SpriteFrameXRun>,
    pub sprite_frame_dxruns: Vec<SpriteFrameDxRun>,
}

/// The model of an [`AnimSprite`].
pub struct AnimSpriteM {
    pub name: Seq<char>,
    pub texture_name: Seq<char>,
    pub width: i32,
    pub height: i32,
    pub frame_descriptor: FrameDescriptorM,
    pub frame_orders: Seq<FrameOrderM>,
    pub sprite_frames: Seq<SpriteFrameM>,
    pub sprite_frame_xruns: Seq<SpriteFrameXRunM>,
    pub sprite_frame_dxruns: Seq<SpriteFrameDxRunM>,
}

impl DeepView for AnimSprite {
    type V = AnimSpriteM;

    open spec fn deep_view(&self) -> AnimSpriteM {
        AnimSpriteM {
            name: self.name@,
            texture_name: self.texture_name@,
            width: self.width,
            height: self.height,
            frame_descriptor: self.frame_descriptor.deep_view(),
            frame_orders: self.frame_orders.deep_view(),
            sprite_frames: self.sprite_frames.deep_view(),
            sprite_frame_xruns: self.sprite_frame_xruns.deep_view(),
            sprite_frame_dxruns: self.sprite_frame_dxruns.deep_view(),
        }
    }
}

/// A whole image catalog document.
#[derive(Debug, PartialEq)]
pub struct ImageDefs {
    pub images: Vec<Image>,
    pub sprite_3ds: Vec<Sprite3d>,
    pub anim_sprite_3ds: Vec<AnimSprite>,
    pub anim_sprites: Vec<AnimSprite>,
}

/// The model of an [`ImageDefs`].
pub struct ImageDefsM {
    pub images: Seq<ImageM>,
    pub sprite_3ds: Seq<Sprite3dM>,
    pub anim_sprite_3ds: Seq<AnimSpriteM>,
    pub anim_sprites: Seq<AnimSpriteM>,
}

impl DeepView for ImageDefs {
    type V = ImageDefsM;

    open spec fn deep_view(&self) -> ImageDefsM {
        ImageDefsM {
            images: self.images.deep_view(),
            sprite_3ds: self.sprite_3ds.deep_view(),
            anim_sprite_3ds: self.anim_sprite_3ds.deep_view(),
            anim_sprites: self.anim_sprites.deep_view(),
        }
    }
}

/// The schema index of each record type of this file format.
pub const SPRITE_FRAME_ID: usize = 0;

pub const SPRITE_FRAME_XRUN_ID: usize = 1;

pub const SPRITE_FRAME_DXRUN_ID: usize = 2;

pub const IMAGE_ID: usize = 3;

pub const FRAME_DESCRIPTOR_ID: usize = 4;

pub const FRAME_ORDER_ID: usize = 5;

pub const SPRITE_3D_ID: usize = 6;

pub const ANIM_SPRITE_ID: usize = 7;

pub const IMAGE_DEFS_ID: usize = 8;

pub open spec fn spec_int_positional(n: int) -> Seq<PosBinding> {
    Seq::new(
        n as nat,
        |i: int|
            PosBinding { slot: i as usize, index: i as usize, coerce: Coerce::Int, rest: false },
    )
}

pub open spec fn spec_sprite_frame_schema() -> SchemaM {
    SchemaM {
        name: "SpriteFrame"@,
        slots: seq![SlotKind::Int, SlotKind::Int, SlotKind::Int, SlotKind::Int],
        positional: spec_int_positional(4),
        keyed: Seq::empty(),
    }
}

pub open spec fn spec_sprite_frame_xrun_schema() -> SchemaM {
    SchemaM {
        name: "SpriteFrameXRun"@,
        slots: seq![SlotKind::Int, SlotKind::Int, SlotKind::Int, SlotKind::Int, SlotKind::Int],
        positional: spec_int_positional(5),
        keyed: Seq::empty(),
    }
}

pub open spec fn spec_sprite_frame_dxrun_schema() -> SchemaM {
    SchemaM {
        name: "SpriteFrameDxRun"@,
        slots: seq![
            SlotKind::Int,
            SlotKind::Int,
            SlotKind::Int,
            SlotKind::Int,
            SlotKind::Int,
            SlotKind::Int,
        ],
        positional: spec_int_positional(6),
        keyed: Seq::empty(),
    }
}

pub open spec fn spec_image_schema() -> SchemaM {
    SchemaM {
        name: "Image"@,
        slots: seq![SlotKind::Text, SlotKind::Text, SlotKind::Int],
        positional: seq![
            PosBinding { slot: 0, index: 0, coerce: Coerce::Text, rest: false },
            PosBinding { slot: 1, index: 1, coerce: Coerce::Text, rest: false },
            PosBinding { slot: 2, index: 2, coerce: Coerce::Int, rest: false },
        ],
        keyed: Seq::empty(),
    }
}

pub open spec fn spec_frame_descriptor_schema() -> SchemaM {
    SchemaM {
        name: "FrameDescriptor"@,
        slots: seq![SlotKind::Int, SlotKind::Int, SlotKind::Int],
        positional: spec_int_positional(3),
        keyed: Seq::empty(),
    }
}

pub open spec fn spec_frame_order_schema() -> SchemaM {
    SchemaM {
        name: "FrameOrder"@,
        slots: seq![SlotKind::Arr(Coerce::Int, 0)],
        positional: seq![PosBinding { slot: 0, index: 0, coerce: Coerce::Int, rest: true }],
        keyed: Seq::empty(),
    }
}

pub open spec fn spec_sprite_3d_schema() -> SchemaM {
    SchemaM {
        name: "Sprite3d"@,
        slots: seq![
            SlotKind::Text,
            SlotKind::Text,
            SlotKind::Int,
            SlotKind::Int,
            SlotKind::Int,
            SlotKind::RecList,
        ],
        positional: seq![
            PosBinding { slot: 0, index: 0, coerce: Coerce::Text, rest: false },
            PosBinding { slot: 1, index: 1, coerce: Coerce::Text, rest: false },
            PosBinding { slot: 2, index: 2, coerce: Coerce::Int, rest: false },
            PosBinding { slot: 3, index: 3, coerce: Coerce::Int, rest: false },
            PosBinding { slot: 4, index: 4, coerce: Coerce::Int, rest: false },
        ],
        keyed: seq![
            KeyBindingM {
                key: "SPRITEFRAME"@,
                slot: 5,
                binding: BindingM::Repeated(SPRITE_FRAME_ID, EndM::NoEnd),
            },
        ],
    }
}

pub open spec fn spec_anim_sprite_schema() -> SchemaM {
    SchemaM {
        name: "AnimSprite"@,
        slots: seq![
            SlotKind::Text,
            SlotKind::Text,
            SlotKind::Int,
            SlotKind::Int,
            SlotKind::Rec(FRAME_DESCRIPTOR_ID),
            SlotKind::RecList,
            SlotKind::RecList,
            SlotKind::RecList,
            SlotKind::RecList,
        ],
        positional: seq![
            PosBinding { slot: 0, index: 0, coerce: Coerce::Text, rest: false },
            PosBinding { slot: 1, index: 1, coerce: Coerce::Text, rest: false },
            PosBinding { slot: 2, index: 2, coerce: Coerce::Int, rest: false },
            PosBinding { slot: 3, index: 3, coerce: Coerce::Int, rest: false },
        ],
        keyed: seq![
            KeyBindingM {
                key: "FRAMEDESCRIPTOR"@,
                slot: 4,
                binding: BindingM::Nested(FRAME_DESCRIPTOR_ID, EndM::NoEnd),
            },
            KeyBindingM {
                key: "FRAMEORDER"@,
                slot: 5,
                binding: BindingM::Repeated(FRAME_ORDER_ID, EndM::NoEnd),
            },
            KeyBindingM {
                key: "SPRITEFRAME"@,
                slot: 6,
                binding: BindingM::Repeated(SPRITE_FRAME_ID, EndM::NoEnd),
            },
            KeyBindingM {
                key: "SPRITEFRAME_XRUN"@,
                slot: 7,
                binding: BindingM::Repeated(SPRITE_FRAME_XRUN_ID, EndM::NoEnd),
            },
            KeyBindingM {
                key: "SPRITEFRAME_DXRUN"@,
                slot: 8,
                binding: BindingM::Repeated(SPRITE_FRAME_DXRUN_ID, EndM::NoEnd),
            },
        ],
    }
}

pub open spec fn spec_image_defs_schema() -> SchemaM {
    SchemaM {
        name: "ImageDefs"@,
        slots: seq![SlotKind::RecList, SlotKind::RecList, SlotKind::RecList, SlotKind::RecList],
        positional: Seq::empty(),
        keyed: seq![
            KeyBindingM {
                key: "IMAGE"@,
                slot: 0,
                binding: BindingM::Repeated(IMAGE_ID, EndM::NoEnd),
            },
            KeyBindingM {
                key: "SPRITE3D"@,
                slot: 1,
                binding: BindingM::Repeated(SPRITE_3D_ID, EndM::EndKey("ENDDEF"@)),
            },
            KeyBindingM {
                key: "ANIMSPRITE3D"@,
                slot: 2,
                binding: BindingM::Repeated(ANIM_SPRITE_ID, EndM::EndKey("ENDDEF"@)),
            },
            KeyBindingM {
                key: "ANIMSPRITE"@,
                slot: 3,
                binding: BindingM::Repeated(ANIM_SPRITE_ID, EndM::EndKey("ENDDEF"@)),
            },
        ],
    }
}

/// The whole schema set of the image catalog grammar.
pub open spec fn spec_image_schemas() -> Seq<SchemaM> {
    seq![
        spec_sprite_frame_schema(),
        spec_sprite_frame_xrun_schema(),
        spec_sprite_frame_dxrun_schema(),
        spec_image_schema(),
        spec_frame_descriptor_schema(),
        spec_frame_order_schema(),
        spec_sprite_3d_schema(),
        spec_anim_sprite_schema(),
        spec_image_defs_schema(),
    ]
}

pub proof fn lemma_image_schemas_wf()
    ensures
        schemas_wf(spec_image_schemas()),
{
    let s = spec_image_schemas();
    assert forall|i: int| 0 <= i < s.len() implies schema_wf(
        #[trigger] s[i],
        i as usize,
        s.len() as int,
    ) by {
        if i == 0 {
            assert(schema_wf(s[0], 0usize, 9));
        } else if i == 1 {
            assert(schema_wf(s[1], 1usize, 9));
        } else if i == 2 {
            assert(schema_wf(s[2], 2usize, 9));
        } else if i == 3 {
            assert(schema_wf(s[3], 3usize, 9));
        } else if i == 4 {
            assert(schema_wf(s[4], 4usize, 9));
        } else if i == 5 {
            assert(schema_wf(s[5], 5usize, 9));
        } else if i == 6 {
            assert(schema_wf(s[6], 6usize, 9));
        } else if i == 7 {
            assert(schema_wf(s[7], 7usize, 9));
        } else {
            assert(schema_wf(s[8], 8usize, 9));
        }
    }
}

fn int_slots(n: usize) -> (r: Vec<SlotKind>)
    ensures
        r@ == Seq::new(n as nat, |_i: int| SlotKind::Int),
{
    let mut slots: Vec<SlotKind> = Vec::new();
    let mut k: usize = 0;
    while k < n
        invariant
            k <= n,
            slots@ =~= Seq::new(k as nat, |_i: int| SlotKind::Int),
        decreases n - k,
    {
        slots.push(SlotKind::Int);
        assert(slots@ =~= Seq::new((k + 1) as nat, |_i: int| SlotKind::Int));
        k += 1;
    }
    slots
}

fn int_positional(n: usize) -> (r: Vec<PosBinding>)
    ensures
        r@ == spec_int_positional(n as int),
{
    let mut positional: Vec<PosBinding> = Vec::new();
    let mut k: usize = 0;
    while k < n
        invariant
            k <= n,
            positional@ =~= spec_int_positional(k as int),
        decreases n - k,
    {
        positional.push(PosBinding { slot: k, index: k, coerce: Coerce::Int, rest: false });
        assert(positional@ =~= spec_int_positional(k + 1int));
        k += 1;
    }
    positional
}

fn sprite_frame_schema() -> (s: Schema)
    ensures
        s@ == spec_sprite_frame_schema(),
{
    let s = Schema {
        name: "SpriteFrame".to_owned(),
        slots: int_slots(4),
        positional: int_positional(4),
        keyed: Vec::new(),
    };
    assert(s@.slots =~= spec_sprite_frame_schema().slots);
    assert(s@.keyed =~= spec_sprite_frame_schema().keyed);
    s
}

fn sprite_frame_xrun_schema() -> (s: Schema)
    ensures
        s@ == spec_sprite_frame_xrun_schema(),
{
    let s = Schema {
        name: "SpriteFrameXRun".to_owned(),
        slots: int_slots(5),
        positional: int_positional(5),
        keyed: Vec::new(),
    };
    assert(s@.slots =~= spec_sprite_frame_xrun_schema().slots);
    assert(s@.keyed =~= spec_sprite_frame_xrun_schema().keyed);
    s
}

fn sprite_frame_dxrun_schema() -> (s: Schema)
    ensures
        s@ == spec_sprite_frame_dxrun_schema(),
{
    let s = Schema {
        name: "SpriteFrameDxRun".to_owned(),
        slots: int_slots(6),
        positional: int_positional(6),
        keyed: Vec::new(),
    };
    assert(s@.slots =~= spec_sprite_frame_dxrun_schema().slots);
    assert(s@.keyed =~= spec_sprite_frame_dxrun_schema().keyed);
    s
}

fn image_schema() -> (s: Schema)
    ensures
        s@ == spec_image_schema(),
{
    let mut slots: Vec<SlotKind> = Vec::new();
    slots.push(SlotKind::Text);
    slots.push(SlotKind::Text);
    slots.push(SlotKind::Int);
    let mut positional: Vec<PosBinding> = Vec::new();
    positional.push(PosBinding { slot: 0, index: 0, coerce: Coerce::Text, rest: false });
    positional.push(PosBinding { slot: 1, index: 1, coerce: Coerce::Text, rest: false });
    positional.push(PosBinding { slot: 2, index: 2, coerce: Coerce::Int, rest: false });
    let s = Schema { name: "Image".to_owned(), slots, positional, keyed: Vec::new() };
    assert(s@.slots =~= spec_image_schema().slots);
    assert(s@.positional =~= spec_image_schema().positional);
    assert(s@.keyed =~= spec_image_schema().keyed);
    s
}

fn frame_descriptor_schema() -> (s: Schema)
    ensures
        s@ == spec_frame_descriptor_schema(),
{
    let s = Schema {
        name: "FrameDescriptor".to_owned(),
        slots: int_slots(3),
        positional: int_positional(3),
        keyed: Vec::new(),
    };
    assert(s@.slots =~= spec_frame_descriptor_schema().slots);
    assert(s@.keyed =~= spec_frame_descriptor_schema().keyed);
    s
}

fn frame_order_schema() -> (s: Schema)
    ensures
        s@ == spec_frame_order_schema(),
{
    let mut slots: Vec<SlotKind> = Vec::new();
    slots.push(SlotKind::Arr(Coerce::Int, 0));
    let mut positional: Vec<PosBinding> = Vec::new();
    positional.push(PosBinding { slot: 0, index: 0, coerce: Coerce::Int, rest: true });
    let s = Schema { name: "FrameOrder".to_owned(), slots, positional, keyed: Vec::new() };
    assert(s@.slots =~= spec_frame_order_schema().slots);
    assert(s@.positional =~= spec_frame_order_schema().positional);
    assert(s@.keyed =~= spec_frame_order_schema().keyed);
    s
}

fn sprite_3d_schema() -> (s: Schema)
    ensures
        s@ == spec_sprite_3d_schema(),
{
    let mut slots: Vec<SlotKind> = Vec::new();
    slots.push(SlotKind::Text);
    slots.push(SlotKind::Text);
    slots.push(SlotKind::Int);
    slots.push(SlotKind::Int);
    slots.push(SlotKind::Int);
    slots.push(SlotKind::RecList);
    let mut positional: Vec<PosBinding> = Vec::new();
    positional.push(PosBinding { slot: 0, index: 0, coerce: Coerce::Text, rest: false });
    positional.push(PosBinding { slot: 1, index: 1, coerce: Coerce::Text, rest: false });
    positional.push(PosBinding { slot: 2, index: 2, coerce: Coerce::Int, rest: false });
    positional.push(PosBinding { slot: 3, index: 3, coerce: Coerce::Int, rest: false });
    positional.push(PosBinding { slot: 4, index: 4, coerce: Coerce::Int, rest: false });
    let mut keyed: Vec<KeyBinding> = Vec::new();
    keyed.push(
        KeyBinding {
            key: "SPRITEFRAME".to_owned(),
            slot: 5,
            binding: Binding::Repeated(SPRITE_FRAME_ID, EndType::NoEnd),
        },
    );
    let s = Schema { name: "Sprite3d".to_owned(), slots, positional, keyed };
    assert(s@.slots =~= spec_sprite_3d_schema().slots);
    assert(s@.positional =~= spec_sprite_3d_schema().positional);
    assert(s@.keyed =~= spec_sprite_3d_schema().keyed);
    s
}

fn anim_sprite_schema() -> (s: Schema)
    ensures
        s@ == spec_anim_sprite_schema(),
{
    let mut slots: Vec<SlotKind> = Vec::new();
    slots.push(SlotKind::Text);
    slots.push(SlotKind::Text);
    slots.push(SlotKind::Int);
    slots.push(SlotKind::Int);
    slots.push(SlotKind::Rec(FRAME_DESCRIPTOR_ID));
    slots.push(SlotKind::RecList);
    slots.push(SlotKind::RecList);
    slots.push(SlotKind::RecList);
    slots.push(SlotKind::RecList);
    let mut positional: Vec<PosBinding> = Vec::new();
    positional.push(PosBinding { slot: 0, index: 0, coerce: Coerce::Text, rest: false });
    positional.push(PosBinding { slot: 1, index: 1, coerce: Coerce::Text, rest: false });
    positional.push(PosBinding { slot: 2, index: 2, coerce: Coerce::Int, rest: false });
    positional.push(PosBinding { slot: 3, index: 3, coerce: Coerce::Int, rest: false });
    let mut keyed: Vec<KeyBinding> = Vec::new();
    keyed.push(
        KeyBinding {
            key: "FRAMEDESCRIPTOR".to_owned(),
            slot: 4,
            binding: Binding::Nested(FRAME_DESCRIPTOR_ID, EndType::NoEnd),
        },
    );
    keyed.push(
        KeyBinding {
            key: "FRAMEORDER".to_owned(),
            slot: 5,
            binding: Binding::Repeated(FRAME_ORDER_ID, EndType::NoEnd),
        },
    );
    keyed.push(
        KeyBinding {
            key: "SPRITEFRAME".to_owned(),
            slot: 6,
            binding: Binding::Repeated(SPRITE_FRAME_ID, EndType::NoEnd),
        },
    );
    keyed.push(
        KeyBinding {
            key: "SPRITEFRAME_XRUN".to_owned(),
            slot: 7,
            binding: Binding::Repeated(SPRITE_FRAME_XRUN_ID, EndType::NoEnd),
        },
    );
    keyed.push(
        KeyBinding {
            key: "SPRITEFRAME_DXRUN".to_owned(),
            slot: 8,
            binding: Binding::Repeated(SPRITE_FRAME_DXRUN_ID, EndType::NoEnd),
        },
    );
    let s = Schema { name: "AnimSprite".to_owned(), slots, positional, keyed };
    assert(s@.slots =~= spec_anim_sprite_schema().slots);
    assert(s@.positional =~= spec_anim_sprite_schema().positional);
    assert(s@.keyed =~= spec_anim_sprite_schema().keyed);
    s
}

fn image_defs_schema() -> (s: Schema)
    ensures
        s@ == spec_image_defs_schema(),
{
    let mut slots: Vec<SlotKind> = Vec::new();
    slots.push(SlotKind::RecList);
    slots.push(SlotKind::RecList);
    slots.push(SlotKind::RecList);
    slots.push(SlotKind::RecList);
    let mut keyed: Vec<KeyBinding> = Vec::new();
    keyed.push(
        KeyBinding {
            key: "IMAGE".to_owned(),
            slot: 0,
            binding: Binding::Repeated(IMAGE_ID, EndType::NoEnd),
        },
    );
    keyed.push(
        KeyBinding {
            key: "SPRITE3D".to_owned(),
            slot: 1,
            binding: Binding::Repeated(SPRITE_3D_ID, EndType::EndKey("ENDDEF".to_owned())),
        },
    );
    keyed.push(
        KeyBinding {
            key: "ANIMSPRITE3D".to_owned(),
            slot: 2,
            binding: Binding::Repeated(ANIM_SPRITE_ID, EndType::EndKey("ENDDEF".to_owned())),
        },
    );
    keyed.push(
        KeyBinding {
            key: "ANIMSPRITE".to_owned(),
            slot: 3,
            binding: Binding::Repeated(ANIM_SPRITE_ID, EndType::EndKey("ENDDEF".to_owned())),
        },
    );
    let s = Schema { name: "ImageDefs".to_owned(), slots, positional: Vec::new(), keyed };
    assert(s@.slots =~= spec_image_defs_schema().slots);
    assert(s@.positional =~= spec_image_defs_schema().positional);
    assert(s@.keyed =~= spec_image_defs_schema().keyed);
    s
}

/// The image catalog grammar's schema set.
fn image_schemas() -> (r: Vec<Schema>)
    ensures
        r.deep_view() == spec_image_schemas(),
{
    let mut v: Vec<Schema> = Vec::new();
    v.push(sprite_frame_schema());
    v.push(sprite_frame_xrun_schema());
    v.push(sprite_frame_dxrun_schema());
    v.push(image_schema());
    v.push(frame_descriptor_schema());
    v.push(frame_order_schema());
    v.push(sprite_3d_schema());
    v.push(anim_sprite_schema());
    v.push(image_defs_schema());
    assert(v.deep_view() =~= spec_image_schemas());
    v
}

pub open spec fn spec_sprite_frame_of(rm: RecordM) -> SpriteFrameM {
    SpriteFrameM { x1: m_i32(rm, 0), y1: m_i32(rm, 1), x2: m_i32(rm, 2), y2: m_i32(rm, 3) }
}

pub open spec fn spec_sprite_frame_xrun_of(rm: RecordM) -> SpriteFrameXRunM {
    SpriteFrameXRunM {
        x1: m_i32(rm, 0),
        y1: m_i32(rm, 1),
        x2: m_i32(rm, 2),
        y2: m_i32(rm, 3),
        num_frames: m_i32(rm, 4),
    }
}

pub open spec fn spec_sprite_frame_dxrun_of(rm: RecordM) -> SpriteFrameDxRunM {
    SpriteFrameDxRunM {
        x1: m_i32(rm, 0),
        y1: m_i32(rm, 1),
        sep_dx: m_i32(rm, 2),
        dy: m_i32(rm, 3),
        num_frame: m_i32(rm, 4),
        dx: m_i32(rm, 5),
    }
}

pub open spec fn spec_image_of(rm: RecordM) -> ImageM {
    ImageM { name: m_text(rm, 0), filename: m_text(rm, 1), vid_mem: m_i32(rm, 2) }
}

pub open spec fn spec_frame_descriptor_of(rm: RecordM) -> FrameDescriptorM {
    FrameDescriptorM { num_images: m_i32(rm, 0), num_frames: m_i32(rm, 1), frame_rate: m_i32(rm, 2) }
}

pub open spec fn spec_frame_order_of(rm: RecordM) -> FrameOrderM {
    FrameOrderM { order: m_i32_list(rm, 0) }
}

pub open spec fn spec_sprite_3d_of(rm: RecordM) -> Sprite3dM {
    Sprite3dM {
        name: m_text(rm, 0),
        texture_name: m_text(rm, 1),
        texture_width: m_i32(rm, 2),
        texture_height: m_i32(rm, 3),
        alpha: m_i32(rm, 4),
        sprite_frames: Seq::new(
            m_recs(rm, 5).len(),
            |i: int| spec_sprite_frame_of(m_recs(rm, 5)[i]),
        ),
    }
}

pub open spec fn spec_anim_sprite_of(rm: RecordM) -> AnimSpriteM {
    AnimSpriteM {
        name: m_text(rm, 0),
        texture_name: m_text(rm, 1),
        width: m_i32(rm, 2),
        height: m_i32(rm, 3),
        frame_descriptor: spec_frame_descriptor_of(m_rec(rm, 4)),
        frame_orders: Seq::new(m_recs(rm, 5).len(), |i: int| spec_frame_order_of(m_recs(rm, 5)[i])),
        sprite_frames: Seq::new(
            m_recs(rm, 6).len(),
            |i: int| spec_sprite_frame_of(m_recs(rm, 6)[i]),
        ),
        sprite_frame_xruns: Seq::new(
            m_recs(rm, 7).len(),
            |i: int| spec_sprite_frame_xrun_of(m_recs(rm, 7)[i]),
        ),
        sprite_frame_dxruns: Seq::new(
            m_recs(rm, 8).len(),
            |i: int| spec_sprite_frame_dxrun_of(m_recs(rm, 8)[i]),
        ),
    }
}

pub open spec fn spec_image_defs_of(rm: RecordM) -> ImageDefsM {
    ImageDefsM {
        images: Seq::new(m_recs(rm, 0).len(), |i: int| spec_image_of(m_recs(rm, 0)[i])),
        sprite_3ds: Seq::new(m_recs(rm, 1).len(), |i: int| spec_sprite_3d_of(m_recs(rm, 1)[i])),
        anim_sprite_3ds: Seq::new(
            m_recs(rm, 2).len(),
            |i: int| spec_anim_sprite_of(m_recs(rm, 2)[i]),
        ),
        anim_sprites: Seq::new(m_recs(rm, 3).len(), |i: int| spec_anim_sprite_of(m_recs(rm, 3)[i])),
    }
}

fn sprite_frame_from_record(rec: &Record) -> (r: SpriteFrame)
    ensures
        r.deep_view() == spec_sprite_frame_of(record_view(*rec)),
{
    SpriteFrame { x1: rec_i32(rec, 0), y1: rec_i32(rec, 1), x2: rec_i32(rec, 2), y2: rec_i32(rec, 3) }
}

fn sprite_frame_xrun_from_record(rec: &Record) -> (r: SpriteFrameXRun)
    ensures
        r.deep_view() == spec_sprite_frame_xrun_of(record_view(*rec)),
{
    SpriteFrameXRun {
        x1: rec_i32(rec, 0),
        y1: rec_i32(rec, 1),
        x2: rec_i32(rec, 2),
        y2: rec_i32(rec, 3),
        num_frames: rec_i32(rec, 4),
    }
}

fn sprite_frame_dxrun_from_record(rec: &Record) -> (r: SpriteFrameDxRun)
    ensures
        r.deep_view() == spec_sprite_frame_dxrun_of(record_view(*rec)),
{
    SpriteFrameDxRun {
        x1: rec_i32(rec, 0),
        y1: rec_i32(rec, 1),
        sep_dx: rec_i32(rec, 2),
        dy: rec_i32(rec, 3),
        num_frame: rec_i32(rec, 4),
        dx: rec_i32(rec, 5),
    }
}

fn image_from_record(rec: &Record) -> (r: Image)
    ensures
        r.deep_view() == spec_image_of(record_view(*rec)),
{
    Image { name: rec_text(rec, 0), filename: rec_text(rec, 1), vid_mem: rec_i32(rec, 2) }
}

fn frame_descriptor_from_record(rec: &Record) -> (r: FrameDescriptor)
    ensures
        r.deep_view() == spec_frame_descriptor_of(record_view(*rec)),
{
    FrameDescriptor {
        num_images: rec_i32(rec, 0),
        num_frames: rec_i32(rec, 1),
        frame_rate: rec_i32(rec, 2),
    }
}

fn frame_order_from_record(rec: &Record) -> (r: FrameOrder)
    ensures
        r.deep_view() == spec_frame_order_of(record_view(*rec)),
{
    FrameOrder { order: rec_i32_list(rec, 0) }
}

fn sprite_frames_from(rec: &Record, slot: usize) -> (r: Vec<SpriteFrame>)
    ensures
        r.deep_view() == Seq::new(
            m_recs(record_view(*rec), slot as int).len(),
            |i: int| spec_sprite_frame_of(m_recs(record_view(*rec), slot as int)[i]),
        ),
{
    let ghost rms = m_recs(record_view(*rec), slot as int);
    let mut out: Vec<SpriteFrame> = Vec::new();
    match rec_children(rec, slot) {
        None => {
            assert(out.deep_view() =~= Seq::new(rms.len(), |i: int| spec_sprite_frame_of(rms[i])));
        },
        Some(rs) => {
            proof {
                lemma_rec_seq_view(rs@);
            }
            let n = rs.len();
            let mut i: usize = 0;
            while i < n
                invariant
                    i <= n == rs@.len(),
                    rms == crate::schema::rec_seq_view(rs@),
                    rms.len() == n,
                    forall|k: int| 0 <= k < n ==> rms[k] == record_view(rs@[k]),
                    out.deep_view() == Seq::new(i as nat, |k: int| spec_sprite_frame_of(rms[k])),
                decreases n - i,
            {
                let ghost pre = out.deep_view();
                out.push(sprite_frame_from_record(&rs[i]));
                assert(out.deep_view() =~= pre.push(spec_sprite_frame_of(rms[i as int])));
                assert(pre.push(spec_sprite_frame_of(rms[i as int])) =~= Seq::new(
                    (i + 1) as nat,
                    |k: int| spec_sprite_frame_of(rms[k]),
                ));
                i += 1;
            }
            assert(Seq::new(n as nat, |k: int| spec_sprite_frame_of(rms[k])) =~= Seq::new(
                rms.len(),
                |k: int| spec_sprite_frame_of(rms[k]),
            ));
        },
    }
    out
}

fn sprite_3d_from_record(rec: &Record) -> (r: Sprite3d)
    ensures
        r.deep_view() == spec_sprite_3d_of(record_view(*rec)),
{
    Sprite3d {
        name: rec_text(rec, 0),
        texture_name: rec_text(rec, 1),
        texture_width: rec_i32(rec, 2),
        texture_height: rec_i32(rec, 3),
        alpha: rec_i32(rec, 4),
        sprite_frames: sprite_frames_from(rec, 5),
    }
}

fn anim_sprite_from_record(rec: &Record) -> (r: AnimSprite)
    ensures
        r.deep_view() == spec_anim_sprite_of(record_view(*rec)),
{
    let ghost rv = record_view(*rec);
    let frame_descriptor = match rec_child(rec, 4) {
        Some(c) => frame_descriptor_from_record(c),
        None => {
            let e = empty_record();
            frame_descriptor_from_record(&e)
        },
    };
    let mut frame_orders: Vec<FrameOrder> = Vec::new();
    match rec_children(rec, 5) {
        None => {
            assert(frame_orders.deep_view() =~= Seq::new(
                m_recs(rv, 5).len(),
                |i: int| spec_frame_order_of(m_recs(rv, 5)[i]),
            ));
        },
        Some(rs) => {
            proof {
                lemma_rec_seq_view(rs@);
            }
            let ghost rms = m_recs(rv, 5);
            let n = rs.len();
            let mut i: usize = 0;
            while i < n
                invariant
                    i <= n == rs@.len(),
                    rms == crate::schema::rec_seq_view(rs@),
                    rms.len() == n,
                    forall|k: int| 0 <= k < n ==> rms[k] == record_view(rs@[k]),
                    frame_orders.deep_view() == Seq::new(
                        i as nat,
                        |k: int| spec_frame_order_of(rms[k]),
                    ),
                decreases n - i,
            {
                let ghost pre = frame_orders.deep_view();
                frame_orders.push(frame_order_from_record(&rs[i]));
                assert(frame_orders.deep_view() =~= pre.push(spec_frame_order_of(rms[i as int])));
                assert(pre.push(spec_frame_order_of(rms[i as int])) =~= Seq::new(
                    (i + 1) as nat,
                    |k: int| spec_frame_order_of(rms[k]),
                ));
                i += 1;
            }
            assert(Seq::new(n as nat, |k: int| spec_frame_order_of(rms[k])) =~= Seq::new(
                rms.len(),
                |k: int| spec_frame_order_of(rms[k]),
            ));
        },
    }
    let mut sprite_frame_xruns: Vec<SpriteFrameXRun> = Vec::new();
    match rec_children(rec, 7) {
        None => {
            assert(sprite_frame_xruns.deep_view() =~= Seq::new(
                m_recs(rv, 7).len(),
                |i: int| spec_sprite_frame_xrun_of(m_recs(rv, 7)[i]),
            ));
        },
        Some(rs) => {
            proof {
                lemma_rec_seq_view(rs@);
            }
            let ghost rms = m_recs(rv, 7);
            let n = rs.len();
            let mut i: usize = 0;
            while i < n
                invariant
                    i <= n == rs@.len(),
                    rms == crate::schema::rec_seq_view(rs@),
                    rms.len() == n,
                    forall|k: int| 0 <= k < n ==> rms[k] == record_view(rs@[k]),
                    sprite_frame_xruns.deep_view() == Seq::new(
                        i as nat,
                        |k: int| spec_sprite_frame_xrun_of(rms[k]),
                    ),
                decreases n - i,
            {
                let ghost pre = sprite_frame_xruns.deep_view();
                sprite_frame_xruns.push(sprite_frame_xrun_from_record(&rs[i]));
                assert(sprite_frame_xruns.deep_view() =~= pre.push(
                    spec_sprite_frame_xrun_of(rms[i as int]),
                ));
                assert(pre.push(spec_sprite_frame_xrun_of(rms[i as int])) =~= Seq::new(
                    (i + 1) as nat,
                    |k: int| spec_sprite_frame_xrun_of(rms[k]),
                ));
                i += 1;
            }
            assert(Seq::new(n as nat, |k: int| spec_sprite_frame_xrun_of(rms[k])) =~= Seq::new(
                rms.len(),
                |k: int| spec_sprite_frame_xrun_of(rms[k]),
            ));
        },
    }
    let mut sprite_frame_dxruns: Vec<SpriteFrameDxRun> = Vec::new();
    match rec_children(rec, 8) {
        None => {
            assert(sprite_frame_dxruns.deep_view() =~= Seq::new(
                m_recs(rv, 8).len(),
                |i: int| spec_sprite_frame_dxrun_of(m_recs(rv, 8)[i]),
            ));
        },
        Some(rs) => {
            proof {
                lemma_rec_seq_view(rs@);
            }
            let ghost rms = m_recs(rv, 8);
            let n = rs.len();
            let mut i: usize = 0;
            while i < n
                invariant
                    i <= n == rs@.len(),
                    rms == crate::schema::rec_seq_view(rs@),
                    rms.len() == n,
                    forall|k: int| 0 <= k < n ==> rms[k] == record_view(rs@[k]),
                    sprite_frame_dxruns.deep_view() == Seq::new(
                        i as nat,
                        |k: int| spec_sprite_frame_dxrun_of(rms[k]),
                    ),
                decreases n - i,
            {
                let ghost pre = sprite_frame_dxruns.deep_view();
                sprite_frame_dxruns.push(sprite_frame_dxrun_from_record(&rs[i]));
                assert(sprite_frame_dxruns.deep_view() =~= pre.push(
                    spec_sprite_frame_dxrun_of(rms[i as int]),
                ));
                assert(pre.push(spec_sprite_frame_dxrun_of(rms[i as int])) =~= Seq::new(
                    (i + 1) as nat,
                    |k: int| spec_sprite_frame_dxrun_of(rms[k]),
                ));
                i += 1;
            }
            assert(Seq::new(n as nat, |k: int| spec_sprite_frame_dxrun_of(rms[k])) =~= Seq::new(
                rms.len(),
                |k: int| spec_sprite_frame_dxrun_of(rms[k]),
            ));
        },
    }
    AnimSprite {
        name: rec_text(rec, 0),
        texture_name: rec_text(rec, 1),
        width: rec_i32(rec, 2),
        height: rec_i32(rec, 3),
        frame_descriptor,
        frame_orders,
        sprite_frames: sprite_frames_from(rec, 6),
        sprite_frame_xruns,
        sprite_frame_dxruns,
    }
}

fn image_defs_from_record(rec: &Record) -> (r: ImageDefs)
    ensures
        r.deep_view() == spec_image_defs_of(record_view(*rec)),
{
    let ghost rv = record_view(*rec);
    let mut images: Vec<Image> = Vec::new();
    match rec_children(rec, 0) {
        None => {
            assert(images.deep_view() =~= Seq::new(
                m_recs(rv, 0).len(),
                |i: int| spec_image_of(m_recs(rv, 0)[i]),
            ));
        },
        Some(rs) => {
            proof {
                lemma_rec_seq_view(rs@);
            }
            let ghost rms = m_recs(rv, 0);
            let n = rs.len();
            let mut i: usize = 0;
            while i < n
                invariant
                    i <= n == rs@.len(),
                    rms == crate::schema::rec_seq_view(rs@),
                    rms.len() == n,
                    forall|k: int| 0 <= k < n ==> rms[k] == record_view(rs@[k]),
                    images.deep_view() == Seq::new(i as nat, |k: int| spec_image_of(rms[k])),
                decreases n - i,
            {
                let ghost pre = images.deep_view();
                images.push(image_from_record(&rs[i]));
                assert(images.deep_view() =~= pre.push(spec_image_of(rms[i as int])));
                assert(pre.push(spec_image_of(rms[i as int])) =~= Seq::new(
                    (i + 1) as nat,
                    |k: int| spec_image_of(rms[k]),
                ));
                i += 1;
            }
            assert(Seq::new(n as nat, |k: int| spec_image_of(rms[k])) =~= Seq::new(
                rms.len(),
                |k: int| spec_image_of(rms[k]),
            ));
        },
    }
    let mut sprite_3ds: Vec<Sprite3d> = Vec::new();
    match rec_children(rec, 1) {
        None => {
            assert(sprite_3ds.deep_view() =~= Seq::new(
                m_recs(rv, 1).len(),
                |i: int| spec_sprite_3d_of(m_recs(rv, 1)[i]),
            ));
        },
        Some(rs) => {
            proof {
                lemma_rec_seq_view(rs@);
            }
            let ghost rms = m_recs(rv, 1);
            let n = rs.len();
            let mut i: usize = 0;
            while i < n
                invariant
                    i <= n == rs@.len(),
                    rms == crate::schema::rec_seq_view(rs@),
                    rms.len() == n,
                    forall|k: int| 0 <= k < n ==> rms[k] == record_view(rs@[k]),
                    sprite_3ds.deep_view() == Seq::new(
                        i as nat,
                        |k: int| spec_sprite_3d_of(rms[k]),
                    ),
                decreases n - i,
            {
                let ghost pre = sprite_3ds.deep_view();
                sprite_3ds.push(sprite_3d_from_record(&rs[i]));
                assert(sprite_3ds.deep_view() =~= pre.push(spec_sprite_3d_of(rms[i as int])));
                assert(pre.push(spec_sprite_3d_of(rms[i as int])) =~= Seq::new(
                    (i + 1) as nat,
                    |k: int| spec_sprite_3d_of(rms[k]),
                ));
                i += 1;
            }
            assert(Seq::new(n as nat, |k: int| spec_sprite_3d_of(rms[k])) =~= Seq::new(
                rms.len(),
                |k: int| spec_sprite_3d_of(rms[k]),
            ));
        },
    }
    let mut anim_sprite_3ds: Vec<AnimSprite> = Vec::new();
    match rec_children(rec, 2) {
        None => {
            assert(anim_sprite_3ds.deep_view() =~= Seq::new(
                m_recs(rv, 2).len(),
                |i: int| spec_anim_sprite_of(m_recs(rv, 2)[i]),
            ));
        },
        Some(rs) => {
            proof {
                lemma_rec_seq_view(rs@);
            }
            let ghost rms = m_recs(rv, 2);
            let n = rs.len();
            let mut i: usize = 0;
            while i < n
                invariant
                    i <= n == rs@.len(),
                    rms == crate::schema::rec_seq_view(rs@),
                    rms.len() == n,
                    forall|k: int| 0 <= k < n ==> rms[k] == record_view(rs@[k]),
                    anim_sprite_3ds.deep_view() == Seq::new(
                        i as nat,
                        |k: int| spec_anim_sprite_of(rms[k]),
                    ),
                decreases n - i,
            {
                let ghost pre = anim_sprite_3ds.deep_view();
                anim_sprite_3ds.push(anim_sprite_from_record(&rs[i]));
                assert(anim_sprite_3ds.deep_view() =~= pre.push(
                    spec_anim_sprite_of(rms[i as int]),
                ));
                assert(pre.push(spec_anim_sprite_of(rms[i as int])) =~= Seq::new(
                    (i + 1) as nat,
                    |k: int| spec_anim_sprite_of(rms[k]),
                ));
                i += 1;
            }
            assert(Seq::new(n as nat, |k: int| spec_anim_sprite_of(rms[k])) =~= Seq::new(
                rms.len(),
                |k: int| spec_anim_sprite_of(rms[k]),
            ));
        },
    }
    let mut anim_sprites: Vec<AnimSprite> = Vec::new();
    match rec_children(rec, 3) {
        None => {
            assert(anim_sprites.deep_view() =~= Seq::new(
                m_recs(rv, 3).len(),
                |i: int| spec_anim_sprite_of(m_recs(rv, 3)[i]),
            ));
        },
        Some(rs) => {
            proof {
                lemma_rec_seq_view(rs@);
            }
            let ghost rms = m_recs(rv, 3);
            let n = rs.len();
            let mut i: usize = 0;
            while i < n
                invariant
                    i <= n == rs@.len(),
                    rms == crate::schema::rec_seq_view(rs@),
                    rms.len() == n,
                    forall|k: int| 0 <= k < n ==> rms[k] == record_view(rs@[k]),
                    anim_sprites.deep_view() == Seq::new(
                        i as nat,
                        |k: int| spec_anim_sprite_of(rms[k]),
                    ),
                decreases n - i,
            {
                let ghost pre = anim_sprites.deep_view();
                anim_sprites.push(anim_sprite_from_record(&rs[i]));
                assert(anim_sprites.deep_view() =~= pre.push(spec_anim_sprite_of(rms[i as int])));
                assert(pre.push(spec_anim_sprite_of(rms[i as int])) =~= Seq::new(
                    (i + 1) as nat,
                    |k: int| spec_anim_sprite_of(rms[k]),
                ));
                i += 1;
            }
            assert(Seq::new(n as nat, |k: int| spec_anim_sprite_of(rms[k])) =~= Seq::new(
                rms.len(),
                |k: int| spec_anim_sprite_of(rms[k]),
            ));
        },
    }
    ImageDefs { images, sprite_3ds, anim_sprite_3ds, anim_sprites }
}

/// What parsing an image catalog document yields: the typed catalog, or the
/// error that aborted the parse.
pub open spec fn spec_image_defs_result(lines: Seq<LineM>) -> Result<ImageDefsM, ParseErrM> {
    match spec_from_config(spec_image_schemas(), IMAGE_DEFS_ID, lines) {
        Ok(rm) => Ok(spec_image_defs_of(rm)),
        Err(e) => Err(e),
    }
}

impl ImageDefs {
    /// Parse a whole image catalog document from the reader's lines.
    pub fn from_config(reader: &mut ConfigReader) -> (r: Result<ImageDefs, ParseConfigError>)
        requires
            old(reader).wf(),
        ensures
            final(reader).wf(),
            (match spec_image_defs_result(old(reader)@) {
                Ok(m) => (r matches Ok(v) && v.deep_view() == m),
                Err(e) => (r matches Err(err) && err@ == e),
            }),
    {
        let schemas = image_schemas();
        proof {
            lemma_image_schemas_wf();
        }
        match from_config_record(&schemas, IMAGE_DEFS_ID, reader) {
            Ok(rec) => Ok(image_defs_from_record(&rec)),
            Err(e) => Err(e),
        }
    }
}

/// Parsing is deterministic at the catalog level: two catalogs parsed from
/// one and the same line stream are structurally equal.
pub proof fn lemma_image_defs_deterministic(lines: Seq<LineM>, a: ImageDefs, b: ImageDefs)
    requires
        spec_image_defs_result(lines) == Ok::<ImageDefsM, ParseErrM>(a.deep_view()),
        spec_image_defs_result(lines) == Ok::<ImageDefsM, ParseErrM>(b.deep_view()),
    ensures
        a.deep_view() == b.deep_view(),
{
}

} // verus!
