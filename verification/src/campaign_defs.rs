//! Campaign definition files: repeated top-level `CAMPAIGN_DEF` records with
//! no end marker, terminated by the recurrence of their own introducing key
//! or by the end of the stream.

use vstd::prelude::*;
use crate::config::{ConfigReader, EndM, EndType, ParseConfigError, ParseErrM};
use crate::fields::{
    arr_u32, m_bool, m_recs, m_text, m_text_list, m_u32, m_u32_list, rec_bool, rec_children,
    rec_text, rec_text_list, rec_u32, rec_u32_arr2, rec_u32_arr3,
};
use crate::parser::{from_config_record, spec_from_config};
use crate::schema::{
    Binding, BindingM, Coerce, KeyBinding, KeyBindingM, PosBinding, Record, RecordM, Schema,
    SchemaM, SlotKind, lemma_rec_seq_view, record_view, schema_wf, schemas_wf,
};
use crate::tokenize::LineM;

verus! {

broadcast use vstd::std_specs::vec::group_vec_axioms, vstd::seq::group_seq_axioms,
    vstd::seq_lib::group_seq_lib_default;

/// A particle emitter attached to a campaign: `EMITTER_CONFIG <name> <config>`.
#[derive(Debug, PartialEq)]
pub struct EmitterConfig {
    pub name: String,
    pub config: String,
}

/// The model of an [`EmitterConfig`].
pub struct EmitterConfigM {
    pub name: Seq<char>,
    pub config: Seq<char>,
}

impl DeepView for EmitterConfig {
    type V = EmitterConfigM;

    open spec fn deep_view(&self) -> EmitterConfigM {
        EmitterConfigM { name: self.name@, config: self.config@ }
    }
}

/// A clothing infiltration modifier: `CLOTHING_INFILTRATION_MOD <name> <v1> <v2>`.
#[derive(Debug, PartialEq)]
pub struct ClothingInfiltrationMod {
    pub name: String,
    pub v1: u32,
    pub v2: u32,
}

/// The model of a [`ClothingInfiltrationMod`].
pub struct ClothingInfiltrationModM {
    pub name: Seq<char>,
    pub v1: u32,
    pub v2: u32,
}

impl DeepView for ClothingInfiltrationMod {
    type V = ClothingInfiltrationModM;

    open spec fn deep_view(&self) -> ClothingInfiltrationModM {
        ClothingInfiltrationModM { name: self.name@, v1: self.v1, v2: self.v2 }
    }
}

/// A scripted action line: its name, then every remaining parameter.
#[derive(Debug, PartialEq)]
pub struct Action {
    pub name: String,
    pub params: Vec<String>,
}

/// The model of an [`Action`].
pub struct ActionM {
    pub name: Seq<char>,
    pub params: Seq<Seq<char>>,
}

impl DeepView for Action {
    type V = ActionM;

    open spec fn deep_view(&self) -> ActionM {
        ActionM { name: self.name@, params: self.params.deep_view() }
    }
}

/// One campaign definition: the keyed body of a `CAMPAIGN_DEF` line.
#[derive(Debug, PartialEq)]
pub struct CampaignDef {
    pub base_name: String,
    pub title: String,
    pub multiplayer_active: bool,
    pub exclude_from_campaign_tree: bool,
    pub skip_team_equipment_validation: bool,
    pub disable_help_tips: bool,
    pub playtest_funds: u32,
    pub multiplayer_funds: [u32; 3],
    pub cutscene: String,
    pub disable_team_and_equipping: String,
    pub lighting_threshholds: [u32; 2],
    pub enemy_grenade_use_chance: u32,
    pub alarm_audio: String,
    pub emitter_configs: Vec<EmitterConfig>,
    pub clothing_infiltration_mods: Vec<ClothingInfiltrationMod>,
    pub pre_actions: Vec<Action>,
    pub post_actions: Vec<Action>,
    pub preconditions: Vec<Action>,
}

/// The model of a [`CampaignDef`].
pub struct CampaignDefM {
    pub base_name: Seq<char>,
    pub title: Seq<char>,
    pub multiplayer_active: bool,
    pub exclude_from_campaign_tree: bool,
    pub skip_team_equipment_validation: bool,
    pub disable_help_tips: bool,
    pub playtest_funds: u32,
    pub multiplayer_funds: Seq<u32>,
    pub cutscene: Seq<char>,
    pub disable_team_and_equipping: Seq<char>,
    pub lighting_threshholds: Seq<u32>,
    pub enemy_grenade_use_chance: u32,
    pub alarm_audio: Seq<char>,
    pub emitter_configs: Seq<EmitterConfigM>,
    pub clothing_infiltration_mods: Seq<ClothingInfiltrationModM>,
    pub pre_actions: Seq<ActionM>,
    pub post_actions: Seq<ActionM>,
    pub preconditions: Seq<ActionM>,
}

impl DeepView for CampaignDef {
    type V = CampaignDefM;

    open spec fn deep_view(&self) -> CampaignDefM {
        CampaignDefM {
            base_name: self.base_name@,
            title: self.title@,
            multiplayer_active: self.multiplayer_active,
            exclude_from_campaign_tree: self.exclude_from_campaign_tree,
            skip_team_equipment_validation: self.skip_team_equipment_validation,
            disable_help_tips: self.disable_help_tips,
            playtest_funds: self.playtest_funds,
            multiplayer_funds: self.multiplayer_funds@,
            cutscene: self.cutscene@,
            disable_team_and_equipping: self.disable_team_and_equipping@,
            lighting_threshholds: self.lighting_threshholds@,
            enemy_grenade_use_chance: self.enemy_grenade_use_chance,
            alarm_audio: self.alarm_audio@,
            emitter_configs: self.emitter_configs.deep_view(),
            clothing_infiltration_mods: self.clothing_infiltration_mods.deep_view(),
            pre_actions: self.pre_actions.deep_view(),
            post_actions: self.post_actions.deep_view(),
            preconditions: self.preconditions.deep_view(),
        }
    }
}

/// A whole campaign definition file: every `CAMPAIGN_DEF` in order.
#[derive(Debug, PartialEq)]
pub struct CampaignDefs {
    pub campaign_defs: Vec<CampaignDef>,
}

/// The model of a [`CampaignDefs`].
pub struct CampaignDefsM {
    pub campaign_defs: Seq<CampaignDefM>,
}

impl DeepView for CampaignDefs {
    type V = CampaignDefsM;

    open spec fn deep_view(&self) -> CampaignDefsM {
        CampaignDefsM { campaign_defs: self.campaign_defs.deep_view() }
    }
}

/// The same document read by the campaign listing tool.
#[derive(Debug, PartialEq)]
pub struct Campaigns {
    pub campaign_defs: Vec<CampaignDef>,
}

/// The model of a [`Campaigns`].
pub struct CampaignsM {
    pub campaign_defs: Seq<CampaignDefM>,
}

impl DeepView for Campaigns {
    type V = CampaignsM;

    open spec fn deep_view(&self) -> CampaignsM {
        CampaignsM { campaign_defs: self.campaign_defs.deep_view() }
    }
}

/// The schema index of each record type of this file format.
pub const EMITTER_CONFIG_ID: usize = 0;

pub const CLOTHING_INFILTRATION_MOD_ID: usize = 1;

pub const ACTION_ID: usize = 2;

pub const CAMPAIGN_DEF_ID: usize = 3;

pub const CAMPAIGN_DEFS_ID: usize = 4;

pub open spec fn spec_emitter_config_schema() -> SchemaM {
    SchemaM {
        name: "EmitterConfig"@,
        slots: seq![SlotKind::Text, SlotKind::Text],
        positional: seq![
            PosBinding { slot: 0, index: 0, coerce: Coerce::Text, rest: false },
            PosBinding { slot: 1, index: 1, coerce: Coerce::Text, rest: false },
        ],
        keyed: Seq::empty(),
    }
}

pub open spec fn spec_clothing_infiltration_mod_schema() -> SchemaM {
    SchemaM {
        name: "ClothingInfiltrationMod"@,
        slots: seq![SlotKind::Text, SlotKind::Uint, SlotKind::Uint],
        positional: seq![
            PosBinding { slot: 0, index: 0, coerce: Coerce::Text, rest: false },
            PosBinding { slot: 1, index: 1, coerce: Coerce::Uint, rest: false },
            PosBinding { slot: 2, index: 2, coerce: Coerce::Uint, rest: false },
        ],
        keyed: Seq::empty(),
    }
}

pub open spec fn spec_action_schema() -> SchemaM {
    SchemaM {
        name: "Action"@,
        slots: seq![SlotKind::Text, SlotKind::Arr(Coerce::Text, 0)],
        positional: seq![
            PosBinding { slot: 0, index: 0, coerce: Coerce::Text, rest: false },
            PosBinding { slot: 1, index: 1, coerce: Coerce::Text, rest: true },
        ],
        keyed: Seq::empty(),
    }
}

pub open spec fn spec_campaign_def_schema() -> SchemaM {
    SchemaM {
        name: "CampaignDef"@,
        slots: seq![
            SlotKind::Text,
            SlotKind::Text,
            SlotKind::Bool,
            SlotKind::Bool,
            SlotKind::Bool,
            SlotKind::Bool,
            SlotKind::Uint,
            SlotKind::Arr(Coerce::Uint, 3),
            SlotKind::Text,
            SlotKind::Text,
            SlotKind::Arr(Coerce::Uint, 2),
            SlotKind::Uint,
            SlotKind::Text,
            SlotKind::RecList,
            SlotKind::RecList,
            SlotKind::RecList,
            SlotKind::RecList,
            SlotKind::RecList,
        ],
        positional: Seq::empty(),
        keyed: seq![
            KeyBindingM { key: "BASENAME"@, slot: 0, binding: BindingM::Scalar(Coerce::Text) },
            KeyBindingM { key: "TITLE"@, slot: 1, binding: BindingM::Scalar(Coerce::Text) },
            KeyBindingM { key: "MULTIPLAYER_ACTIVE"@, slot: 2, binding: BindingM::Presence },
            KeyBindingM {
                key: "EXCLUDE_FROM_CAMPAIGN_TREE"@,
                slot: 3,
                binding: BindingM::Presence,
            },
            KeyBindingM {
                key: "SKIP_TEAM_EQUIPMENT_VALIDATION"@,
                slot: 4,
                binding: BindingM::Presence,
            },
            KeyBindingM { key: "DISABLE_HELP_TIPS"@, slot: 5, binding: BindingM::Presence },
            KeyBindingM { key: "PLAYTEST_FUNDS"@, slot: 6, binding: BindingM::Scalar(Coerce::Uint) },
            KeyBindingM {
                key: "MULTIPLAYER_FUNDS"@,
                slot: 7,
                binding: BindingM::FixedArray(Coerce::Uint, 3),
            },
            KeyBindingM { key: "CUTSCENE"@, slot: 8, binding: BindingM::Scalar(Coerce::Text) },
            KeyBindingM {
                key: "DISABLE_TEAM_AND_EQUIPPING"@,
                slot: 9,
                binding: BindingM::Scalar(Coerce::Text),
            },
            KeyBindingM {
                key: "LIGHTING_THRESHHOLDS"@,
                slot: 10,
                binding: BindingM::FixedArray(Coerce::Uint, 2),
            },
            KeyBindingM {
                key: "ENEMY_GRENADE_USE_CHANCE"@,
                slot: 11,
                binding: BindingM::Scalar(Coerce::Uint),
            },
            KeyBindingM { key: "ALARM_AUDIO"@, slot: 12, binding: BindingM::Scalar(Coerce::Text) },
            KeyBindingM {
                key: "EMITTER_CONFIG"@,
                slot: 13,
                binding: BindingM::Repeated(EMITTER_CONFIG_ID, EndM::NoEnd),
            },
            KeyBindingM {
                key: "CLOTHING_INFILTRATION_MOD"@,
                slot: 14,
                binding: BindingM::Repeated(CLOTHING_INFILTRATION_MOD_ID, EndM::NoEnd),
            },
            KeyBindingM {
                key: "PRE_ACTION"@,
                slot: 15,
                binding: BindingM::Repeated(ACTION_ID, EndM::NoEnd),
            },
            KeyBindingM {
                key: "POST_ACTION"@,
                slot: 16,
                binding: BindingM::Repeated(ACTION_ID, EndM::NoEnd),
            },
            KeyBindingM {
                key: "PRECONDITION"@,
                slot: 17,
                binding: BindingM::Repeated(ACTION_ID, EndM::NoEnd),
            },
        ],
    }
}

/// The root schema: repeated `CAMPAIGN_DEF` elements, each ended by the
/// recurrence of its own introducing key.
pub open spec fn spec_campaign_root_schema(root: Seq<char>) -> SchemaM {
    SchemaM {
        name: root,
        slots: seq![SlotKind::RecList],
        positional: Seq::empty(),
        keyed: seq![
            KeyBindingM {
                key: "CAMPAIGN_DEF"@,
                slot: 0,
                binding: BindingM::Repeated(CAMPAIGN_DEF_ID, EndM::StartKey("CAMPAIGN_DEF"@)),
            },
        ],
    }
}

/// The whole schema set of the campaign definition grammar, with the given
/// root record name.
pub open spec fn spec_campaign_schemas(root: Seq<char>) -> Seq<SchemaM> {
    seq![
        spec_emitter_config_schema(),
        spec_clothing_infiltration_mod_schema(),
        spec_action_schema(),
        spec_campaign_def_schema(),
        spec_campaign_root_schema(root),
    ]
}

pub proof fn lemma_campaign_schemas_wf(root: Seq<char>)
    ensures
        schemas_wf(spec_campaign_schemas(root)),
{
    let s = spec_campaign_schemas(root);
    assert forall|i: int| 0 <= i < s.len() implies schema_wf(
        #[trigger] s[i],
        i as usize,
        s.len() as int,
    ) by {
        if i == 0 {
            assert(schema_wf(s[0], 0usize, 5));
        } else if i == 1 {
            assert(schema_wf(s[1], 1usize, 5));
        } else if i == 2 {
            assert(schema_wf(s[2], 2usize, 5));
        } else if i == 3 {
            assert(schema_wf(s[3], 3usize, 5));
        } else {
            assert(schema_wf(s[4], 4usize, 5));
        }
    }
}

fn emitter_config_schema() -> (s: Schema)
    ensures
        s@ == spec_emitter_config_schema(),
{
    let mut slots: Vec<SlotKind> = Vec::new();
    slots.push(SlotKind::Text);
    slots.push(SlotKind::Text);
    let mut positional: Vec<PosBinding> = Vec::new();
    positional.push(PosBinding { slot: 0, index: 0, coerce: Coerce::Text, rest: false });
    positional.push(PosBinding { slot: 1, index: 1, coerce: Coerce::Text, rest: false });
    let s = Schema { name: "EmitterConfig".to_owned(), slots, positional, keyed: Vec::new() };
    assert(s@.slots =~= spec_emitter_config_schema().slots);
    assert(s@.positional =~= spec_emitter_config_schema().positional);
    assert(s@.keyed =~= spec_emitter_config_schema().keyed);
    s
}

fn clothing_infiltration_mod_schema() -> (s: Schema)
    ensures
        s@ == spec_clothing_infiltration_mod_schema(),
{
    let mut slots: Vec<SlotKind> = Vec::new();
    slots.push(SlotKind::Text);
    slots.push(SlotKind::Uint);
    slots.push(SlotKind::Uint);
    let mut positional: Vec<PosBinding> = Vec::new();
    positional.push(PosBinding { slot: 0, index: 0, coerce: Coerce::Text, rest: false });
    positional.push(PosBinding { slot: 1, index: 1, coerce: Coerce::Uint, rest: false });
    positional.push(PosBinding { slot: 2, index: 2, coerce: Coerce::Uint, rest: false });
    let s = Schema {
        name: "ClothingInfiltrationMod".to_owned(),
        slots,
        positional,
        keyed: Vec::new(),
    };
    assert(s@.slots =~= spec_clothing_infiltration_mod_schema().slots);
    assert(s@.positional =~= spec_clothing_infiltration_mod_schema().positional);
    assert(s@.keyed =~= spec_clothing_infiltration_mod_schema().keyed);
    s
}

fn action_schema() -> (s: Schema)
    ensures
        s@ == spec_action_schema(),
{
    let mut slots: Vec<SlotKind> = Vec::new();
    slots.push(SlotKind::Text);
    slots.push(SlotKind::Arr(Coerce::Text, 0));
    let mut positional: Vec<PosBinding> = Vec::new();
    positional.push(PosBinding { slot: 0, index: 0, coerce: Coerce::Text, rest: false });
    positional.push(PosBinding { slot: 1, index: 1, coerce: Coerce::Text, rest: true });
    let s = Schema { name: "Action".to_owned(), slots, positional, keyed: Vec::new() };
    assert(s@.slots =~= spec_action_schema().slots);
    assert(s@.positional =~= spec_action_schema().positional);
    assert(s@.keyed =~= spec_action_schema().keyed);
    s
}

fn scalar_key(key: &str, slot: usize, c: Coerce) -> (kb: KeyBinding)
    ensures
        kb@ == (KeyBindingM { key: key@, slot, binding: BindingM::Scalar(c) }),
{
    KeyBinding { key: key.to_owned(), slot, binding: Binding::Scalar(c) }
}

fn presence_key(key: &str, slot: usize) -> (kb: KeyBinding)
    ensures
        kb@ == (KeyBindingM { key: key@, slot, binding: BindingM::Presence }),
{
    KeyBinding { key: key.to_owned(), slot, binding: Binding::Presence }
}

fn array_key(key: &str, slot: usize, c: Coerce, n: usize) -> (kb: KeyBinding)
    ensures
        kb@ == (KeyBindingM { key: key@, slot, binding: BindingM::FixedArray(c, n) }),
{
    KeyBinding { key: key.to_owned(), slot, binding: Binding::FixedArray(c, n) }
}

fn repeated_key(key: &str, slot: usize, child: usize) -> (kb: KeyBinding)
    ensures
        kb@ == (KeyBindingM { key: key@, slot, binding: BindingM::Repeated(child, EndM::NoEnd) }),
{
    KeyBinding { key: key.to_owned(), slot, binding: Binding::Repeated(child, EndType::NoEnd) }
}

fn campaign_def_schema() -> (s: Schema)
    ensures
        s@ == spec_campaign_def_schema(),
{
    let mut slots: Vec<SlotKind> = Vec::new();
    slots.push(SlotKind::Text);
    slots.push(SlotKind::Text);
    slots.push(SlotKind::Bool);
    slots.push(SlotKind::Bool);
    slots.push(SlotKind::Bool);
    slots.push(SlotKind::Bool);
    slots.push(SlotKind::Uint);
    slots.push(SlotKind::Arr(Coerce::Uint, 3));
    slots.push(SlotKind::Text);
    slots.push(SlotKind::Text);
    slots.push(SlotKind::Arr(Coerce::Uint, 2));
    slots.push(SlotKind::Uint);
    slots.push(SlotKind::Text);
    slots.push(SlotKind::RecList);
    slots.push(SlotKind::RecList);
    slots.push(SlotKind::RecList);
    slots.push(SlotKind::RecList);
    slots.push(SlotKind::RecList);
    let mut keyed: Vec<KeyBinding> = Vec::new();
    keyed.push(scalar_key("BASENAME", 0, Coerce::Text));
    keyed.push(scalar_key("TITLE", 1, Coerce::Text));
    keyed.push(presence_key("MULTIPLAYER_ACTIVE", 2));
    keyed.push(presence_key("EXCLUDE_FROM_CAMPAIGN_TREE", 3));
    keyed.push(presence_key("SKIP_TEAM_EQUIPMENT_VALIDATION", 4));
    keyed.push(presence_key("DISABLE_HELP_TIPS", 5));
    keyed.push(scalar_key("PLAYTEST_FUNDS", 6, Coerce::Uint));
    keyed.push(array_key("MULTIPLAYER_FUNDS", 7, Coerce::Uint, 3));
    keyed.push(scalar_key("CUTSCENE", 8, Coerce::Text));
    keyed.push(scalar_key("DISABLE_TEAM_AND_EQUIPPING", 9, Coerce::Text));
    keyed.push(array_key("LIGHTING_THRESHHOLDS", 10, Coerce::Uint, 2));
    keyed.push(scalar_key("ENEMY_GRENADE_USE_CHANCE", 11, Coerce::Uint));
    keyed.push(scalar_key("ALARM_AUDIO", 12, Coerce::Text));
    keyed.push(repeated_key("EMITTER_CONFIG", 13, EMITTER_CONFIG_ID));
    keyed.push(repeated_key("CLOTHING_INFILTRATION_MOD", 14, CLOTHING_INFILTRATION_MOD_ID));
    keyed.push(repeated_key("PRE_ACTION", 15, ACTION_ID));
    keyed.push(repeated_key("POST_ACTION", 16, ACTION_ID));
    keyed.push(repeated_key("PRECONDITION", 17, ACTION_ID));
    let s = Schema {
        name: "CampaignDef".to_owned(),
        slots,
        positional: Vec::new(),
        keyed,
    };
    assert(s@.slots =~= spec_campaign_def_schema().slots);
    assert(s@.positional =~= spec_campaign_def_schema().positional);
    assert(s@.keyed =~= spec_campaign_def_schema().keyed);
    s
}

fn campaign_root_schema(root: &str) -> (s: Schema)
    ensures
        s@ == spec_campaign_root_schema(root@),
{
    let mut slots: Vec<SlotKind> = Vec::new();
    slots.push(SlotKind::RecList);
    let mut keyed: Vec<KeyBinding> = Vec::new();
    keyed.push(
        KeyBinding {
            key: "CAMPAIGN_DEF".to_owned(),
            slot: 0,
            binding: Binding::Repeated(
                CAMPAIGN_DEF_ID,
                EndType::StartKey("CAMPAIGN_DEF".to_owned()),
            ),
        },
    );
    let s = Schema { name: root.to_owned(), slots, positional: Vec::new(), keyed };
    assert(s@.slots =~= spec_campaign_root_schema(root@).slots);
    assert(s@.positional =~= spec_campaign_root_schema(root@).positional);
    assert(s@.keyed =~= spec_campaign_root_schema(root@).keyed);
    s
}

/// The campaign grammar's schema set, with the given root record name.
fn campaign_schemas(root: &str) -> (r: Vec<Schema>)
    ensures
        r.deep_view() == spec_campaign_schemas(root@),
{
    let mut v: Vec<Schema> = Vec::new();
    v.push(emitter_config_schema());
    v.push(clothing_infiltration_mod_schema());
    v.push(action_schema());
    v.push(campaign_def_schema());
    v.push(campaign_root_schema(root));
    assert(v.deep_view() =~= spec_campaign_schemas(root@));
    v
}

pub open spec fn spec_emitter_config_of(rm: RecordM) -> EmitterConfigM {
    EmitterConfigM { name: m_text(rm, 0), config: m_text(rm, 1) }
}

pub open spec fn spec_clothing_infiltration_mod_of(rm: RecordM) -> ClothingInfiltrationModM {
    ClothingInfiltrationModM { name: m_text(rm, 0), v1: m_u32(rm, 1), v2: m_u32(rm, 2) }
}

pub open spec fn spec_action_of(rm: RecordM) -> ActionM {
    ActionM { name: m_text(rm, 0), params: m_text_list(rm, 1) }
}

pub open spec fn spec_emitter_configs_of(rms: Seq<RecordM>) -> Seq<EmitterConfigM> {
    Seq::new(rms.len(), |i: int| spec_emitter_config_of(rms[i]))
}

pub open spec fn spec_clothing_infiltration_mods_of(rms: Seq<RecordM>) -> Seq<
    ClothingInfiltrationModM,
> {
    Seq::new(rms.len(), |i: int| spec_clothing_infiltration_mod_of(rms[i]))
}

pub open spec fn spec_actions_of(rms: Seq<RecordM>) -> Seq<ActionM> {
    Seq::new(rms.len(), |i: int| spec_action_of(rms[i]))
}

/// How a parsed generic record reads as a [`CampaignDef`].
pub open spec fn spec_campaign_def_of(rm: RecordM) -> CampaignDefM {
    CampaignDefM {
        base_name: m_text(rm, 0),
        title: m_text(rm, 1),
        multiplayer_active: m_bool(rm, 2),
        exclude_from_campaign_tree: m_bool(rm, 3),
        skip_team_equipment_validation: m_bool(rm, 4),
        disable_help_tips: m_bool(rm, 5),
        playtest_funds: m_u32(rm, 6),
        multiplayer_funds: arr_u32(m_u32_list(rm, 7), 3),
        cutscene: m_text(rm, 8),
        disable_team_and_equipping: m_text(rm, 9),
        lighting_threshholds: arr_u32(m_u32_list(rm, 10), 2),
        enemy_grenade_use_chance: m_u32(rm, 11),
        alarm_audio: m_text(rm, 12),
        emitter_configs: spec_emitter_configs_of(m_recs(rm, 13)),
        clothing_infiltration_mods: spec_clothing_infiltration_mods_of(m_recs(rm, 14)),
        pre_actions: spec_actions_of(m_recs(rm, 15)),
        post_actions: spec_actions_of(m_recs(rm, 16)),
        preconditions: spec_actions_of(m_recs(rm, 17)),
    }
}

pub open spec fn spec_campaign_defs_of(rm: RecordM) -> CampaignDefsM {
    CampaignDefsM {
        campaign_defs: Seq::new(m_recs(rm, 0).len(), |i: int| spec_campaign_def_of(m_recs(rm, 0)[i])),
    }
}

fn emitter_config_from_record(rec: &Record) -> (r: EmitterConfig)
    ensures
        r.deep_view() == spec_emitter_config_of(record_view(*rec)),
{
    EmitterConfig { name: rec_text(rec, 0), config: rec_text(rec, 1) }
}

fn clothing_infiltration_mod_from_record(rec: &Record) -> (r: ClothingInfiltrationMod)
    ensures
        r.deep_view() == spec_clothing_infiltration_mod_of(record_view(*rec)),
{
    ClothingInfiltrationMod { name: rec_text(rec, 0), v1: rec_u32(rec, 1), v2: rec_u32(rec, 2) }
}

fn action_from_record(rec: &Record) -> (r: Action)
    ensures
        r.deep_view() == spec_action_of(record_view(*rec)),
{
    Action { name: rec_text(rec, 0), params: rec_text_list(rec, 1) }
}

fn emitter_configs_from(rec: &Record, slot: usize) -> (r: Vec<EmitterConfig>)
    ensures
        r.deep_view() == spec_emitter_configs_of(m_recs(record_view(*rec), slot as int)),
{
    let ghost rms = m_recs(record_view(*rec), slot as int);
    let mut out: Vec<EmitterConfig> = Vec::new();
    match rec_children(rec, slot) {
        None => {
            assert(out.deep_view() =~= spec_emitter_configs_of(rms));
        },
        Some(rs) => {
            proof {
                lemma_rec_seq_view(rs@);
            }
            let n = rs.len();
            let mut i: usize = 0;
            while i < n
                invariant
                    i <= n == rs@.len(),
                    rms == crate::schema::rec_seq_view(rs@),
                    rms.len() == n,
                    forall|k: int| 0 <= k < n ==> rms[k] == record_view(rs@[k]),
                    out.deep_view() == spec_emitter_configs_of(rms).subrange(0, i as int),
                decreases n - i,
            {
                let ghost pre = out.deep_view();
                out.push(emitter_config_from_record(&rs[i]));
                assert(out.deep_view() =~= pre.push(spec_emitter_config_of(rms[i as int])));
                assert(pre.push(spec_emitter_config_of(rms[i as int])) =~= spec_emitter_configs_of(
                    rms,
                ).subrange(0, i + 1int));
                i += 1;
            }
            assert(spec_emitter_configs_of(rms).subrange(0, n as int) =~= spec_emitter_configs_of(
                rms,
            ));
        },
    }
    out
}

fn clothing_infiltration_mods_from(rec: &Record, slot: usize) -> (r: Vec<ClothingInfiltrationMod>)
    ensures
        r.deep_view() == spec_clothing_infiltration_mods_of(m_recs(record_view(*rec), slot as int)),
{
    let ghost rms = m_recs(record_view(*rec), slot as int);
    let mut out: Vec<ClothingInfiltrationMod> = Vec::new();
    match rec_children(rec, slot) {
        None => {
            assert(out.deep_view() =~= spec_clothing_infiltration_mods_of(rms));
        },
        Some(rs) => {
            proof {
                lemma_rec_seq_view(rs@);
            }
            let n = rs.len();
            let mut i: usize = 0;
            while i < n
                invariant
                    i <= n == rs@.len(),
                    rms == crate::schema::rec_seq_view(rs@),
                    rms.len() == n,
                    forall|k: int| 0 <= k < n ==> rms[k] == record_view(rs@[k]),
                    out.deep_view() == spec_clothing_infiltration_mods_of(rms).subrange(0, i as int),
                decreases n - i,
            {
                let ghost pre = out.deep_view();
                out.push(clothing_infiltration_mod_from_record(&rs[i]));
                assert(out.deep_view() =~= pre.push(
                    spec_clothing_infiltration_mod_of(rms[i as int]),
                ));
                assert(pre.push(spec_clothing_infiltration_mod_of(rms[i as int]))
                    =~= spec_clothing_infiltration_mods_of(rms).subrange(0, i + 1int));
                i += 1;
            }
            assert(spec_clothing_infiltration_mods_of(rms).subrange(0, n as int)
                =~= spec_clothing_infiltration_mods_of(rms));
        },
    }
    out
}

fn actions_from(rec: &Record, slot: usize) -> (r: Vec<Action>)
    ensures
        r.deep_view() == spec_actions_of(m_recs(record_view(*rec), slot as int)),
{
    let ghost rms = m_recs(record_view(*rec), slot as int);
    let mut out: Vec<Action> = Vec::new();
    match rec_children(rec, slot) {
        None => {
            assert(out.deep_view() =~= spec_actions_of(rms));
        },
        Some(rs) => {
            proof {
                lemma_rec_seq_view(rs@);
            }
            let n = rs.len();
            let mut i: usize = 0;
            while i < n
                invariant
                    i <= n == rs@.len(),
                    rms == crate::schema::rec_seq_view(rs@),
                    rms.len() == n,
                    forall|k: int| 0 <= k < n ==> rms[k] == record_view(rs@[k]),
                    out.deep_view() == spec_actions_of(rms).subrange(0, i as int),
                decreases n - i,
            {
                let ghost pre = out.deep_view();
                out.push(action_from_record(&rs[i]));
                assert(out.deep_view() =~= pre.push(spec_action_of(rms[i as int])));
                assert(pre.push(spec_action_of(rms[i as int])) =~= spec_actions_of(rms).subrange(
                    0,
                    i + 1int,
                ));
                i += 1;
            }
            assert(spec_actions_of(rms).subrange(0, n as int) =~= spec_actions_of(rms));
        },
    }
    out
}

fn campaign_def_from_record(rec: &Record) -> (r: CampaignDef)
    ensures
        r.deep_view() == spec_campaign_def_of(record_view(*rec)),
{
    CampaignDef {
        base_name: rec_text(rec, 0),
        title: rec_text(rec, 1),
        multiplayer_active: rec_bool(rec, 2),
        exclude_from_campaign_tree: rec_bool(rec, 3),
        skip_team_equipment_validation: rec_bool(rec, 4),
        disable_help_tips: rec_bool(rec, 5),
        playtest_funds: rec_u32(rec, 6),
        multiplayer_funds: rec_u32_arr3(rec, 7),
        cutscene: rec_text(rec, 8),
        disable_team_and_equipping: rec_text(rec, 9),
        lighting_threshholds: rec_u32_arr2(rec, 10),
        enemy_grenade_use_chance: rec_u32(rec, 11),
        alarm_audio: rec_text(rec, 12),
        emitter_configs: emitter_configs_from(rec, 13),
        clothing_infiltration_mods: clothing_infiltration_mods_from(rec, 14),
        pre_actions: actions_from(rec, 15),
        post_actions: actions_from(rec, 16),
        preconditions: actions_from(rec, 17),
    }
}

fn campaign_defs_vec_from_record(rec: &Record) -> (r: Vec<CampaignDef>)
    ensures
        r.deep_view() == spec_campaign_defs_of(record_view(*rec)).campaign_defs,
{
    let ghost rms = m_recs(record_view(*rec), 0);
    let mut out: Vec<CampaignDef> = Vec::new();
    match rec_children(rec, 0) {
        None => {
            assert(out.deep_view() =~= spec_campaign_defs_of(record_view(*rec)).campaign_defs);
        },
        Some(rs) => {
            proof {
                lemma_rec_seq_view(rs@);
            }
            let n = rs.len();
            let mut i: usize = 0;
            while i < n
                invariant
                    i <= n == rs@.len(),
                    rms == crate::schema::rec_seq_view(rs@),
                    rms.len() == n,
                    forall|k: int| 0 <= k < n ==> rms[k] == record_view(rs@[k]),
                    out.deep_view() == Seq::new(i as nat, |k: int| spec_campaign_def_of(rms[k])),
                decreases n - i,
            {
                let ghost pre = out.deep_view();
                out.push(campaign_def_from_record(&rs[i]));
                assert(out.deep_view() =~= pre.push(spec_campaign_def_of(rms[i as int])));
                assert(pre.push(spec_campaign_def_of(rms[i as int])) =~= Seq::new(
                    (i + 1) as nat,
                    |k: int| spec_campaign_def_of(rms[k]),
                ));
                i += 1;
            }
            assert(Seq::new(n as nat, |k: int| spec_campaign_def_of(rms[k])) =~= Seq::new(
                rms.len(),
                |k: int| spec_campaign_def_of(rms[k]),
            ));
        },
    }
    out
}

/// What parsing a campaign definition document yields: the typed tree, or
/// the error that aborted the parse.
pub open spec fn spec_campaign_defs_result(lines: Seq<LineM>) -> Result<CampaignDefsM, ParseErrM> {
    match spec_from_config(spec_campaign_schemas("CampaignDefs"@), CAMPAIGN_DEFS_ID, lines) {
        Ok(rm) => Ok(CampaignDefsM { campaign_defs: spec_campaign_defs_of(rm).campaign_defs }),
        Err(e) => Err(e),
    }
}

/// What parsing yields for the campaign listing tool's root record.
pub open spec fn spec_campaigns_result(lines: Seq<LineM>) -> Result<CampaignsM, ParseErrM> {
    match spec_from_config(spec_campaign_schemas("Campaigns"@), CAMPAIGN_DEFS_ID, lines) {
        Ok(rm) => Ok(CampaignsM { campaign_defs: spec_campaign_defs_of(rm).campaign_defs }),
        Err(e) => Err(e),
    }
}

impl CampaignDefs {
    /// Parse a whole campaign definition document from the reader's lines.
    pub fn from_config(reader: &mut ConfigReader) -> (r: Result<CampaignDefs, ParseConfigError>)
        requires
            old(reader).wf(),
        ensures
            final(reader).wf(),
            (match spec_campaign_defs_result(old(reader)@) {
                Ok(m) => (r matches Ok(v) && v.deep_view() == m),
                Err(e) => (r matches Err(err) && err@ == e),
            }),
    {
        let schemas = campaign_schemas("CampaignDefs");
        proof {
            lemma_campaign_schemas_wf("CampaignDefs"@);
        }
        match from_config_record(&schemas, CAMPAIGN_DEFS_ID, reader) {
            Ok(rec) => Ok(CampaignDefs { campaign_defs: campaign_defs_vec_from_record(&rec) }),
            Err(e) => Err(e),
        }
    }
}

impl Campaigns {
    /// Parse a whole campaign definition document from the reader's lines.
    pub fn from_config(reader: &mut ConfigReader) -> (r: Result<Campaigns, ParseConfigError>)
        requires
            old(reader).wf(),
        ensures
            final(reader).wf(),
            (match spec_campaigns_result(old(reader)@) {
                Ok(m) => (r matches Ok(v) && v.deep_view() == m),
                Err(e) => (r matches Err(err) && err@ == e),
            }),
    {
        let schemas = campaign_schemas("Campaigns");
        proof {
            lemma_campaign_schemas_wf("Campaigns"@);
        }
        match from_config_record(&schemas, CAMPAIGN_DEFS_ID, reader) {
            Ok(rec) => Ok(Campaigns { campaign_defs: campaign_defs_vec_from_record(&rec) }),
            Err(e) => Err(e),
        }
    }
}

/// Parsing is deterministic at the campaign level: two trees parsed from one
/// and the same line stream are structurally equal.
pub proof fn lemma_campaign_defs_deterministic(lines: Seq<LineM>, a: CampaignDefs, b: CampaignDefs)
    requires
        spec_campaign_defs_result(lines) == Ok::<CampaignDefsM, ParseErrM>(a.deep_view()),
        spec_campaign_defs_result(lines) == Ok::<CampaignDefsM, ParseErrM>(b.deep_view()),
    ensures
        a.deep_view() == b.deep_view(),
{
}

} // verus!
