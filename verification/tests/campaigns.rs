//! Campaign definition parsing: the end-to-end scenario, the error cases,
//! and determinism.

use shadow_company_tools::campaign_defs::{CampaignDefs, Campaigns};
use shadow_company_tools::config::{ConfigReader, ParseConfigError};

fn parse_campaigns(data: &str) -> Result<CampaignDefs, ParseConfigError> {
    let mut reader = ConfigReader::new(data.as_bytes().to_vec()).unwrap();
    CampaignDefs::from_config(&mut reader)
}

#[test]
fn end_to_end_two_campaigns() {
    let data = "CAMPAIGN_DEF\nBASENAME training\nTITLE \"Training Camp\"\nMULTIPLAYER_ACTIVE\nPRE_ACTION spawn unit_a\nCAMPAIGN_DEF\nBASENAME desert\n";
    let defs = parse_campaigns(data).expect("parse failed");
    assert_eq!(defs.campaign_defs.len(), 2);

    let c0 = &defs.campaign_defs[0];
    assert_eq!(c0.base_name, "training");
    assert_eq!(c0.title, "Training Camp");
    assert!(c0.multiplayer_active);
    assert_eq!(c0.pre_actions.len(), 1);
    assert_eq!(c0.pre_actions[0].name, "spawn");
    assert_eq!(c0.pre_actions[0].params, vec!["unit_a"]);

    let c1 = &defs.campaign_defs[1];
    assert_eq!(c1.base_name, "desert");
    assert_eq!(c1.title, "");
    assert!(!c1.multiplayer_active);
    assert!(!c1.exclude_from_campaign_tree);
    assert_eq!(c1.playtest_funds, 0);
    assert_eq!(c1.multiplayer_funds, [0, 0, 0]);
    assert_eq!(c1.lighting_threshholds, [0, 0]);
    assert_eq!(c1.cutscene, "");
    assert_eq!(c1.enemy_grenade_use_chance, 0);
    assert!(c1.emitter_configs.is_empty());
    assert!(c1.clothing_infiltration_mods.is_empty());
    assert!(c1.pre_actions.is_empty());
    assert!(c1.post_actions.is_empty());
    assert!(c1.preconditions.is_empty());
}

#[test]
fn fixed_array_underflow_fails() {
    let data = "CAMPAIGN_DEF\nMULTIPLAYER_FUNDS 1 2\n";
    let err = parse_campaigns(data).unwrap_err();
    assert_eq!(
        err,
        ParseConfigError::FixedArrayUnderflow(
            "CampaignDef".to_string(),
            "MULTIPLAYER_FUNDS".to_string()
        )
    );
}

#[test]
fn fixed_array_filled_from_leading_params() {
    let data = "CAMPAIGN_DEF\nMULTIPLAYER_FUNDS 10 20 30\nLIGHTING_THRESHHOLDS 4 5\n";
    let defs = parse_campaigns(data).unwrap();
    assert_eq!(defs.campaign_defs[0].multiplayer_funds, [10, 20, 30]);
    assert_eq!(defs.campaign_defs[0].lighting_threshholds, [4, 5]);
}

#[test]
fn invalid_key_is_an_error() {
    // A foreign key closes the element and, recognized by no enclosing
    // record either, fails the whole parse: nothing is skipped.
    let data = "CAMPAIGN_DEF\nBASENAME x\nNOT_A_KEY y\n";
    let err = parse_campaigns(data).unwrap_err();
    assert_eq!(
        err,
        ParseConfigError::InvalidKey("CampaignDefs".to_string(), "NOT_A_KEY".to_string())
    );

    // At the top level directly the same holds.
    let data = "GARBAGE x\n";
    let err = parse_campaigns(data).unwrap_err();
    assert_eq!(
        err,
        ParseConfigError::InvalidKey("CampaignDefs".to_string(), "GARBAGE".to_string())
    );
}

#[test]
fn presence_flag_ignores_parameters() {
    // The presence convention: the key line alone sets the flag, whatever
    // its parameters say.
    let data = "CAMPAIGN_DEF\nMULTIPLAYER_ACTIVE 0\nDISABLE_HELP_TIPS\n";
    let defs = parse_campaigns(data).unwrap();
    assert!(defs.campaign_defs[0].multiplayer_active);
    assert!(defs.campaign_defs[0].disable_help_tips);
}

#[test]
fn malformed_numeric_defaults_to_zero() {
    let data = "CAMPAIGN_DEF\nPLAYTEST_FUNDS abc\nENEMY_GRENADE_USE_CHANCE 12\n";
    let defs = parse_campaigns(data).unwrap();
    assert_eq!(defs.campaign_defs[0].playtest_funds, 0);
    assert_eq!(defs.campaign_defs[0].enemy_grenade_use_chance, 12);
}

#[test]
fn repeated_children_accumulate() {
    let data = "CAMPAIGN_DEF\nEMITTER_CONFIG smoke fx_smoke\nEMITTER_CONFIG fire fx_fire\nCLOTHING_INFILTRATION_MOD suit 3 4\nPOST_ACTION cleanup\nPRECONDITION has_key door\n";
    let defs = parse_campaigns(data).unwrap();
    let c = &defs.campaign_defs[0];
    assert_eq!(c.emitter_configs.len(), 2);
    assert_eq!(c.emitter_configs[0].name, "smoke");
    assert_eq!(c.emitter_configs[0].config, "fx_smoke");
    assert_eq!(c.emitter_configs[1].name, "fire");
    assert_eq!(c.clothing_infiltration_mods.len(), 1);
    assert_eq!(c.clothing_infiltration_mods[0].v1, 3);
    assert_eq!(c.clothing_infiltration_mods[0].v2, 4);
    assert_eq!(c.post_actions.len(), 1);
    assert_eq!(c.post_actions[0].name, "cleanup");
    assert!(c.post_actions[0].params.is_empty());
    assert_eq!(c.preconditions.len(), 1);
    assert_eq!(c.preconditions[0].params, vec!["door"]);
}

#[test]
fn parse_is_deterministic() {
    let data = "CAMPAIGN_DEF\nBASENAME a\nTITLE \"T\"\nMULTIPLAYER_FUNDS 1 2 3\nPRE_ACTION go\nCAMPAIGN_DEF\nBASENAME b\n";
    let a = parse_campaigns(data).unwrap();
    let b = parse_campaigns(data).unwrap();
    assert_eq!(a, b);
}

#[test]
fn campaigns_root_reads_the_same_deck() {
    let data = "CAMPAIGN_DEF\nBASENAME training\n";
    let mut reader = ConfigReader::new(data.as_bytes().to_vec()).unwrap();
    let campaigns = Campaigns::from_config(&mut reader).unwrap();
    assert_eq!(campaigns.campaign_defs.len(), 1);
    assert_eq!(campaigns.campaign_defs[0].base_name, "training");
}
