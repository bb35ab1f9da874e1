//! Map object decks: the flat key=value dialect.

use shadow_company_tools::config::{ConfigReader, ParseConfigError};
use shadow_company_tools::mtf::Mtf;

fn parse_mtf(data: &str) -> Result<Mtf, ParseConfigError> {
    let mut reader = ConfigReader::new(data.as_bytes().to_vec()).unwrap();
    Mtf::from_config(&mut reader)
}

#[test]
fn time_of_day_and_objects() {
    let data = "GAME_STATE_TIME_OF_DAY 10 30\nGAME_CONFIG_FOG_ENABLED 0.1 0.2 0.3 10.0 200.0 0\nOBJECT group model \"A Title\"\nOBJECT_INVENTORY inv model2 t2\n";
    let mtf = parse_mtf(data).unwrap();
    assert_eq!(mtf.time_of_day.hour, 10);
    assert_eq!(mtf.time_of_day.min, 30);
    assert_eq!(mtf.fog.f0, "0.1");
    assert_eq!(mtf.fog.f4, "200.0");
    assert_eq!(mtf.objects.len(), 1);
    assert_eq!(mtf.inventory_objects.len(), 1);
    // The deck declares no bindings for object fields: they stay default.
    assert_eq!(mtf.objects[0].id, [0, 0]);
    assert_eq!(mtf.objects[0].position, ["", "", ""]);
}

#[test]
fn unknown_deck_key_is_fatal() {
    let data = "OBJECT group model t\nOBJECT_POSITION 1.0 2.0 3.0\n";
    let err = parse_mtf(data).unwrap_err();
    assert_eq!(
        err,
        ParseConfigError::InvalidKey("Mtf".to_string(), "OBJECT_POSITION".to_string())
    );
}
