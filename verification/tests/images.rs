//! Image catalog parsing: end-key sections and animation records.

use shadow_company_tools::config::{ConfigReader, ParseConfigError};
use shadow_company_tools::image_defs::ImageDefs;

fn parse_images(data: &str) -> Result<ImageDefs, ParseConfigError> {
    let mut reader = ConfigReader::new(data.as_bytes().to_vec()).unwrap();
    ImageDefs::from_config(&mut reader)
}

#[test]
fn end_key_consumes_sentinel() {
    // The sprite section ends at ENDDEF, the sentinel itself is consumed,
    // and the line after it belongs to the catalog again.
    let data = "SPRITE3D spr tex.bmp 64 64 1\nSPRITEFRAME 0 0 8 8\nSPRITEFRAME 8 0 16 8\nENDDEF\nIMAGE img file.bmp 0\n";
    let defs = parse_images(data).unwrap();
    assert_eq!(defs.sprite_3ds.len(), 1);
    let s = &defs.sprite_3ds[0];
    assert_eq!(s.name, "spr");
    assert_eq!(s.texture_name, "tex.bmp");
    assert_eq!(s.texture_width, 64);
    assert_eq!(s.texture_height, 64);
    assert_eq!(s.alpha, 1);
    assert_eq!(s.sprite_frames.len(), 2);
    assert_eq!(s.sprite_frames[0].x2, 8);
    assert_eq!(s.sprite_frames[1].x1, 8);
    assert_eq!(defs.images.len(), 1);
    assert_eq!(defs.images[0].name, "img");
    assert_eq!(defs.images[0].filename, "file.bmp");
}

#[test]
fn empty_sprite_section() {
    // A section whose first body line is already the sentinel holds nothing.
    let data = "SPRITE3D spr tex.bmp 64 64 1\nENDDEF\n";
    let defs = parse_images(data).unwrap();
    assert_eq!(defs.sprite_3ds.len(), 1);
    assert!(defs.sprite_3ds[0].sprite_frames.is_empty());
}

#[test]
fn sprite_section_without_sentinel_ends_at_stream_end() {
    let data = "SPRITE3D spr tex.bmp 64 64 1\nSPRITEFRAME 0 0 8 8\n";
    let defs = parse_images(data).unwrap();
    assert_eq!(defs.sprite_3ds[0].sprite_frames.len(), 1);
}

#[test]
fn anim_sprite_body() {
    let data = "ANIMSPRITE walk sheet.bmp 128 128\nFRAMEDESCRIPTOR 4 16 12\nFRAMEORDER 0 1 x 2\nSPRITEFRAME 0 0 32 32\nSPRITEFRAME_XRUN 0 0 32 32 4\nSPRITEFRAME_DXRUN 0 0 2 32 4 30\nENDDEF\n";
    let defs = parse_images(data).unwrap();
    assert_eq!(defs.anim_sprites.len(), 1);
    let a = &defs.anim_sprites[0];
    assert_eq!(a.name, "walk");
    assert_eq!(a.width, 128);
    assert_eq!(a.frame_descriptor.num_images, 4);
    assert_eq!(a.frame_descriptor.num_frames, 16);
    assert_eq!(a.frame_descriptor.frame_rate, 12);
    // A malformed index in a frame order is dropped, not zeroed.
    assert_eq!(a.frame_orders.len(), 1);
    assert_eq!(a.frame_orders[0].order, vec![0, 1, 2]);
    assert_eq!(a.sprite_frames.len(), 1);
    assert_eq!(a.sprite_frame_xruns.len(), 1);
    assert_eq!(a.sprite_frame_xruns[0].num_frames, 4);
    assert_eq!(a.sprite_frame_dxruns.len(), 1);
    assert_eq!(a.sprite_frame_dxruns[0].dx, 30);
}

#[test]
fn junk_inside_delimited_section_is_fatal() {
    let data = "SPRITE3D spr tex.bmp 64 64 1\nWHAT_IS_THIS 1\nENDDEF\n";
    let err = parse_images(data).unwrap_err();
    assert_eq!(
        err,
        ParseConfigError::InvalidKey("Sprite3d".to_string(), "WHAT_IS_THIS".to_string())
    );
}
