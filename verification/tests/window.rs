//! Window layout parsing: the full layout file, and start-key repetition.

use shadow_company_tools::config::ConfigReader;
use shadow_company_tools::window_base::WindowBases;

#[test]
fn parse() {
    let data = r#"
            ;;;;;;;;;;;;;;;;;;;;;;;;;;;;;;;;;;;;;;;;;;;;;;;;;;;;;;;;;;;;;;;;;;;;;;;;;;;;;;;;;
            ; main_menu.txt
            ;
            ; This configuration file defines the main menu window
            ;;;;;;;;;;;;;;;;;;;;;;;;;;;;;;;;;;;;;;;;;;;;;;;;;;;;;;;;;;;;;;;;;;;;;;;;;;;;;;;;;

            WINDOW_BASE main_menu
            WINDOW_BASE_DX          640
            WINDOW_BASE_DY          480
            WINDOW_BASE_RENDER_DX   0
            WINDOW_BASE_RENDER_DY   0

            DEFINE_BUTTON_ADVICE    view_container  0       0       640     480

            DEFINE_USER_IVAR button_offset_x    30
            DEFINE_USER_IVAR button_offset_y    5

            DEFINE_BUTTON_ADVICE    b_new_game      325     80      0       0
            DEFINE_BUTTON_ADVICE    b_load_game     320     120     0       0

            WINDOW_BASE_GEOMETRY_TILED
                GEOMETRY_JPG_NAME               frame2
                GEOMETRY_JPG_DIMENSIONS         640     512
                GEOMETRY_CHUNK_DIMENSIONS       128     128

            WINDOW_BASE_GEOMETRY_TILED
                GEOMETRY_JPG_NAME               frame1
                GEOMETRY_JPG_DIMENSIONS         640     512
                GEOMETRY_CHUNK_DIMENSIONS       128     128

            WINDOW_BASE_GEOMETRY
                GEOMETRY_TEXTURE                    interface_commando_1_ck.bmp
                GEOMETRY_TEXTURE_PACK_DX            128
                GEOMETRY_TEXTURE_PACK_DY            128
                GEOMETRY_BILINEAR_FILTERING         off

                ; helper line               x       y       r       g       b       a       u       v
                GEOMETRY_VERTICES           4
                    GEOMETRY_VERTEX         0       34      1.0     1.0     1.0     1.0     0       34
                    GEOMETRY_VERTEX         128     34      1.0     1.0     1.0     1.0     128     34
                    GEOMETRY_VERTEX         128     50      1.0     1.0     1.0     1.0     128     50
                    GEOMETRY_VERTEX         0       50      1.0     1.0     1.0     1.0     0       50

                GEOMETRY_POLYGONS           2
                    GEOMETRY_POLYGON        0       1       2
                    GEOMETRY_POLYGON        2       3       0
        "#;

    let mut reader = ConfigReader::new(data.as_bytes().to_vec())
        .expect("Failed to create config reader.");

    let window_bases =
        WindowBases::from_config(&mut reader).expect("Failed to read window base config file.");
    assert_eq!(window_bases.window_bases.len(), 1);
    let window_base = window_bases.window_bases.first().unwrap();
    assert_eq!(window_base.name.as_str(), "main_menu");
    assert_eq!(window_base.dx, 640);
    assert_eq!(window_base.dy, 480);
    assert_eq!(window_base.render_dx, 0);
    assert_eq!(window_base.render_dy, 0);

    assert_eq!(window_base.user_ivars.len(), 2);
    assert_eq!(window_base.user_ivars[0].name.as_str(), "button_offset_x");
    assert_eq!(window_base.user_ivars[0].value, 30);
    assert_eq!(window_base.user_ivars[1].name.as_str(), "button_offset_y");
    assert_eq!(window_base.user_ivars[1].value, 5);

    assert_eq!(window_base.geometry_tiled.len(), 2);
    assert_eq!(window_base.geometry_tiled[0].jpg_name.as_str(), "frame2");
    assert_eq!(window_base.geometry_tiled[0].jpg_dimensions, [640, 512]);
    assert_eq!(window_base.geometry_tiled[0].chunk_dimensions, [128, 128]);
    assert_eq!(window_base.geometry_tiled[1].jpg_name.as_str(), "frame1");
    assert_eq!(window_base.geometry_tiled[1].jpg_dimensions, [640, 512]);
    assert_eq!(window_base.geometry_tiled[1].chunk_dimensions, [128, 128]);
}

#[test]
fn geometry_block_contents() {
    let data = "WINDOW_BASE w\nWINDOW_BASE_GEOMETRY\nGEOMETRY_TEXTURE t.bmp\nGEOMETRY_VERTICES 1\nGEOMETRY_VERTEX 0 1 0.5 1.0 1.0 1.0 2 3\nGEOMETRY_POLYGONS 1\nGEOMETRY_POLYGON 0 1 2\n";
    let mut reader = ConfigReader::new(data.as_bytes().to_vec()).unwrap();
    let bases = WindowBases::from_config(&mut reader).unwrap();
    let g = &bases.window_bases[0].geometry[0];
    assert_eq!(g.texture, "t.bmp");
    assert_eq!(g.vertices.count, 1);
    assert_eq!(g.vertices.vertices.len(), 1);
    assert_eq!(g.vertices.vertices[0].x_pos, "0");
    assert_eq!(g.vertices.vertices[0].r, "0.5");
    assert_eq!(g.vertices.vertices[0].tv, "3");
    assert_eq!(g.polygons.count, 1);
    assert_eq!(g.polygons.polygons.len(), 1);
    assert_eq!(g.polygons.polygons[0].i1, 1);
}

#[test]
fn start_key_repetition() {
    // Two consecutive tiled blocks, each opened by the same start key, make
    // exactly two elements; the line after the second block still belongs to
    // the enclosing window.
    let data = "WINDOW_BASE w\nWINDOW_BASE_GEOMETRY_TILED\nGEOMETRY_JPG_NAME a\nGEOMETRY_JPG_DIMENSIONS 1 2\nGEOMETRY_CHUNK_DIMENSIONS 3 4\nWINDOW_BASE_GEOMETRY_TILED\nGEOMETRY_JPG_NAME b\nGEOMETRY_JPG_DIMENSIONS 5 6\nGEOMETRY_CHUNK_DIMENSIONS 7 8\nWINDOW_BASE_DX 640\n";
    let mut reader = ConfigReader::new(data.as_bytes().to_vec()).unwrap();
    let bases = WindowBases::from_config(&mut reader).unwrap();
    let wb = &bases.window_bases[0];
    assert_eq!(wb.geometry_tiled.len(), 2);
    assert_eq!(wb.geometry_tiled[0].jpg_name, "a");
    assert_eq!(wb.geometry_tiled[0].jpg_dimensions, [1, 2]);
    assert_eq!(wb.geometry_tiled[0].chunk_dimensions, [3, 4]);
    assert_eq!(wb.geometry_tiled[1].jpg_name, "b");
    assert_eq!(wb.geometry_tiled[1].jpg_dimensions, [5, 6]);
    assert_eq!(wb.geometry_tiled[1].chunk_dimensions, [7, 8]);
    assert_eq!(wb.dx, 640);
}

#[test]
fn window_parse_is_deterministic() {
    let data = "WINDOW_BASE w\nWINDOW_BASE_DX 10\nDEFINE_USER_IVAR a 1\n";
    let mut r1 = ConfigReader::new(data.as_bytes().to_vec()).unwrap();
    let mut r2 = ConfigReader::new(data.as_bytes().to_vec()).unwrap();
    let a = WindowBases::from_config(&mut r1).unwrap();
    let b = WindowBases::from_config(&mut r2).unwrap();
    assert_eq!(a, b);
}
