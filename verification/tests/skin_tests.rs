use std::io::Cursor;

use wqxemu::key_ids;
use wqxemu::lcd::LCD_PIXELS;
use wqxemu::machine::MachineModel;
use wqxemu::skin::{
    blend_rgba, key_id_for, key_region, skin_from_rgba, skin_hit_test, skin_render, spec_for, DeviceSkin, KeyDef,
    Rect, SkinError, SkinInput,
};

const WHITE: u32 = 0x00FF_FFFF;

fn full_size_skin(model: MachineModel) -> DeviceSkin {
    DeviceSkin {
        model,
        width: 1086,
        height: 1448,
        pixels: vec![WHITE; 1086 * 1448],
        spec: spec_for(model),
    }
}

fn keyboard_key() -> KeyDef {
    KeyDef { row: 1, col: 2, drow: 2, dcol: 0 }
}

fn encode_png(width: u32, height: u32) -> Vec<u8> {
    let picture = image::RgbaImage::new(width, height);
    let mut bytes = Cursor::new(Vec::new());
    picture.write_to(&mut bytes, image::ImageFormat::Png).unwrap();
    bytes.into_inner()
}

#[test]
fn centered_rect_saturates_at_the_origin() {
    assert_eq!(Rect::centered(10, 10, 82, 52), Rect { x: 0, y: 0, width: 82, height: 52 });
    assert_eq!(Rect::centered(105, 950, 82, 52), Rect { x: 64, y: 924, width: 82, height: 52 });
    assert!(Rect::centered(105, 950, 82, 52).contains(64, 924));
    assert!(!Rect::centered(105, 950, 82, 52).contains(146, 924));
}

#[test]
fn key_ids_follow_each_models_matrix_order() {
    assert_eq!(key_id_for(MachineModel::Nc1020, 1, 2), 17);
    assert_eq!(key_id_for(MachineModel::Pc1000, 1, 2), 10);
    assert_eq!(key_id_for(MachineModel::Nc2000, 7, 7), 63);
}

#[test]
fn nc1020_skin_buttons_hit_reset_and_function_keys() {
    let skin = full_size_skin(MachineModel::Nc1020);
    assert_eq!(skin_hit_test(&skin, 295, 970, &[]), Some(SkinInput::Reset));
    assert_eq!(skin_hit_test(&skin, 105, 950, &[]), Some(SkinInput::Key(key_ids::F10)));
    assert_eq!(skin_hit_test(&skin, 203, 950, &[]), Some(SkinInput::Key(key_ids::F11)));
    assert_eq!(skin_hit_test(&skin, 0, 0, &[]), None);
    assert_eq!(skin_hit_test(&skin, 1086, 10, &[]), None);
    assert_eq!(skin_hit_test(&skin, 10, 1448, &[]), None);
}

#[test]
fn function_buttons_belong_to_the_nc1020_alone() {
    let skin = full_size_skin(MachineModel::Pc1000);
    assert_eq!(skin_hit_test(&skin, 295, 970, &[]), None);
}

#[test]
fn layout_keys_are_hit_by_their_drawn_region() {
    let skin = full_size_skin(MachineModel::Nc1020);
    let layout = [keyboard_key()];
    assert_eq!(key_region(MachineModel::Nc1020, &layout[0]), Some(Rect::centered(105, 1033, 82, 61)));
    assert_eq!(skin_hit_test(&skin, 105, 1033, &layout), Some(SkinInput::Key(17)));
    assert_eq!(skin_hit_test(&skin, 105, 1100, &layout), None);
}

#[test]
fn hit_test_scales_window_positions_to_the_source_picture() {
    let skin = DeviceSkin {
        model: MachineModel::Nc1020,
        width: 543,
        height: 724,
        pixels: vec![WHITE; 543 * 724],
        spec: spec_for(MachineModel::Nc1020),
    };
    assert_eq!(skin_hit_test(&skin, 52, 475, &[]), Some(SkinInput::Key(key_ids::F10)));
}

#[test]
fn render_draws_the_lcd_in_the_models_shades() {
    let skin = full_size_skin(MachineModel::Nc1020);
    let pressed = [false; 64];
    let bright = skin_render(&skin, &vec![0x00FF_FFFF; LCD_PIXELS], &[], &pressed);
    assert_eq!(bright.len(), 1086 * 1448);
    assert_eq!(bright[113 * 1086 + 95], 0x0090_A872);
    assert_eq!(bright[0], WHITE);
    let dark = skin_render(&skin, &vec![0; LCD_PIXELS], &[], &pressed);
    assert_eq!(dark[113 * 1086 + 95], 0x0010_220B);
    assert_eq!(dark[452 * 1086 + 789], 0x0010_220B);
    assert_eq!(dark[453 * 1086 + 789], WHITE);
}

#[test]
fn render_dims_pressed_keys() {
    let skin = full_size_skin(MachineModel::Nc1020);
    let lcd = vec![0x00FF_FFFF; LCD_PIXELS];
    let layout = [keyboard_key()];
    let mut pressed = [false; 64];
    pressed[17] = true;
    pressed[key_ids::F10 as usize] = true;
    let out = skin_render(&skin, &lcd, &layout, &pressed);
    assert_eq!(out[1033 * 1086 + 105], 0x00BF_BFBF);
    assert_eq!(out[950 * 1086 + 105], 0x00BF_BFBF);
    assert_eq!(out[950 * 1086 + 203], WHITE);
    assert_eq!(out[0], WHITE);
}

#[test]
fn overlapping_pressed_keys_dim_twice() {
    let skin = full_size_skin(MachineModel::Nc1020);
    let lcd = vec![0x00FF_FFFF; LCD_PIXELS];
    let layout = [keyboard_key(), keyboard_key()];
    let mut pressed = [false; 64];
    pressed[17] = true;
    let out = skin_render(&skin, &lcd, &layout, &pressed);
    assert_eq!(out[1033 * 1086 + 105], 0x008F_8F8F);
}

#[test]
fn blending_lays_pixels_over_the_window_background() {
    let out = blend_rgba(&[255, 0, 0, 255, 0, 0, 0, 0, 100, 50, 25, 128, 7]);
    assert_eq!(out, vec![0x00FF_0000, 0x00F0_F0F0, 0x00AA_9184]);
}

#[test]
fn skin_from_rgba_checks_size_then_scale() {
    assert_eq!(
        skin_from_rgba(MachineModel::Nc1020, 4, 10, 10, vec![0; 400]).err(),
        Some(SkinError::WrongSize { width: 10, height: 10 })
    );
    let picture = vec![0; 4 * 1086 * 1448];
    assert_eq!(skin_from_rgba(MachineModel::Nc1020, 0, 1086, 1448, picture.clone()).err(), Some(SkinError::ZeroScale));
    assert_eq!(
        skin_from_rgba(MachineModel::Nc1020, u32::MAX, 1086, 1448, picture).err(),
        Some(SkinError::TooLarge)
    );
}

#[test]
fn skin_from_rgba_scales_to_150_pixels_per_step() {
    let skin = skin_from_rgba(MachineModel::Pc1000, 1, 1086, 1448, vec![0; 4 * 1086 * 1448]).unwrap();
    assert_eq!((skin.width(), skin.height()), (112, 150));
    assert_eq!(skin.pixels.len(), 112 * 150);
    assert!(skin.pixels.iter().all(|p| *p == 0x00F0_F0F0));
    assert_eq!(skin.spec, spec_for(MachineModel::Pc1000));
}

#[test]
fn loading_reports_undecodable_and_misshapen_pictures() {
    assert_eq!(DeviceSkin::load(MachineModel::Nc1020, 4, b"not a picture").err(), Some(SkinError::Decode));
    assert_eq!(
        DeviceSkin::load(MachineModel::Nc1020, 4, &encode_png(10, 12)).err(),
        Some(SkinError::WrongSize { width: 10, height: 12 })
    );
}

#[test]
fn loading_a_transparent_picture_gives_the_window_background() {
    let skin = DeviceSkin::load(MachineModel::Cc800, 2, &encode_png(1086, 1448)).unwrap();
    assert_eq!((skin.width(), skin.height()), (225, 300));
    assert_eq!(skin.pixels.len(), 225 * 300);
    assert!(skin.pixels.iter().all(|p| *p == 0x00F0_F0F0));
}
