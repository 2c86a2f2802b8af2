use wqxemu::lcd::{Lcd, LCD_BUFFER_SIZE, LCD_HEIGHT, LCD_PIXELS, LCD_WIDTH};

#[test]
fn persistence_blends_alternating_subframes() {
    let mut lcd = Lcd::new();
    let off = vec![0; LCD_BUFFER_SIZE];
    let on = vec![0xFF; LCD_BUFFER_SIZE];

    for frame in 0..120 {
        let source = if frame % 2 == 0 { &on } else { &off };
        assert!(lcd.copy_from_with_persistence(source, 0));
    }
    let first = lcd.framebuffer_xrgb8888()[0] & 0xFF;
    assert!(lcd.copy_from_with_persistence(&on, 0));
    let second = lcd.framebuffer_xrgb8888()[0] & 0xFF;

    assert!((64..224).contains(&first));
    assert!(first.abs_diff(second) < 32);
}

#[test]
fn new_lcd_is_blank_white() {
    let lcd = Lcd::new();
    assert_eq!(LCD_WIDTH * LCD_HEIGHT, LCD_PIXELS);
    assert_eq!(lcd.framebuffer_raw().len(), LCD_BUFFER_SIZE);
    assert!(lcd.framebuffer_raw().iter().all(|&b| b == 0));
    let px = lcd.framebuffer_xrgb8888();
    assert_eq!(px.len(), LCD_PIXELS);
    assert!(px.iter().all(|&p| p == 0xFFFF_FFFF));
}

#[test]
fn copy_without_persistence_is_exact() {
    let mut lcd = Lcd::new();
    let mut ram = vec![0u8; 0x2000];
    ram[0x100] = 0x80; // first pixel of the frame at 0x100
    assert!(lcd.copy_from(&ram, 0x100));
    assert_eq!(lcd.framebuffer_raw()[0], 0x80);
    let px = lcd.framebuffer_xrgb8888();
    assert_eq!(px[0], 0xFF00_0000); // lit pixel is black
    assert_eq!(px[1], 0xFFFF_FFFF); // unlit pixel is white
    let rgba = lcd.framebuffer_rgba8888();
    assert_eq!(&rgba[0..8], &[0, 0, 0, 0xFF, 0xFF, 0xFF, 0xFF, 0xFF]);
}

#[test]
fn copy_out_of_range_changes_nothing() {
    let mut lcd = Lcd::new();
    let ram = vec![0xFFu8; 100];
    assert!(!lcd.copy_from(&ram, 0));
    assert!(!lcd.copy_from_with_persistence(&ram, 0));
    assert!(lcd.framebuffer_raw().iter().all(|&b| b == 0));
}

#[test]
fn persistence_fades_one_step_at_a_time() {
    let mut lcd = Lcd::new();
    let on = vec![0xFF; LCD_BUFFER_SIZE];
    assert!(lcd.copy_from_with_persistence(&on, 0));
    // 255 -> 255 - 255 / 6 = 213
    assert_eq!(lcd.framebuffer_xrgb8888()[0] & 0xFF, 213);
    let off = vec![0; LCD_BUFFER_SIZE];
    assert!(lcd.copy_from_with_persistence(&off, 0));
    // 213 -> 213 + (255 - 213) / 8 = 218
    assert_eq!(lcd.framebuffer_xrgb8888()[0] & 0xFF, 218);
}
