use wqxemu::input::Input;
use wqxemu::memory::{MemRegion, Memory};

#[test]
fn any_row_7_key_clears_the_keypad_status() {
    let mut i = Input::new();
    assert_eq!(i.keypad_status(), 1);
    i.set_key(0x07, true); // row 7, column 0
    assert_eq!(i.keypad_status(), 0);
    assert_eq!(i.read_keypad(0x00), 0);
    i.set_key(0x07, false);
    assert_eq!(i.keypad_status(), 1);
    assert_eq!(i.read_keypad(0x00), 1);
}

#[test]
fn bbs_page_sits_at_0xc000_and_bios_page_at_0xe000() {
    let mut m = Memory::new();
    let rom = vec![0u8; 0x180_0000];
    m.write_roa_bbs(0x03);
    m.write_volume(0x01, &rom);
    assert_eq!(m.map_address(0xC010), (MemRegion::Bbs, 3 * 0x2000 + 0x10));
    assert_eq!(m.map_address(0xE123), (MemRegion::Rom, 0x100 * 0x8000 + 0x2000 + 0x123));
    m.write_bank_switch(0x02);
    assert_eq!(m.map_address(0x4000), (MemRegion::Nor, 2 * 0x8000));
    assert_eq!(m.map_address(0xA001), (MemRegion::Nor, 2 * 0x8000 + 0x6000 + 1));
    m.write_bank_switch(0x85);
    assert_eq!(m.map_address(0x8002), (MemRegion::Rom, (0x100 + 5) * 0x8000 + 0x4000 + 2));
    m.write_bank_switch(0x40);
    assert_eq!(m.map_address(0x6000).0, MemRegion::Invalid);
}

#[test]
fn zero_page_window_comes_back_from_the_backup() {
    let mut m = Memory::new();
    m.ram[0x40] = 0xAA;
    m.ram[0x2040] = 0xBB;
    m.switch_zp40(4);
    assert_eq!(m.ram[0x40], 0xBB);
    m.switch_zp40(0);
    assert_eq!(m.ram[0x40], 0xAA);
    assert_eq!(m.ram[0x2040], 0xBB);
}

#[test]
fn poke_writes_low_ram_only() {
    let mut m = Memory::new();
    m.poke(0x1234, 0x77);
    assert_eq!(m.peek(0x1234), 0x77);
    let before = m.ram.clone();
    m.poke(0x5000, 0x11);
    assert_eq!(m.ram, before);
}
