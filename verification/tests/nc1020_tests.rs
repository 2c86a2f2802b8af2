use wqxemu::cpu::{Cpu, CpuBus};
use wqxemu::machine::{MachineError, RomFiles};
use wqxemu::nc1020::Nc1020Machine;

fn empty_machine() -> Nc1020Machine {
    Nc1020Machine::new(&RomFiles::default()).unwrap()
}

fn pattern(len: usize) -> Vec<u8> {
    (0..len).map(|i| (i * 13 + i / 509) as u8).collect()
}

#[test]
fn nc1020_ram_reads_back_what_the_cpu_wrote() {
    let mut m = empty_machine();
    m.write(0x1234, 0x56);
    assert_eq!(m.read(0x1234), 0x56);
    assert_eq!(m.peek(0x1234), 0x56);
    m.write(0x3FFF, 0x9A);
    assert_eq!(m.peek_u16(0x3FFE), 0x9A00);
}

#[test]
fn nc1020_nor_dump_round_trips() {
    let mut m = empty_machine();
    let dump = pattern(0x10_0000);
    m.load_nor_data(&dump).unwrap();
    assert_eq!(m.save_nor_data(), dump);
    assert_eq!(
        m.load_nor_data(&dump[..100]),
        Err(MachineError::NorTooSmall { expected: 0x10_0000, got: 100 })
    );
}

#[test]
fn nc1020_rom_is_half_swapped_on_load() {
    let mut rom = vec![0u8; 0x180_0000];
    rom[0x4000] = 0x11; // second half of bank 0 in the dump
    rom[0] = 0x22;
    let m = Nc1020Machine::new(&RomFiles::new(Some(rom), None, None, None)).unwrap();
    assert_eq!(m.rom[0], 0x11);
    assert_eq!(m.rom[0x4000], 0x22);
}

#[test]
fn nc1020_step_takes_instruction_cycles() {
    let mut m = empty_machine();
    let mut cpu = Cpu::new();
    cpu.pc = 0x0200;
    m.write(0x0200, 0xEA); // NOP in RAM
    let n = m.step(&mut cpu);
    assert!(n >= 2);
    assert_eq!(cpu.pc, 0x0201);
}

#[test]
fn nc1020_keypad_scan_is_latched_into_register_8() {
    let mut m = empty_machine();
    m.set_key(0x0A, true); // row 2, column 1
    m.write(0x09, 0x04);
    assert_eq!(m.memory.io[0x09], 0x04);
    assert_eq!(m.memory.io[0x08], 0x02);
    m.write(0x09, 0x03); // not a single row
    assert_eq!(m.memory.io[0x08], 0xFF);
}

#[test]
fn nc1020_bank_register_selects_the_bank() {
    let mut m = empty_machine();
    m.write(0x00, 0x05);
    assert_eq!(m.memory.io[0x00], 0x05);
    assert_eq!(m.memory.current_bank, 0x05);
    assert!(m.memory.bank_writable);
    m.write(0x00, 0x25);
    assert_eq!(m.memory.current_bank, 0x25);
    assert!(!m.memory.bank_writable);
}

#[test]
fn nc1020_clock_index_0b_latches_register_3d() {
    let mut m = empty_machine();
    m.write(0x3E, 0x0B);
    m.write(0x3F, 0x12);
    assert_eq!(m.memory.io[0x3D], 0xF8);
    assert_eq!(m.memory.io[0x3F], 0x12);
}

#[test]
fn nc1020_writes_to_the_rom_window_change_nothing() {
    let mut m = empty_machine();
    let before = m.peek(0x9000);
    m.write(0x9000, before.wrapping_add(1));
    assert_eq!(m.peek(0x9000), before);
}
