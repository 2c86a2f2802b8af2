use std::io::Read;
use wqxemu::cc800::{Cc800Machine, BANK_SIZE};
use wqxemu::cpu::{Cpu, RESET_VECTOR};
use wqxemu::lcd::CYCLES_PER_FRAME;
use wqxemu::machine::{MachineError, RomFiles};
use wqxemu::spdc::{NorCmd, Page};

// IO register indexes of the SPDC1016 family.
const BANK_SWITCH: u8 = 0x00;
const GENERAL_CTRL: u8 = 0x04;
const CLOCK_CTRL: u8 = 0x05;
const PORT1: u8 = 0x09;
const BIOS_BSW: u8 = 0x0A;
const VOLUME: u8 = 0x0D;
const ZP_BSW: u8 = 0x0F;
const PORT1_DIR: u8 = 0x15;

fn empty_machine() -> Cc800Machine {
    Cc800Machine::new(&RomFiles::new(None, None, None, None)).unwrap()
}

/// The bytes of a dump file.  `image`'s reader is a plain buffered file
/// reader until a format is asked of it.
fn read_dump(path: &std::path::Path) -> Option<Vec<u8>> {
    let mut reader = image::ImageReader::open(path).ok()?.into_inner();
    let mut data = Vec::new();
    reader.read_to_end(&mut data).ok()?;
    Some(data)
}

/// The firmware dumps, or None when they are not present (tests then skip).
fn cc800_rom_files() -> Option<RomFiles> {
    let base = std::path::Path::new(r"E:\Code\WQXEmu\roms\cc800");
    let rom = base.join("obj.bin");
    let nor = base.join("cc800.fls");
    if rom.exists() && nor.exists() {
        Some(RomFiles::new(read_dump(&rom), read_dump(&nor), None, None))
    } else {
        None
    }
}

fn run_frame(machine: &mut Cc800Machine, cpu: &mut Cpu) {
    let mut acc = 0u64;
    while acc < CYCLES_PER_FRAME {
        acc += machine.step(cpu);
    }
    machine.end_of_frame(cpu);
}

#[test]
fn cc800_bank0_boot_maps_ram_and_rom() {
    let m = empty_machine();
    assert_eq!(m.map_addr(0x4000), Page::Ram(0x4000));
    assert_eq!(m.map_addr(0x6000), Page::Ram(0x4000));
    assert_eq!(m.map_addr(0x8000), Page::Rom(0x4000));
    assert_eq!(m.map_addr(0xA000), Page::Rom(0x6000));
    assert_eq!(m.map_addr(0xC000), Page::Rom(0x0000));
    assert_eq!(m.map_addr(0xE000), Page::Rom(0x2000));
    // Reset vector lives in the fixed BIOS page (bank 0 + 0x2000).
    assert_eq!(m.map_addr(0xFFFC), Page::Rom(0x3FFC));
}

#[test]
fn cc800_bank_switch_selects_rom_bank() {
    let mut m = empty_machine();
    m.io_write(BANK_SWITCH, 0x01);
    assert_eq!(m.map_addr(0x4000), Page::Rom(0x8000));
    assert_eq!(m.map_addr(0x8000), Page::Rom(0xC000));
    m.io_write(VOLUME, 0x01);
    m.io_write(BANK_SWITCH, 0x00);
    assert_eq!(m.map_addr(0x8000), Page::Rom(0x800000 + 0x4000));
    assert_eq!(m.map_addr(0x4000), Page::Nor(0x0000));
    assert_eq!(m.map_addr(0x6000), Page::Nor(0x2000));
}

#[test]
fn cc800_roa_selects_nor_bank() {
    let mut m = empty_machine();
    m.io_write(BIOS_BSW, 0x80);
    m.io_write(BANK_SWITCH, 0x03);
    assert_eq!(m.map_addr(0x4000), Page::Nor(3 * BANK_SIZE));
    assert_eq!(m.map_addr(0x8000), Page::Nor(3 * BANK_SIZE + 0x4000));
}

#[test]
fn cc800_zero_page_switch() {
    let mut m = empty_machine();
    assert_eq!(m.map_addr(0x40), Page::Ram(0x40));
    m.io_write(ZP_BSW, 0x02);
    assert_eq!(m.map_addr(0x40), Page::Ram(0x00));
    m.io_write(ZP_BSW, 0x05);
    assert_eq!(m.map_addr(0x40), Page::Ram(0x240));
}

#[test]
fn keyboard_scan_rows() {
    let mut m = empty_machine();
    // Firmware scan: port1 drives rows, port0 columns receive.
    m.io_write(PORT1_DIR, 0xFF);
    m.io_write(PORT1, 0x20); // select row 5
    m.io_write(ZP_BSW, 0x00); // port0 all inputs
    m.set_key(5 << 3 | 2, true); // row 5, col 2
    m.update_keypad_registers();
    assert_eq!(m.r08_port0_id, 0x04); // column 2 conducted
    m.set_key(5 << 3 | 2, false);
    m.update_keypad_registers();
    assert_eq!(m.r08_port0_id, 0x00);

    // Hotkey row (row 1) via the inverted 0x02 scan.
    m.set_key(1 << 3 | 3, true);
    m.io_write(PORT1, 0x02);
    let data = m.hotkey_row_data(1);
    assert_eq!(data & 0x08, 0); // pressed bit is cleared
    assert_ne!(data, 0xFF);
}

#[test]
fn cc800_nor_byte_program() {
    let mut m = empty_machine();
    m.io_write(BIOS_BSW, 0x80);
    m.io_write(BANK_SWITCH, 0x00);
    m.bus_write(0x5555, 0xAA);
    m.bus_write(0xAAAA, 0x55);
    m.bus_write(0x5555, 0xA0);
    m.bus_write(0x4234, 0x5A); // 0x4234 -> nor[0x0000 + 0x0234]
    assert_eq!(m.nor[0x0234], 0x5A);
}

#[test]
fn cc800_timer_start_stop_reads() {
    let mut m = empty_machine();
    m.io_write(CLOCK_CTRL, 0x77);
    // CC800 timer reads return the corresponding IO register.
    assert_eq!(m.bus_read(0x05), 0x77); // start timer0
    assert!(m.timers.timer0run);
    m.io_write(GENERAL_CTRL, 0x55);
    assert_eq!(m.bus_read(0x04), 0x55); // stop timer0
    assert!(!m.timers.timer0run);
}

#[test]
fn cc800_boot_runs_real_firmware() {
    let Some(files) = cc800_rom_files() else {
        println!("skipping: CC800 dumps not present");
        return;
    };
    let mut machine = Cc800Machine::new(&files).unwrap();
    machine.reset();
    let mut cpu = Cpu::new();
    cpu.reset(machine.peek_u16(RESET_VECTOR));
    println!("reset vector: {:04X}", cpu.pc);
    assert_eq!(cpu.pc, 0xFFF4);

    let mut steps = 0u64;
    for _ in 0..3 {
        let mut acc = 0u64;
        while acc < CYCLES_PER_FRAME {
            let pc_before = cpu.pc;
            let c = machine.step(&mut cpu);
            assert!(c > 0, "step returned 0 at pc={:04X}", pc_before);
            acc += c;
            steps += 1;
        }
        machine.end_of_frame(&mut cpu);
    }
    println!("3 frames, {} instructions, pc={:04X}", steps, cpu.pc);
    assert!(cpu.pc != 0);
}

#[test]
fn cc800_boot_draws_lcd() {
    let Some(files) = cc800_rom_files() else {
        println!("skipping: CC800 dumps not present");
        return;
    };
    let mut machine = Cc800Machine::new(&files).unwrap();
    machine.reset();
    let mut cpu = Cpu::new();
    cpu.reset(machine.peek_u16(RESET_VECTOR));

    let mut max_nonzero = 0;
    for frame in 0..120 {
        run_frame(&mut machine, &mut cpu);
        let nz = machine.lcd.framebuffer_raw().iter().filter(|&&b| b != 0).count();
        max_nonzero = max_nonzero.max(nz);
        if frame % 20 == 0 {
            println!(
                "frame {:3}: pc={:04X} lcd_nonzero={} bank={:02X} roa={:02X} vol={:02X}",
                frame, cpu.pc, nz, machine.io[0x00], machine.io[0x0A], machine.io[0x0D]
            );
        }
    }
    println!("max LCD nonzero bytes: {}", max_nonzero);
    assert!(max_nonzero > 50, "boot should draw the logo/menu");
}

#[test]
fn cc800_menu_responds_to_keys() {
    let Some(files) = cc800_rom_files() else {
        println!("skipping: CC800 dumps not present");
        return;
    };
    let mut machine = Cc800Machine::new(&files).unwrap();
    machine.reset();
    let mut cpu = Cpu::new();
    cpu.reset(machine.peek_u16(RESET_VECTOR));

    for _ in 0..100 {
        run_frame(&mut machine, &mut cpu);
    }
    let before = machine.lcd.framebuffer_raw().to_vec();
    machine.set_key(6 << 3 | 3, true);
    for _ in 0..8 {
        run_frame(&mut machine, &mut cpu);
    }
    machine.set_key(6 << 3 | 3, false);
    for _ in 0..8 {
        run_frame(&mut machine, &mut cpu);
    }
    let after = machine.lcd.framebuffer_raw().to_vec();
    let diff = before.iter().zip(after.iter()).filter(|(a, b)| a != b).count();
    println!("LCD bytes changed after Down key: {}", diff);
    assert!(diff > 0, "pressing Down should change the menu selection");
}

#[test]
fn cc800_short_dumps_are_refused() {
    let r = Cc800Machine::new(&RomFiles::new(Some(vec![0u8; 16]), None, None, None));
    assert!(matches!(r, Err(MachineError::RomTooSmall { .. })));
    let r = Cc800Machine::new(&RomFiles::new(None, Some(vec![0u8; 16]), None, None));
    assert!(matches!(r, Err(MachineError::NorTooSmall { .. })));
}

#[test]
fn cc800_nor_software_id_and_exit() {
    let mut m = empty_machine();
    m.io_write(BIOS_BSW, 0x80);
    m.io_write(BANK_SWITCH, 0x00);
    m.bus_write(0x5555, 0xAA);
    m.bus_write(0xAAAA, 0x55);
    m.bus_write(0x5555, 0x90);
    assert_eq!(m.fp_type, NorCmd::SwId);
    m.bus_write(0x5555, 0xF0);
    assert_eq!(m.fp_type, NorCmd::NoCommand);
}

#[test]
fn cc800_nor_save_load_round_trip() {
    let mut m = empty_machine();
    m.nor[0x1234] = 0xAB;
    m.nor[0x4_1234] = 0xCD;
    let dump = m.save_nor_data();
    let mut n = empty_machine();
    n.load_nor_data(&dump).unwrap();
    assert_eq!(n.nor[0x1234], 0xAB);
    assert_eq!(n.nor[0x4_1234], 0xCD);
}

#[test]
fn cc800_ram_reads_back_what_the_cpu_wrote() {
    let mut m = empty_machine();
    m.bus_write(0x1234, 0x56);
    assert_eq!(m.bus_read(0x1234), 0x56);
    m.bus_write(0x0567, 0x9A);
    assert_eq!(m.bus_read(0x0567), 0x9A);
}
