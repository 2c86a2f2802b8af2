use std::io::Read;
use wqxemu::cpu::{Cpu, RESET_VECTOR};
use wqxemu::lcd::CYCLES_PER_FRAME;
use wqxemu::machine::{MachineError, RomFiles};
use wqxemu::pc1000::{Pc1000Machine, BANK_SIZE};
use wqxemu::spdc::{NorCmd, Page};

// PC1000 IO register indexes.
const BANK_SWITCH: u8 = 0x00;
const INT_STATUS: usize = 0x01;
const TIMER0_VAL: u8 = 0x02;
const PORT0: usize = 0x08;
const PORT1: u8 = 0x09;
const BIOS_BSW: u8 = 0x0A;
const VOLUME: u8 = 0x0D;
const ZP_BSW: u8 = 0x0F;

fn empty_machine() -> Pc1000Machine {
    Pc1000Machine::new(&RomFiles::new(None, None, None, None)).unwrap()
}

/// The bytes of a dump file.  `image`'s reader is a plain buffered file
/// reader until a format is asked of it.
fn read_dump(path: &std::path::Path) -> Option<Vec<u8>> {
    let mut reader = image::ImageReader::open(path).ok()?.into_inner();
    let mut data = Vec::new();
    reader.read_to_end(&mut data).ok()?;
    Some(data)
}

/// The firmware dumps, or None when they are not present (tests then skip).
fn pc1000_rom_files() -> Option<RomFiles> {
    let base = std::path::Path::new(r"E:\Code\WQXEmu\roms\pc1000");
    let rom = base.join("pc1000.rom");
    let nor = base.join("pc1000.fls");
    if rom.exists() && nor.exists() {
        Some(RomFiles::new(read_dump(&rom), read_dump(&nor), None, None))
    } else {
        None
    }
}

fn run_frame(machine: &mut Pc1000Machine, cpu: &mut Cpu) {
    let mut acc = 0u64;
    while acc < CYCLES_PER_FRAME {
        acc += machine.step(cpu);
    }
    machine.end_of_frame(cpu);
}

#[test]
fn pc1000_bank0_boot_maps_ram_and_rom() {
    let m = empty_machine();
    assert_eq!(m.map_addr(0x4000), Page::Ram(0x4000));
    assert_eq!(m.map_addr(0x6000), Page::Ram(0x4000));
    assert_eq!(m.map_addr(0x8000), Page::Rom(0x0000));
    assert_eq!(m.map_addr(0xA000), Page::Rom(0x2000));
    assert_eq!(m.map_addr(0xC000), Page::Rom(0x4000));
    assert_eq!(m.map_addr(0xE000), Page::Rom(0x6000));
    // Reset vector lives in the fixed BIOS page (bank 0 + 0x6000).
    assert_eq!(m.map_addr(0xFFFC), Page::Rom(0x7FFC));
}

#[test]
fn pc1000_bank_switch_selects_rom_bank() {
    let mut m = empty_machine();
    m.io_write(BANK_SWITCH, 0x01);
    assert_eq!(m.map_addr(0x4000), Page::Rom(0xC000));
    assert_eq!(m.map_addr(0x8000), Page::Rom(0x8000));
    m.io_write(VOLUME, 0x01);
    m.io_write(BANK_SWITCH, 0x80);
    assert_eq!(m.map_addr(0x8000), Page::Rom(0x800000));
}

#[test]
fn pc1000_roa_selects_nor_bank() {
    let mut m = empty_machine();
    m.io_write(BIOS_BSW, 0x80);
    m.io_write(BANK_SWITCH, 0x03);
    assert_eq!(m.map_addr(0x4000), Page::Nor(3 * BANK_SIZE + 0x4000));
    assert_eq!(m.map_addr(0x8000), Page::Nor(3 * BANK_SIZE));
}

#[test]
fn pc1000_zero_page_switch() {
    let mut m = empty_machine();
    assert_eq!(m.map_addr(0x40), Page::Ram(0x40));
    m.io_write(ZP_BSW, 0x02);
    assert_eq!(m.map_addr(0x40), Page::Ram(0x00));
    m.io_write(ZP_BSW, 0x05);
    assert_eq!(m.map_addr(0x40), Page::Ram(0x240));
}

#[test]
fn keyboard_scan() {
    let mut m = empty_machine();
    m.set_key(5 << 3 | 2, true); // row 5, col 2
    m.io_write(PORT1, 0x20); // select row 5
    assert_eq!(m.io[PORT0], 0x04);
    m.set_key(5 << 3 | 2, false);
    m.io_write(PORT1, 0x20);
    assert_eq!(m.io[PORT0], 0x00);
}

#[test]
fn pc1000_nor_software_id() {
    let mut m = empty_machine();
    m.io_write(BIOS_BSW, 0x80);
    m.io_write(BANK_SWITCH, 0x00);
    m.bus_write(0x5555, 0xAA);
    m.bus_write(0xAAAA, 0x55);
    m.bus_write(0x5555, 0x90);
    assert_eq!(m.fp_type, NorCmd::SwId);
    assert_eq!(m.bus_read(0x8000), 0xBF);
    assert_eq!(m.bus_read(0x8001), 0xD7);
    m.bus_write(0x5555, 0xF0);
    assert_eq!(m.fp_type, NorCmd::NoCommand);
}

#[test]
fn nor_byte_program_and_block_erase() {
    let mut m = empty_machine();
    m.io_write(BIOS_BSW, 0x80);
    m.io_write(BANK_SWITCH, 0x00);
    // Byte program: AA 55 A0 data.
    m.bus_write(0x5555, 0xAA);
    m.bus_write(0xAAAA, 0x55);
    m.bus_write(0x5555, 0xA0);
    m.bus_write(0x5234, 0x5A); // 0x5234 -> nor[0x4000 + 0x1234]
    assert_eq!(m.nor[0x5234], 0x5A);

    // 4KB block erase: AA 55 80 AA 55 30.
    m.bus_write(0x5555, 0xAA);
    m.bus_write(0xAAAA, 0x55);
    m.bus_write(0x5555, 0x80);
    m.bus_write(0x5555, 0xAA);
    m.bus_write(0xAAAA, 0x55);
    m.bus_write(0x4234, 0x30); // erase block at nor[0x4000..0x4FFF]
    assert_eq!(m.nor[0x4234], 0xFF);
    assert_eq!(m.nor[0x5234], 0x5A); // next block untouched
}

#[test]
fn nor_save_restores_linear_dump() {
    let mut m = empty_machine();
    m.nor[0x1234] = 0xAB;
    let dump = m.save_nor_data();
    let mut n = empty_machine();
    n.load_nor_data(&dump).unwrap();
    assert_eq!(n.nor[0x1234], 0xAB);
    assert!(!n.nor_swapped);
}

#[test]
fn pc1000_timer_start_stop_reads() {
    let mut m = empty_machine();
    m.io_write(TIMER0_VAL, 0x10);
    // Reading 0x05 starts timer0 and returns the current count.
    assert_eq!(m.bus_read(0x05), 0x10);
    assert!(m.timers.timer0run);
    assert_eq!(m.bus_read(0x04), 0x10);
    assert!(!m.timers.timer0run);
}

#[test]
fn interrupt_status_read_clears() {
    let mut m = empty_machine();
    m.io[INT_STATUS] = 0x38;
    assert_eq!(m.bus_read(0x01), 0x38);
    assert_eq!(m.io[INT_STATUS], 0x00);
    // High bits are preserved.
    m.io[INT_STATUS] = 0xC1;
    assert_eq!(m.bus_read(0x01), 0xC1);
    assert_eq!(m.io[INT_STATUS], 0xC0);
}

#[test]
fn pc1000_boot_runs_real_firmware() {
    let Some(files) = pc1000_rom_files() else {
        println!("skipping: PC1000 dumps not present");
        return;
    };
    let mut machine = Pc1000Machine::new(&files).unwrap();
    machine.reset();
    let mut cpu = Cpu::new();
    cpu.reset(machine.peek_u16(RESET_VECTOR));
    println!("reset vector: {:04X}", cpu.pc);
    assert_eq!(cpu.pc, 0xFFF4);

    let mut steps = 0u64;
    for _ in 0..3 {
        let mut acc = 0u64;
        while acc < CYCLES_PER_FRAME {
            let pc_before = cpu.pc;
            let c = machine.step(&mut cpu);
            assert!(c > 0, "step returned 0 at pc={:04X}", pc_before);
            acc += c;
            steps += 1;
        }
        machine.end_of_frame(&mut cpu);
    }
    println!("3 frames, {} instructions, pc={:04X}", steps, cpu.pc);
    assert!(cpu.pc != 0);
}

#[test]
fn pc1000_boot_draws_lcd() {
    let Some(files) = pc1000_rom_files() else {
        println!("skipping: PC1000 dumps not present");
        return;
    };
    let mut machine = Pc1000Machine::new(&files).unwrap();
    machine.reset();
    let mut cpu = Cpu::new();
    cpu.reset(machine.peek_u16(RESET_VECTOR));

    let mut max_nonzero = 0;
    let mut last_pc = 0;
    for frame in 0..120 {
        run_frame(&mut machine, &mut cpu);
        let nz = machine.lcd.framebuffer_raw().iter().filter(|&&b| b != 0).count();
        max_nonzero = max_nonzero.max(nz);
        if frame % 10 == 0 {
            println!(
                "frame {:3}: pc={:04X} lcd_nonzero={} bank={:02X} roa={:02X} vol={:02X} lcdaddr={:04X}",
                frame, cpu.pc, nz, machine.io[0x00], machine.io[0x0A], machine.io[0x0D], machine.lcd_buff_addr
            );
        }
        last_pc = cpu.pc;
    }
    println!("max LCD nonzero bytes: {}", max_nonzero);
    println!("final pc: {:04X}", last_pc);
    assert!(max_nonzero > 50, "boot should draw the logo/menu");
}

#[test]
fn pc1000_menu_responds_to_keys() {
    let Some(files) = pc1000_rom_files() else {
        println!("skipping: PC1000 dumps not present");
        return;
    };
    let mut machine = Pc1000Machine::new(&files).unwrap();
    machine.reset();
    let mut cpu = Cpu::new();
    cpu.reset(machine.peek_u16(RESET_VECTOR));

    for _ in 0..100 {
        run_frame(&mut machine, &mut cpu);
    }
    let before = machine.lcd.framebuffer_raw().to_vec();
    machine.set_key(6 << 3 | 3, true);
    for _ in 0..8 {
        run_frame(&mut machine, &mut cpu);
    }
    machine.set_key(6 << 3 | 3, false);
    for _ in 0..8 {
        run_frame(&mut machine, &mut cpu);
    }
    let after = machine.lcd.framebuffer_raw().to_vec();
    let diff = before.iter().zip(after.iter()).filter(|(a, b)| a != b).count();
    println!("LCD bytes changed after Down key: {}", diff);
    assert!(diff > 0, "pressing Down should change the menu selection");
}

#[test]
fn pc1000_rom_size_is_checked() {
    let r = Pc1000Machine::new(&RomFiles::new(Some(vec![0u8; 100]), None, None, None));
    assert_eq!(r.err(), Some(MachineError::RomSizeInvalid { got: 100 }));
    let r = Pc1000Machine::new(&RomFiles::new(None, Some(vec![0u8; 100]), None, None));
    assert!(matches!(r, Err(MachineError::NorTooSmall { .. })));
}

#[test]
fn pc1000_nor_block_erase_leaves_other_blocks() {
    let mut m = empty_machine();
    m.io_write(BIOS_BSW, 0x80);
    m.io_write(BANK_SWITCH, 0x00);
    m.nor[0x4FFF] = 0x00;
    m.nor[0x5000] = 0x00;
    m.bus_write(0x5555, 0xAA);
    m.bus_write(0xAAAA, 0x55);
    m.bus_write(0x5555, 0x80);
    m.bus_write(0x5555, 0xAA);
    m.bus_write(0xAAAA, 0x55);
    m.bus_write(0x4000, 0x30);
    assert_eq!(m.nor[0x4FFF], 0xFF);
    assert_eq!(m.nor[0x5000], 0x00);
}

#[test]
fn pc1000_ram_reads_back_what_the_cpu_wrote() {
    let mut m = empty_machine();
    m.bus_write(0x1234, 0x56);
    assert_eq!(m.bus_read(0x1234), 0x56);
    m.bus_write(0x0567, 0x9A);
    assert_eq!(m.bus_read(0x0567), 0x9A);
}
