use std::io::Read;
use wqxemu::cpu::{Cpu, RESET_VECTOR};
use wqxemu::lcd::CYCLES_PER_FRAME;
use wqxemu::machine::{MachineError, RomFiles};
use wqxemu::nc2000::{Nc2000Machine, EXT_P0_PU, NAND0_PAGES, NAND_PAGE_SIZE};
use wqxemu::spdc::NorCmd;

// NC2000 IO register indexes.
const BANK_SWITCH: u8 = 0x00;
const PORT4: u8 = 0x18;
const NAND_DATA: u8 = 0x29;

const MAX_BOOT_FRAMES: u32 = 2000;

fn empty_machine() -> Nc2000Machine {
    Nc2000Machine::new(&RomFiles::new(None, None, None, None)).unwrap()
}

/// The bytes of a dump file.  `image`'s reader is a plain buffered file
/// reader until a format is asked of it.
fn read_dump(path: &std::path::Path) -> Option<Vec<u8>> {
    let mut reader = image::ImageReader::open(path).ok()?.into_inner();
    let mut data = Vec::new();
    reader.read_to_end(&mut data).ok()?;
    Some(data)
}

/// The firmware dumps, or None when they are not present (tests then skip).
fn nc2000_rom_files() -> Option<RomFiles> {
    let base = std::path::Path::new(r"E:\Code\WQXEmu\roms\nc2000");
    let nor = base.join("nc2000.nor");
    let nand = base.join("nc2000.nand");
    let nand0 = base.join("nc2000.nand0");
    if nor.exists() && nand.exists() && nand0.exists() {
        Some(RomFiles::new(None, read_dump(&nor), read_dump(&nand), read_dump(&nand0)))
    } else {
        None
    }
}

fn run_frame(machine: &mut Nc2000Machine, cpu: &mut Cpu) {
    let mut acc = 0u64;
    while acc < CYCLES_PER_FRAME {
        acc += machine.step(cpu);
    }
    machine.end_of_frame(cpu);
}

/// Send a NAND command with address bytes, then return to data mode.
fn nand_command(m: &mut Nc2000Machine, cmd: u8, addr: &[u8]) {
    m.io_write(PORT4, 0x01);
    m.io_write(NAND_DATA, cmd);
    if !addr.is_empty() {
        m.io_write(PORT4, 0x02);
        for &a in addr {
            m.io_write(NAND_DATA, a);
        }
    }
    m.io_write(PORT4, 0x00);
}

#[test]
fn nc2000_nor_software_id() {
    let mut m = empty_machine();
    m.io_write(BANK_SWITCH, 0x00);
    m.bus_write(0x5555, 0xAA);
    m.bus_write(0xAAAA, 0x55);
    m.bus_write(0x5555, 0x90);
    assert_eq!(m.fp_type, NorCmd::SwId);
    assert_eq!(m.bus_read(0x8000), 0xC7);
    assert_eq!(m.bus_read(0x8001), 0xD7);
    m.bus_write(0x5555, 0xF0);
    assert_eq!(m.fp_type, NorCmd::NoCommand);
}

#[test]
fn nc2000_nor_byte_program() {
    let mut m = empty_machine();
    m.io_write(BANK_SWITCH, 0x00);
    let offset = 0x4000 + 0x1234; // within NOR page 0 window
    assert_eq!(m.nor[0x1234], 0xFF);
    m.bus_write(0x5555, 0xAA);
    m.bus_write(0xAAAA, 0x55);
    m.bus_write(0x5555, 0xA0);
    m.bus_write(offset as u16, 0x5A);
    assert_eq!(m.nor[0x5234], 0x5A);
}

#[test]
fn nor_block_erase() {
    let mut m = empty_machine();
    m.io_write(BANK_SWITCH, 0x00);
    m.nor[0x4000] = 0x00;
    m.nor[0x47FF] = 0x00;
    m.bus_write(0x5555, 0xAA);
    m.bus_write(0xAAAA, 0x55);
    m.bus_write(0x5555, 0x80);
    m.bus_write(0x5555, 0xAA);
    m.bus_write(0xAAAA, 0x55);
    m.bus_write(0x4555, 0x30); // erase 2KB block at 0x4000
    assert_eq!(m.nor[0x4000], 0xFF);
    assert_eq!(m.nor[0x47FF], 0xFF);
}

#[test]
fn bank_window_nor_and_ext_ram() {
    let mut m = empty_machine();
    m.io_write(BANK_SWITCH, 0x00);
    m.nor[0x4000] = 0xAB;
    assert_eq!(m.bus_read(0x4000), 0xAB);
    m.io_write(BANK_SWITCH, 0x80);
    m.bus_write(0x4000, 0xCD);
    assert_eq!(m.ext_ram[0x4000], 0xCD);
    assert_eq!(m.bus_read(0x4000), 0xCD);
    m.nor[0x6000 + 0x1FFC] = 0x12;
    m.nor[0x6000 + 0x1FFD] = 0x34;
    assert_eq!(m.bus_read(0xFFFC), 0x12);
    assert_eq!(m.peek_u16(0xFFFC), 0x3412);
}

#[test]
fn nand_read_page() {
    let mut m = empty_machine();
    m.nand[5 * NAND_PAGE_SIZE] = 0x11;
    m.nand[5 * NAND_PAGE_SIZE + 511] = 0x22;
    m.nand[5 * NAND_PAGE_SIZE + 512] = 0x33;

    // CLE on, command 0x00 = read main area; ALE on, col 0, row 5.
    m.io_write(PORT4, 0x01);
    m.io_write(NAND_DATA, 0x00);
    m.io_write(PORT4, 0x02);
    m.io_write(NAND_DATA, 0x00);
    m.io_write(NAND_DATA, 0x05);
    m.io_write(NAND_DATA, 0x00);
    m.io_write(NAND_DATA, 0x00);
    m.io_write(PORT4, 0x00);

    assert_eq!(m.bus_read(NAND_DATA as u16), 0x11);
    for _ in 1..511 {
        m.bus_read(NAND_DATA as u16);
    }
    assert_eq!(m.bus_read(NAND_DATA as u16), 0x22);
    // Spare area (command 0x50)
    m.clear_nand_status();
    m.io_write(PORT4, 0x01);
    m.io_write(NAND_DATA, 0x50);
    m.io_write(PORT4, 0x02);
    m.io_write(NAND_DATA, 0x00);
    m.io_write(NAND_DATA, 0x05);
    m.io_write(NAND_DATA, 0x00);
    m.io_write(NAND_DATA, 0x00);
    m.io_write(PORT4, 0x00);
    assert_eq!(m.bus_read(NAND_DATA as u16), 0x33);
}

#[test]
fn nand_program_and_erase() {
    let mut m = empty_machine();
    // Program page 3
    m.io_write(PORT4, 0x01);
    m.io_write(NAND_DATA, 0x00);
    m.io_write(NAND_DATA, 0x80);
    m.io_write(PORT4, 0x02);
    m.io_write(NAND_DATA, 0x00);
    m.io_write(NAND_DATA, 0x03);
    m.io_write(NAND_DATA, 0x00);
    m.io_write(NAND_DATA, 0x00);
    m.io_write(PORT4, 0x00);
    for i in 0..NAND_PAGE_SIZE {
        m.io_write(NAND_DATA, (i & 0xFF) as u8);
    }
    m.io_write(PORT4, 0x01);
    m.io_write(NAND_DATA, 0x10);
    m.io_write(PORT4, 0x00);
    assert_eq!(m.nand[3 * NAND_PAGE_SIZE + 10], 0x0A);

    // Erase block containing page 3 (32 pages per block)
    m.io_write(PORT4, 0x01);
    m.io_write(NAND_DATA, 0x60);
    m.io_write(PORT4, 0x02);
    m.io_write(NAND_DATA, 0x00);
    m.io_write(NAND_DATA, 0x00);
    m.io_write(NAND_DATA, 0x00);
    m.io_write(PORT4, 0x00);
    m.io_write(PORT4, 0x01);
    m.io_write(NAND_DATA, 0xD0);
    m.io_write(PORT4, 0x00);
    assert_eq!(m.nand[3 * NAND_PAGE_SIZE + 10], 0xFF);
}

#[test]
fn nand_status_and_id() {
    let mut m = empty_machine();
    m.io_write(PORT4, 0x01);
    m.io_write(NAND_DATA, 0x70);
    m.io_write(PORT4, 0x00);
    assert_eq!(m.bus_read(NAND_DATA as u16), 0x40);

    m.io_write(PORT4, 0x01);
    m.io_write(NAND_DATA, 0x90);
    m.io_write(PORT4, 0x02);
    m.io_write(NAND_DATA, 0x00);
    m.io_write(PORT4, 0x00);
    assert_eq!(m.bus_read(NAND_DATA as u16), 0xEC);
    assert_eq!(m.bus_read(NAND_DATA as u16), 0x75);
}

#[test]
fn nand_images_share_physical_page_space() {
    let mut m = empty_machine();
    m.load_main_nand(&[0x22]);
    m.load_first_nand_plane(&[0x11]);

    // Physical page 0 comes from the first-plane image.
    nand_command(&mut m, 0x00, &[0x00, 0x00, 0x00, 0x00]);
    assert_eq!(m.bus_read(NAND_DATA as u16), 0x11);

    // Physical page 64 is the start of the main image.
    nand_command(&mut m, 0x00, &[0x00, NAND0_PAGES as u8, 0x00, 0x00]);
    assert_eq!(m.bus_read(NAND_DATA as u16), 0x22);
}

#[test]
fn keypad_matrix_to_port() {
    let mut m = empty_machine();
    // port1 drives all rows, P00-P03 receive, P04-P07 drive columns.
    m.w15_port1_dir = 0xFF;
    m.w09_port1_ol = 0xFF;
    m.rw0f_b7_dir047 = true;
    m.w08_port0_ol = 0x00;
    // No pull-up on P00-P03 so idle input reads 0
    m.ext_reg[EXT_P0_PU] = 0x0F;

    m.set_key(2 << 3, true); // row 2, col 0
    m.update_keypad_registers();
    assert_ne!(m.r08_port0_id & 0x01, 0);

    m.set_key(2 << 3, false);
    m.update_keypad_registers();
    assert_eq!(m.r08_port0_id & 0x01, 0);
}

#[test]
fn step_advances_cycles() {
    let Some(files) = nc2000_rom_files() else {
        println!("skipping: NC2000 dumps not present");
        return;
    };
    let mut machine = Nc2000Machine::new(&files).unwrap();
    machine.reset();
    let mut cpu = Cpu::new();
    cpu.reset(machine.peek_u16(RESET_VECTOR));

    let mut total = 0u64;
    let mut steps = 0u32;
    for _ in 0..10000 {
        let pc_before = cpu.pc;
        let c = machine.step(&mut cpu);
        if c == 0 {
            panic!("step returned 0 cycles: pc_before={:04X} pc_after={:04X}", pc_before, cpu.pc);
        }
        total += c;
        steps += 1;
    }
    println!("10000 steps, total cycles = {}", total);
    assert!(total >= 10000);
    assert!(steps == 10000);
}

#[test]
fn run_frame_completes() {
    let Some(files) = nc2000_rom_files() else {
        println!("skipping: NC2000 dumps not present");
        return;
    };
    let mut machine = Nc2000Machine::new(&files).unwrap();
    machine.reset();
    let mut cpu = Cpu::new();
    cpu.reset(machine.peek_u16(RESET_VECTOR));

    let start = std::time::Instant::now();
    for _ in 0..5 {
        let mut acc = 0u64;
        let mut steps = 0u64;
        while acc < CYCLES_PER_FRAME {
            acc += machine.step(&mut cpu);
            steps += 1;
        }
        println!("frame done: cycles={} steps={}", acc, steps);
    }
    println!("5 frames took {:?}", start.elapsed());
}

#[test]
fn standby_and_wake() {
    let Some(files) = nc2000_rom_files() else {
        println!("skipping: NC2000 dumps not present");
        return;
    };
    let mut machine = Nc2000Machine::new(&files).unwrap();
    machine.reset();
    let mut cpu = Cpu::new();
    cpu.reset(machine.peek_u16(RESET_VECTOR));

    let mut frames = 0;
    while !machine.is_clk_off() && frames < MAX_BOOT_FRAMES {
        run_frame(&mut machine, &mut cpu);
        frames += 1;
    }
    assert!(machine.is_clk_off(), "firmware did not enter standby");
    println!("entered standby after {} frames", frames);

    machine.set_key(0, true);
    assert!(machine.do_warm_reset);
    let pc_before = cpu.pc;
    let _ = machine.step(&mut cpu);
    assert!(!machine.is_clk_off(), "clock should be restored");
    assert!(!machine.do_warm_reset);
    assert_ne!(pc_before, cpu.pc);
    assert_ne!(cpu.pc, 0xE314, "CPU should leave the standby loop");

    let mut acc = 0u64;
    while acc < CYCLES_PER_FRAME {
        acc += machine.step(&mut cpu);
    }
    assert!(cpu.pc != 0);
}

#[test]
fn hotkey_wakes_device() {
    let Some(files) = nc2000_rom_files() else {
        println!("skipping: NC2000 dumps not present");
        return;
    };
    let mut machine = Nc2000Machine::new(&files).unwrap();
    machine.reset();
    let mut cpu = Cpu::new();
    cpu.reset(machine.peek_u16(RESET_VECTOR));

    let mut frames = 0;
    while !machine.is_clk_off() && frames < MAX_BOOT_FRAMES {
        run_frame(&mut machine, &mut cpu);
        frames += 1;
    }
    assert!(machine.is_clk_off());

    // F5 (English-Chinese) sits at matrix (row 3, col 1).
    machine.set_key(3 << 3 | 1, true);
    assert!(machine.do_warm_reset);
    let pc_before = cpu.pc;
    let _ = machine.step(&mut cpu);
    assert!(!machine.is_clk_off(), "clock should be restored");
    assert!(!machine.do_warm_reset);
    assert_ne!(pc_before, cpu.pc);
}

#[test]
fn cold_boot_lcd_trace() {
    let Some(files) = nc2000_rom_files() else {
        println!("skipping: NC2000 dumps not present");
        return;
    };
    let mut machine = Nc2000Machine::new(&files).unwrap();
    machine.reset();
    let mut cpu = Cpu::new();
    cpu.reset(machine.peek_u16(RESET_VECTOR));

    let mut max_nonzero = 0;
    for _ in 0..150 {
        run_frame(&mut machine, &mut cpu);
        let nz = machine.lcd.framebuffer_raw().iter().filter(|&&b| b != 0).count();
        max_nonzero = max_nonzero.max(nz);
    }
    assert!(max_nonzero > 50, "cold boot should draw the clock screen, max nonzero {}", max_nonzero);
}

#[test]
fn nc2000_short_nor_is_refused() {
    let r = Nc2000Machine::new(&RomFiles::new(None, Some(vec![0u8; 10]), None, None));
    assert!(matches!(r, Err(MachineError::NorTooSmall { .. })));
}

#[test]
fn nc2000_ram_reads_back_what_the_cpu_wrote() {
    let mut m = empty_machine();
    m.bus_write(0x1234, 0x56);
    assert_eq!(m.bus_read(0x1234), 0x56);
    m.bus_write(0x0567, 0x9A);
    assert_eq!(m.bus_read(0x0567), 0x9A);
}

#[test]
fn nc2000_nand_dumps_fill_their_areas() {
    let files = RomFiles::new(None, None, Some(vec![0x11u8; 10]), Some(vec![0x22u8; 5]));
    let m = Nc2000Machine::new(&files).unwrap();
    let start = NAND0_PAGES * NAND_PAGE_SIZE;
    assert_eq!(&m.nand[start..start + 10], &[0x11u8; 10]);
    assert_eq!(m.nand[start + 10], 0xFF);
    assert_eq!(&m.nand[..5], &[0x22u8; 5]);
    assert_eq!(m.nand[5], 0xFF);
}

#[test]
fn nc2000_lcd_is_read_from_the_fixed_ram_window() {
    let mut m = empty_machine();
    let mut cpu = Cpu::new();
    for i in 0..1600usize {
        m.ram[0x19C0 + i] = (i % 251) as u8;
    }
    m.end_of_frame(&mut cpu);
    let fb = m.lcd.framebuffer_raw();
    for i in 0..1600usize {
        assert_eq!(fb[i], m.peek((0x19C0 + i) as u16));
    }
}

#[test]
fn nc2000_nor_is_kept_in_physical_order() {
    let nor: Vec<u8> = (0..0x8_0000usize).map(|i| (i % 253) as u8).collect();
    let m = Nc2000Machine::new(&RomFiles::new(None, Some(nor.clone()), None, None)).unwrap();
    assert_eq!(m.nor, nor);
}
