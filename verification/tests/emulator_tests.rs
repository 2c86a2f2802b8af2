use wqxemu::bytes::swap_halves;
use wqxemu::cc800::Cc800Machine;
use wqxemu::cpu::Cpu;
use wqxemu::emulator::{detect_model, AnyMachine, Emulator};
use wqxemu::nc2000::Nc2000Machine;
use wqxemu::pc1000::Pc1000Machine;
use wqxemu::lcd::{CYCLES_PER_FRAME, LCD_HEIGHT, LCD_PIXELS, LCD_WIDTH};
use wqxemu::machine::{Machine, MachineError, MachineModel, RomFiles};
use wqxemu::save::{check_persistent_header, persistent_identity, SaveState, FNV_OFFSET, PERSISTENT_STATE_VERSION};

fn no_files() -> RomFiles {
    RomFiles::new(None, None, None, None)
}

fn pattern(len: usize) -> Vec<u8> {
    (0..len).map(|i| (i * 7 + i / 251) as u8).collect()
}

#[test]
fn model_names_round_trip() {
    for m in [
        MachineModel::Nc1020,
        MachineModel::Pc1000,
        MachineModel::Cc800,
        MachineModel::Nc2000,
        MachineModel::Nc3000,
    ] {
        assert_eq!(MachineModel::from_name(m.name()), Some(m));
    }
    assert_eq!(MachineModel::Cc800.name(), "cc800");
    assert_eq!(MachineModel::from_name("NC2000"), Some(MachineModel::Nc2000));
    assert_eq!(MachineModel::from_name("Pc1000"), Some(MachineModel::Pc1000));
    assert_eq!(MachineModel::from_name("nc1021"), None);
    assert_eq!(MachineModel::from_name(""), None);
}

#[test]
fn nc3000_is_not_supported() {
    let r = Emulator::new(MachineModel::Nc3000, &no_files());
    assert_eq!(r.err(), Some(MachineError::UnsupportedModel { model: MachineModel::Nc3000 }));
}

#[test]
fn nc1020_rom_too_small_is_refused() {
    let r = Emulator::from_rom(vec![0u8; 10], None);
    assert_eq!(r.err(), Some(MachineError::RomTooSmall { expected: 0x180_0000, got: 10 }));
}

#[test]
fn nc1020_nor_too_small_is_refused() {
    let r = Emulator::from_rom(vec![0u8; 0x180_0000], Some(vec![0u8; 5]));
    assert_eq!(r.err(), Some(MachineError::NorTooSmall { expected: 0x10_0000, got: 5 }));
}

#[test]
fn emulator_starts_at_reset_vector_and_counts_frames() {
    let rom = vec![0xEAu8; 0x180_0000]; // NOPs everywhere
    let mut emu = Emulator::from_rom(rom, None).unwrap();
    let pc = emu.pc();
    assert_eq!(pc, emu.peek_u16(0xFFFC));
    assert_eq!(emu.frame_count(), 0);
    emu.run_frame();
    emu.run_frame();
    assert_eq!(emu.frame_count(), 2);
    assert_eq!(emu.model(), MachineModel::Nc1020);
    assert_eq!(emu.lcd_width() * emu.lcd_height(), LCD_PIXELS);
    assert_eq!((emu.lcd_width(), emu.lcd_height()), (LCD_WIDTH, LCD_HEIGHT));
    assert_eq!(emu.framebuffer().len(), LCD_PIXELS);
    emu.reset();
    assert_eq!(emu.frame_count(), 0);
    assert_eq!(emu.pc(), pc);
}

#[test]
fn cc800_nor_dump_round_trips_through_the_emulator() {
    let mut emu = Emulator::new(MachineModel::Cc800, &no_files()).unwrap();
    let dump = pattern(0x8_0000);
    emu.load_nor(&dump).unwrap();
    assert_eq!(emu.save_nor().unwrap(), dump);
}

#[test]
fn pc1000_nor_dump_round_trips_through_the_emulator() {
    let mut emu = Emulator::new(MachineModel::Pc1000, &no_files()).unwrap();
    let mut dump = pattern(0x8_0000);
    emu.load_nor(&dump).unwrap();
    assert_eq!(emu.save_nor().unwrap(), dump);
    // Only the first 512KB of a longer dump is kept.
    dump.extend_from_slice(&[1, 2, 3]);
    emu.load_nor(&dump).unwrap();
    assert_eq!(emu.save_nor().unwrap(), dump[..0x8_0000].to_vec());
}

#[test]
fn nor_dump_too_small_for_the_model() {
    let mut emu = Emulator::new(MachineModel::Cc800, &no_files()).unwrap();
    assert_eq!(
        emu.load_nor(&[0u8; 16]),
        Err(MachineError::NorTooSmall { expected: 0x8_0000, got: 16 })
    );
}

#[test]
fn nc2000_has_no_nor_dump() {
    let mut emu = Emulator::new(MachineModel::Nc2000, &no_files()).unwrap();
    assert_eq!(emu.save_nor(), Err(MachineError::NorUnsupported));
    assert_eq!(emu.load_nor(&[0u8; 0x8_0000]), Err(MachineError::NorUnsupported));
}

#[test]
fn half_swap_exchanges_16k_halves_of_each_bank() {
    let data = pattern(0x8000 * 2 + 10);
    let swapped = swap_halves(&data);
    assert_eq!(swapped.len(), data.len());
    assert_eq!(swapped[0], data[0x4000]);
    assert_eq!(swapped[0x4000], data[0]);
    assert_eq!(swapped[0x8000 + 0x4123], data[0x8000 + 0x123]);
    // The incomplete tail bank is copied unchanged.
    assert_eq!(&swapped[0x10000..], &data[0x10000..]);
    assert_eq!(swap_halves(&swapped), data);
}

#[test]
fn save_state_checksum_weights_bytes_by_position() {
    assert_eq!(SaveState::checksum(&[]), 0);
    assert_eq!(SaveState::checksum(&[1, 2, 3]), 1 + 4 + 9);
    assert_eq!(SaveState::checksum(&[0xFF; 4]), 0xFF * 10);
}

#[test]
fn save_state_version_is_checked() {
    assert!(SaveState::check_version(1).is_ok());
    assert_eq!(
        SaveState::check_version(2),
        Err(MachineError::StateVersionMismatch { expected_version: 1, got_version: 2 })
    );
}

#[test]
fn persistent_identity_is_fnv1a() {
    assert_eq!(persistent_identity(&[]), FNV_OFFSET);
    assert_eq!(persistent_identity(b"a"), 0xaf63_dc4c_8601_ec8c);
    assert_ne!(persistent_identity(b"ab"), persistent_identity(b"ba"));
}

#[test]
fn persistent_header_checks_version_model_and_firmware() {
    let id = persistent_identity(b"firmware");
    let v = PERSISTENT_STATE_VERSION;
    assert_eq!(check_persistent_header(v, MachineModel::Nc1020, id, MachineModel::Nc1020, id), Ok(()));
    assert_eq!(
        check_persistent_header(v + 1, MachineModel::Nc1020, id, MachineModel::Nc1020, id),
        Err(MachineError::StateVersionMismatch { expected_version: v, got_version: v + 1 })
    );
    assert_eq!(
        check_persistent_header(v, MachineModel::Pc1000, id, MachineModel::Nc1020, id),
        Err(MachineError::StateModelMismatch { expected_model: MachineModel::Nc1020, got_model: MachineModel::Pc1000 })
    );
    assert_eq!(
        check_persistent_header(v, MachineModel::Nc1020, id ^ 1, MachineModel::Nc1020, id),
        Err(MachineError::StateFirmwareMismatch)
    );
}

fn reset_vector_of<M: Machine>(m: &M) -> u16 {
    m.peek_u16(0xFFFC)
}

#[test]
fn every_model_offers_the_machine_interface() {
    let cc = Cc800Machine::new(&no_files()).unwrap();
    assert_eq!(Machine::model(&cc), MachineModel::Cc800);
    assert_eq!(reset_vector_of(&cc), cc.peek_u16(0xFFFC));
    let nc = Nc2000Machine::new(&no_files()).unwrap();
    assert_eq!(Machine::save_nor(&nc), Err(MachineError::NorUnsupported));
    let mut pc = Pc1000Machine::new(&no_files()).unwrap();
    let mut cpu = Cpu::new();
    let n = Machine::step(&mut pc, &mut cpu);
    assert!((2..=170_666).contains(&n));
    assert!(!Machine::is_sleeping(&pc));
}

#[test]
fn model_is_detected_from_the_images() {
    assert_eq!(detect_model(&no_files()), MachineModel::Nc1020);
    assert_eq!(detect_model(&RomFiles::new(None, None, Some(vec![0u8; 4]), None)), MachineModel::Nc2000);
    assert_eq!(detect_model(&RomFiles::new(Some(vec![0u8; 0x180_0000]), None, None, None)), MachineModel::Nc1020);
    assert_eq!(detect_model(&RomFiles::new(Some(vec![0u8; 0xC0_0000]), None, None, None)), MachineModel::Pc1000);
    let mut rom = vec![0u8; 0x100_0000];
    assert_eq!(detect_model(&RomFiles::new(Some(rom.clone()), None, None, None)), MachineModel::Pc1000);
    rom[0x80_0000..0x80_0006].copy_from_slice(&[0x4C, 0x4A, 0x88, 0xEA, 0x60, 0xEA]);
    assert_eq!(detect_model(&RomFiles::new(Some(rom), None, None, None)), MachineModel::Cc800);
    assert_eq!(detect_model(&RomFiles::new(Some(vec![0u8; 100]), None, None, None)), MachineModel::Nc1020);
}

#[test]
fn nc3000_images_are_told_apart_from_nc2000() {
    let nand = Some(vec![0u8; 16]);
    assert_eq!(detect_model(&RomFiles::new(None, Some(vec![0u8; 0x8_0000]), nand.clone(), None)), MachineModel::Nc2000);
    assert_eq!(detect_model(&RomFiles::new(None, Some(vec![0u8; 0x10_0000]), nand, None)), MachineModel::Nc3000);
    assert_eq!(detect_model(&RomFiles::new(None, None, Some(vec![0u8; 0x3C0_0001]), None)), MachineModel::Nc3000);
    // A 1MB NOR beside a ROM is the NC1020's.
    assert_eq!(detect_model(&RomFiles::new(Some(vec![0u8; 0x180_0000]), Some(vec![0u8; 0x10_0000]), None, None)), MachineModel::Nc1020);
}

#[test]
fn save_state_round_trip_restores_cpu_and_ram() {
    let mut emu = Emulator::new(MachineModel::Pc1000, &no_files()).unwrap();
    emu.cpu.pc = 0x1234;
    emu.cpu.a = 0x42;
    let state = emu.save_state();
    assert!(state.is_valid());
    emu.cpu.pc = 0x5678;
    emu.cpu.a = 0;
    emu.run_frame();
    assert!(emu.load_state(&state).is_ok());
    assert_eq!(emu.pc(), 0x1234);
    assert_eq!(emu.cpu.a, 0x42);
    assert_eq!(emu.save_state().ram, state.ram);
}

#[test]
fn sessions_are_bound_to_the_firmware_fingerprint() {
    let rom = vec![7u8; 0xC0_0000];
    let pc = Pc1000Machine::new(&RomFiles::new(Some(rom.clone()), None, None, None)).unwrap();
    assert_eq!(Machine::persistent_state_identity(&pc), persistent_identity(&rom));
    let nc = Nc2000Machine::new(&no_files()).unwrap();
    assert_eq!(Machine::persistent_state_identity(&nc), 0);
    assert_eq!(Machine::lcd(&nc).framebuffer_raw().len(), 1600);
}

#[test]
fn a_frame_runs_until_a_frame_of_cycles_has_passed() {
    let rom = vec![0xEAu8; 0x180_0000]; // NOPs everywhere
    let mut emu = Emulator::from_rom(rom, None).unwrap();
    let c0 = emu.cpu.cycles;
    emu.run_frame();
    let d = emu.cpu.cycles.wrapping_sub(c0);
    assert!(d >= CYCLES_PER_FRAME);
    assert!(d < CYCLES_PER_FRAME + 8);
}

#[test]
fn speed_up_reaches_the_nc1020_timer() {
    let mut emu = Emulator::from_rom(vec![0u8; 0x180_0000], None).unwrap();
    emu.set_speed_up(true);
    match &emu.machine {
        AnyMachine::Nc1020(m) => assert!(m.timer.speed_up),
        _ => panic!("not an NC1020"),
    }
    emu.set_speed_up(false);
    match &emu.machine {
        AnyMachine::Nc1020(m) => assert!(!m.timer.speed_up),
        _ => panic!("not an NC1020"),
    }
}

#[test]
fn new_emulator_cpu_is_at_power_on() {
    for model in [MachineModel::Nc1020, MachineModel::Pc1000, MachineModel::Cc800, MachineModel::Nc2000] {
        let emu = Emulator::new(model, &no_files()).unwrap();
        assert_eq!(emu.model(), model);
        assert_eq!(emu.pc(), emu.peek_u16(0xFFFC));
        assert_eq!(emu.frame_count(), 0);
        assert_eq!(emu.cpu.sp, 0xFF);
        assert_eq!(emu.cpu.ps, 0x24);
        assert_eq!(emu.cpu.cycles, 0);
    }
}

#[test]
fn reset_keeps_the_cycle_counter() {
    let mut emu = Emulator::from_rom(vec![0xEAu8; 0x180_0000], None).unwrap();
    emu.run_frame();
    let c = emu.cpu.cycles;
    emu.reset();
    assert_eq!(emu.cpu.cycles, c);
    assert_eq!(emu.frame_count(), 0);
}

#[test]
fn a_saved_state_loads_back_on_every_model() {
    for model in [MachineModel::Nc1020, MachineModel::Pc1000, MachineModel::Cc800, MachineModel::Nc2000] {
        let mut emu = Emulator::new(model, &no_files()).unwrap();
        let s = emu.save_state();
        let c = emu.cpu;
        emu.cpu.pc = emu.cpu.pc.wrapping_add(3);
        emu.cpu.a = 0x55;
        assert!(s.is_valid());
        assert!(emu.load_state(&s).is_ok());
        assert_eq!(emu.cpu.pc, c.pc);
        assert_eq!(emu.cpu.a, c.a);
        assert_eq!(emu.frame_count(), 0);
    }
}

#[test]
fn cc800_without_images_has_a_zero_reset_vector() {
    let m = Cc800Machine::new(&no_files()).unwrap();
    assert_eq!(m.peek_u16(0xFFFC), 0);
    assert!(Cc800Machine::new(&RomFiles::new(Some(vec![0u8; 10]), None, None, None)).is_err());
}

#[test]
fn persistent_state_round_trips_without_rom_or_flash_paths() {
    let mut emulator = Emulator::new(MachineModel::Nc1020, &RomFiles::default()).unwrap();
    emulator.cpu.pc = 0x1234;
    emulator.frame_count = 42;

    let (version, model, identity, cpu, frames, speed_up, _) = emulator.session();
    let machine = Emulator::new(MachineModel::Nc1020, &RomFiles::default()).unwrap().machine;
    emulator.cpu.pc = 0x5678;
    emulator.frame_count = 99;
    emulator.restore_session(version, model, identity, cpu, frames, speed_up, machine).unwrap();

    assert_eq!(emulator.pc(), 0x1234);
    assert_eq!(emulator.frame_count(), 42);
}

#[test]
fn persistent_state_rejects_a_different_machine_model() {
    let source = Emulator::new(MachineModel::Nc1020, &RomFiles::default()).unwrap();
    let (version, model, identity, cpu, frames, speed_up, _) = source.session();
    let machine = Emulator::new(MachineModel::Nc1020, &RomFiles::default()).unwrap().machine;

    let mut target = Emulator::new(MachineModel::Pc1000, &RomFiles::default()).unwrap();
    let pc = target.pc();
    let error = target.restore_session(version, model, identity, cpu, frames, speed_up, machine).unwrap_err();
    assert_eq!(
        error,
        MachineError::StateModelMismatch { expected_model: MachineModel::Pc1000, got_model: MachineModel::Nc1020 }
    );
    assert_eq!(target.pc(), pc);
    assert_eq!(target.model(), MachineModel::Pc1000);
}
