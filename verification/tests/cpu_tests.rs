use wqxemu::cpu::{adc, cmp, sbc, Cpu, CpuBus, RamBus, FLAG_C, FLAG_I, FLAG_U, FLAG_Z, RESET_VECTOR};

#[test]
fn test_reset() {
    let mut cpu = Cpu::new();
    let mut bus = RamBus::new();
    bus.mem[0xFFFC] = 0x00;
    bus.mem[0xFFFD] = 0x80;
    cpu.reset(bus.read_u16(RESET_VECTOR));
    assert_eq!(cpu.pc, 0x8000);
    assert_eq!(cpu.ps, FLAG_I | FLAG_U);
}

#[test]
fn test_lda_immediate() {
    let mut cpu = Cpu::new();
    let mut bus = RamBus::new();
    cpu.pc = 0x0200;
    bus.mem[0x0200] = 0xA9; // LDA immediate
    bus.mem[0x0201] = 0x42;
    cpu.step(&mut bus);
    assert_eq!(cpu.a, 0x42);
    assert!(!cpu.flag_n());
    assert!(!cpu.flag_z());
}

#[test]
fn test_lda_zero_flag() {
    let mut cpu = Cpu::new();
    let mut bus = RamBus::new();
    cpu.pc = 0x0200;
    bus.mem[0x0200] = 0xA9; // LDA immediate
    bus.mem[0x0201] = 0x00;
    cpu.step(&mut bus);
    assert_eq!(cpu.a, 0x00);
    assert!(cpu.flag_z());
}

#[test]
fn test_adc_basic() {
    let mut cpu = Cpu::new();
    let mut bus = RamBus::new();
    cpu.pc = 0x0200;
    cpu.a = 0x10;
    cpu.ps &= !FLAG_C;
    bus.mem[0x0200] = 0x69; // ADC immediate
    bus.mem[0x0201] = 0x20;
    cpu.step(&mut bus);
    assert_eq!(cpu.a, 0x30);
    assert!(!cpu.flag_c());
}

#[test]
fn test_adc_carry() {
    let mut cpu = Cpu::new();
    let mut bus = RamBus::new();
    cpu.pc = 0x0200;
    cpu.a = 0xFF;
    cpu.ps &= !FLAG_C;
    bus.mem[0x0200] = 0x69; // ADC immediate
    bus.mem[0x0201] = 0x01;
    cpu.step(&mut bus);
    assert_eq!(cpu.a, 0x00);
    assert!(cpu.flag_c());
    assert!(cpu.flag_z());
}

#[test]
fn test_sbc_basic() {
    let mut cpu = Cpu::new();
    let mut bus = RamBus::new();
    cpu.pc = 0x0200;
    cpu.a = 0x50;
    cpu.ps |= FLAG_C; // carry set: no borrow
    bus.mem[0x0200] = 0xE9; // SBC immediate
    bus.mem[0x0201] = 0x30;
    cpu.step(&mut bus);
    assert_eq!(cpu.a, 0x20);
    assert!(cpu.flag_c());
}

#[test]
fn test_branch_taken() {
    let mut cpu = Cpu::new();
    let mut bus = RamBus::new();
    cpu.pc = 0x0200;
    cpu.ps &= !FLAG_Z;
    bus.mem[0x0200] = 0xD0; // BNE
    bus.mem[0x0201] = 0x10; // offset +16
    cpu.step(&mut bus);
    assert_eq!(cpu.pc, 0x0212);
}

#[test]
fn test_branch_not_taken() {
    let mut cpu = Cpu::new();
    let mut bus = RamBus::new();
    cpu.pc = 0x0200;
    cpu.ps |= FLAG_Z;
    bus.mem[0x0200] = 0xD0; // BNE
    bus.mem[0x0201] = 0x10;
    cpu.step(&mut bus);
    assert_eq!(cpu.pc, 0x0202);
}

#[test]
fn test_jsr_rts() {
    let mut cpu = Cpu::new();
    let mut bus = RamBus::new();
    cpu.pc = 0x0200;
    cpu.sp = 0xFF;
    bus.mem[0x0200] = 0x20; // JSR
    bus.mem[0x0201] = 0x00;
    bus.mem[0x0202] = 0x03; // -> 0x0300
    bus.mem[0x0300] = 0x60; // RTS
    cpu.step(&mut bus);
    assert_eq!(cpu.pc, 0x0300);
    cpu.step(&mut bus);
    assert_eq!(cpu.pc, 0x0203);
}

#[test]
fn jsr_then_rts_restores_stack_pointer() {
    let mut cpu = Cpu::new();
    let mut bus = RamBus::new();
    cpu.pc = 0x1234;
    cpu.sp = 0x80;
    bus.mem[0x1234] = 0x20; // JSR $4000
    bus.mem[0x1235] = 0x00;
    bus.mem[0x1236] = 0x40;
    bus.mem[0x4000] = 0x60; // RTS
    let n1 = cpu.step(&mut bus);
    assert_eq!(cpu.sp, 0x7E);
    assert_eq!(bus.mem[0x0180], 0x12);
    assert_eq!(bus.mem[0x017F], 0x36);
    let n2 = cpu.step(&mut bus);
    assert_eq!(cpu.pc, 0x1237);
    assert_eq!(cpu.sp, 0x80);
    assert_eq!(n1, 6);
    assert_eq!(n2, 6);
}

#[test]
fn pha_then_pla_restores_accumulator() {
    let mut cpu = Cpu::new();
    let mut bus = RamBus::new();
    cpu.pc = 0x0200;
    cpu.a = 0x9C;
    bus.mem[0x0200] = 0x48; // PHA
    bus.mem[0x0201] = 0xA9; // LDA #$00
    bus.mem[0x0202] = 0x00;
    bus.mem[0x0203] = 0x68; // PLA
    let sp = cpu.sp;
    cpu.step(&mut bus);
    cpu.step(&mut bus);
    assert_eq!(cpu.a, 0);
    cpu.step(&mut bus);
    assert_eq!(cpu.a, 0x9C);
    assert_eq!(cpu.sp, sp);
    assert!(cpu.flag_n());
    assert!(!cpu.flag_z());
}

#[test]
fn step_counts_cycles_and_instructions_take_two_to_eight() {
    let mut cpu = Cpu::new();
    let mut bus = RamBus::new();
    cpu.pc = 0x0200;
    bus.mem[0x0200] = 0xEA; // NOP
    bus.mem[0x0201] = 0x00; // BRK
    let before = cpu.cycles;
    let n = cpu.step(&mut bus);
    assert_eq!(n, 2);
    assert_eq!(cpu.cycles, before + 2);
    bus.mem[0xFFFE] = 0x00;
    bus.mem[0xFFFF] = 0x90;
    let n = cpu.step(&mut bus);
    assert_eq!(n, 7);
    assert_eq!(cpu.pc, 0x9000);
    assert!(cpu.flag_i());
}

#[test]
fn adc_sbc_cmp_flag_formulas() {
    // Each takes (a, operand, ps) and gives the result with the new status.
    assert_eq!(adc(0x50, 0x50, 0x00), (0xA0, 0xC0)); // N and V
    assert_eq!(adc(0xFF, 0x01, FLAG_C), (0x01, 0x01)); // carry out
    assert_eq!(adc(0x19, 0x01, 0x08), (0x20, 0x08)); // decimal: 19 + 1 = 20
    assert_eq!(sbc(0x00, 0x01, FLAG_C), (0xFF, 0x80)); // borrow, N
    assert_eq!(sbc(0x80, 0x01, FLAG_C), (0x7F, 0x41)); // no borrow, V
    assert_eq!(cmp(0x10, 0x10, 0x00), 0x03); // Z and C
    assert_eq!(cmp(0x10, 0x20, 0x00), 0x80); // N
}

#[test]
fn irq_is_taken_only_with_interrupts_enabled() {
    let mut cpu = Cpu::new();
    let mut bus = RamBus::new();
    cpu.pc = 0x0200;
    bus.mem[0x0200] = 0xEA; // NOP
    bus.mem[0xFFFE] = 0x00;
    bus.mem[0xFFFF] = 0x70;
    cpu.irq_pending = true;
    // I is set after construction: the IRQ waits.
    cpu.step(&mut bus);
    assert_eq!(cpu.pc, 0x0201);
    cpu.ps &= !FLAG_I;
    let n = cpu.step(&mut bus);
    assert_eq!(n, 7);
    assert_eq!(cpu.pc, 0x7000);
    assert!(cpu.flag_i());
}

#[test]
fn ram_bus_reads_little_endian_words_wrapping_at_the_top() {
    let mut bus = RamBus::new();
    bus.write(0x1000, 0x34);
    bus.write(0x1001, 0x12);
    assert_eq!(bus.read_u16(0x1000), 0x1234);
    bus.write(0xFFFF, 0xCD);
    bus.write(0x0000, 0xAB);
    assert_eq!(bus.read_u16(0xFFFF), 0xABCD);
}
