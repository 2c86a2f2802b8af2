//! 6502 CPU core shared by every Wenquxing model.
//!
//! The CPU talks to the rest of the machine only through [`CpuBus`].
//! Every bus access the CPU makes during one `step` is recorded in the
//! ghost field `trace`, and the contract of `step` says exactly which
//! accesses were made and which register state results, as a function of
//! the values the bus returned.  This makes the CPU specification
//! independent of whatever memory map or IO side effects a bus has; each
//! bus states in [`CpuBus::serves`] what one access does to it, and `step`
//! promises that the device went through exactly the accesses of the trace
//! ([`serves_all`]).

use vstd::prelude::*;

verus! {

/// Carry flag.
pub const FLAG_C: u8 = 0x01;
/// Zero flag.
pub const FLAG_Z: u8 = 0x02;
/// Interrupt-disable flag.
pub const FLAG_I: u8 = 0x04;
/// Decimal-mode flag.
pub const FLAG_D: u8 = 0x08;
/// Break flag (only exists on the stack copy of the status register).
pub const FLAG_B: u8 = 0x10;
/// Unused bit (always pushed as 1).
pub const FLAG_U: u8 = 0x20;
/// Overflow flag.
pub const FLAG_V: u8 = 0x40;
/// Negative flag.
pub const FLAG_N: u8 = 0x80;

/// NMI vector address.
pub const NMI_VECTOR: u16 = 0xFFFA;
/// Reset vector address.
pub const RESET_VECTOR: u16 = 0xFFFC;
/// IRQ / BRK vector address.
pub const IRQ_VECTOR: u16 = 0xFFFE;

/// One access the CPU made on its bus.
#[derive(Clone, Copy, PartialEq, Eq, Structural)]
pub enum BusEvent {
    /// A read of the address, together with the value the bus returned.
    Read(u16, u8),
    /// A write of the value to the address.
    Write(u16, u8),
}

/// Memory / IO interface seen by the CPU.
///
/// Reads take `&mut self` because many IO registers have read side effects
/// (clear-on-read status, timer start/stop, sequential NAND reads).
pub trait CpuBus: Sized {
    /// What every access keeps true of the device behind the bus.
    spec fn bus_inv(&self) -> bool;

    /// The part of the device that no access changes.
    spec fn bus_kept(&self) -> Seq<u8>;

    /// `after` is what the device becomes by serving the access `ev`.
    spec fn serves(&self, ev: BusEvent, after: Self) -> bool;

    /// Read a byte from the given address.
    fn read(&mut self, addr: u16) -> (v: u8)
        requires
            old(self).bus_inv(),
        ensures
            final(self).bus_inv(),
            final(self).bus_kept() == old(self).bus_kept(),
            old(self).serves(BusEvent::Read(addr, v), *final(self)),
    ;

    /// Write a byte to the given address.
    fn write(&mut self, addr: u16, value: u8)
        requires
            old(self).bus_inv(),
        ensures
            final(self).bus_inv(),
            final(self).bus_kept() == old(self).bus_kept(),
            old(self).serves(BusEvent::Write(addr, value), *final(self)),
    ;

    /// Read a little-endian 16-bit word.
    fn read_u16(&mut self, addr: u16) -> (w: u16)
        requires
            old(self).bus_inv(),
        ensures
            final(self).bus_inv(),
            final(self).bus_kept() == old(self).bus_kept(),
            exists|mid: Self, lo: u8, hi: u8|
                #![trigger old(self).serves(BusEvent::Read(addr, lo), mid), mid.serves(BusEvent::Read(add16(addr, 1), hi), *final(self))]
                old(self).serves(BusEvent::Read(addr, lo), mid)
                && mid.serves(BusEvent::Read(add16(addr, 1), hi), *final(self))
                && w == word(lo, hi),
    {
        let lo = self.read(addr);
        let ghost mid = *self;
        let hi = self.read(addr.wrapping_add(1));
        let w = ((hi as u16) << 8) | (lo as u16);
        proof {
            assert(old(self).serves(BusEvent::Read(addr, lo), mid)
                && mid.serves(BusEvent::Read(add16(addr, 1), hi), *self)
                && w == word(lo, hi));
        }
        w
    }
}

/// 6502 CPU state.
#[derive(Clone, Copy)]
pub struct Cpu {
    /// Program counter
    pub pc: u16,
    /// Accumulator
    pub a: u8,
    /// X index register
    pub x: u8,
    /// Y index register
    pub y: u8,
    /// Stack pointer
    pub sp: u8,
    /// Processor status
    pub ps: u8,
    /// Total cycles executed (wraps around)
    pub cycles: u64,
    /// Whether an IRQ is pending
    pub irq_pending: bool,
    /// Whether an NMI is pending
    pub nmi_pending: bool,
    /// The bus accesses made by the most recent `step`.
    pub trace: Ghost<Seq<BusEvent>>,
}

// ---------------------------------------------------------------------
// Arithmetic helpers (spec level)
// ---------------------------------------------------------------------

/// 8-bit wrapping addition.
pub open spec fn add8(x: u8, y: u8) -> u8 {
    if x + y > 0xFF { (x + y - 0x100) as u8 } else { (x + y) as u8 }
}

/// 8-bit wrapping subtraction.
pub open spec fn sub8(x: u8, y: u8) -> u8 {
    if x - y < 0 { (x - y + 0x100) as u8 } else { (x - y) as u8 }
}

/// 16-bit wrapping addition.
pub open spec fn add16(x: u16, y: u16) -> u16 {
    if x + y > 0xFFFF { (x + y - 0x10000) as u16 } else { (x + y) as u16 }
}

/// 16-bit wrapping subtraction.
pub open spec fn sub16(x: u16, y: u16) -> u16 {
    if x - y < 0 { (x - y + 0x10000) as u16 } else { (x - y) as u16 }
}

/// Little-endian word from two bytes.
pub open spec fn word(lo: u8, hi: u8) -> u16 {
    ((hi as u16) << 8) | (lo as u16)
}

/// Whether two addresses lie in different 256-byte pages.
pub open spec fn page_crossed(a: u16, b: u16) -> bool {
    (a & 0xFF00) != (b & 0xFF00)
}

/// Status byte with N and Z set from `v`.
pub open spec fn nz(ps: u8, v: u8) -> u8 {
    (ps & !(FLAG_N | FLAG_Z)) | (if v & 0x80 != 0 { FLAG_N } else { 0u8 }) | (if v == 0 { FLAG_Z } else { 0u8 })
}

/// Status byte with the carry flag set to `c`.
pub open spec fn with_carry(ps: u8, c: bool) -> u8 {
    (ps & !FLAG_C) | (if c { FLAG_C } else { 0u8 })
}

/// Branch target for a relative offset byte (sign-extended).
pub open spec fn rel_target(pc: u16, off: u8) -> u16 {
    if off < 0x80 { add16(pc, off as u16) } else { add16(pc, (off as u16) | 0xFF00) }
}

// ---------------------------------------------------------------------
// ALU (spec level)
// ---------------------------------------------------------------------

/// ADC: returns the new accumulator and status.
pub open spec fn adc_spec(a: u8, m: u8, ps: u8) -> (u8, u8) {
    let c = ps & FLAG_C;
    if ps & FLAG_D != 0 {
        let lo0 = ((a & 0x0F) + (m & 0x0F) + c) as u8;
        let lo: u8 = if lo0 > 9 { (lo0 + 6) as u8 } else { lo0 };
        let hi0 = ((a >> 4) + (m >> 4) + (if lo > 0x0F { 1u8 } else { 0u8 })) as u8;
        let hi: u8 = if hi0 > 9 { (hi0 + 6) as u8 } else { hi0 };
        let result: u8 = (lo & 0x0F) | (hi << 4u8);
        let overflow = (!((a ^ m) & 0x80) & ((a ^ (hi << 4u8)) & 0x80)) != 0;
        let ps2 = (ps & !(FLAG_N | FLAG_V | FLAG_Z | FLAG_C))
            | (if hi > 0x0F { FLAG_C } else { 0u8 })
            | (if result == 0 { FLAG_Z } else { 0u8 })
            | (if result & 0x80 != 0 { FLAG_N } else { 0u8 })
            | (if overflow { FLAG_V } else { 0u8 });
        (result, ps2)
    } else {
        let sum = a + m + c;
        let result = (sum % 256) as u8;
        let overflow = (!(a ^ m) & (a ^ result) & 0x80) != 0;
        let ps2 = (ps & !(FLAG_N | FLAG_V | FLAG_Z | FLAG_C))
            | (if sum > 0xFF { FLAG_C } else { 0u8 })
            | (if result == 0 { FLAG_Z } else { 0u8 })
            | (if result & 0x80 != 0 { FLAG_N } else { 0u8 })
            | (if overflow { FLAG_V } else { 0u8 });
        (result, ps2)
    }
}

/// SBC: returns the new accumulator and status.
pub open spec fn sbc_spec(a: u8, m: u8, ps: u8) -> (u8, u8) {
    let c = ps & FLAG_C;
    let borrow: u8 = if c != 0 { 0u8 } else { 1u8 };
    let raw: int = a - m - borrow;
    if ps & FLAG_D != 0 {
        let lo0 = sub8(sub8(a & 0x0F, m & 0x0F), borrow);
        let lo: u8 = if lo0 & 0x10 != 0 { sub8(lo0, 6) } else { lo0 };
        let hi0 = sub8(sub8(a >> 4, m >> 4), if lo & 0x10 != 0 { 1u8 } else { 0u8 });
        let hi: u8 = if hi0 & 0x10 != 0 { sub8(hi0, 6) } else { hi0 };
        let result: u8 = (lo & 0x0F) | (hi << 4u8);
        let overflow = ((a ^ m) & (a ^ result) & 0x80) != 0;
        let ps2 = (ps & !(FLAG_N | FLAG_V | FLAG_Z | FLAG_C))
            | (if raw >= 0 { FLAG_C } else { 0u8 })
            | (if result == 0 { FLAG_Z } else { 0u8 })
            | (if result & 0x80 != 0 { FLAG_N } else { 0u8 })
            | (if overflow { FLAG_V } else { 0u8 });
        (result, ps2)
    } else {
        let result = ((raw + 256) % 256) as u8;
        let overflow = ((a ^ m) & (a ^ result) & 0x80) != 0;
        let ps2 = (ps & !(FLAG_N | FLAG_V | FLAG_Z | FLAG_C))
            | (if raw >= 0 { FLAG_C } else { 0u8 })
            | (if result == 0 { FLAG_Z } else { 0u8 })
            | (if result & 0x80 != 0 { FLAG_N } else { 0u8 })
            | (if overflow { FLAG_V } else { 0u8 });
        (result, ps2)
    }
}

/// CMP/CPX/CPY: status after comparing `reg` with `m`.
pub open spec fn cmp_spec(reg: u8, m: u8, ps: u8) -> u8 {
    let diff = sub8(reg, m);
    (ps & !(FLAG_N | FLAG_Z | FLAG_C))
        | (if diff & 0x80 != 0 { FLAG_N } else { 0u8 })
        | (if diff == 0 { FLAG_Z } else { 0u8 })
        | (if reg >= m { FLAG_C } else { 0u8 })
}

/// BIT: status after testing `a` against `m`.
pub open spec fn bit_spec(a: u8, m: u8, ps: u8) -> u8 {
    (ps & !(FLAG_N | FLAG_V | FLAG_Z)) | (m & 0xC0) | (if a & m == 0 { FLAG_Z } else { 0u8 })
}

/// Shift / rotate operations.
pub enum ShiftKind {
    Asl,
    Lsr,
    Rol,
    Ror,
}

/// Shift/rotate `v` with status `ps`: returns the new value and status.
pub open spec fn shift_spec(k: ShiftKind, v: u8, ps: u8) -> (u8, u8) {
    let old_c = ps & FLAG_C;
    match k {
        ShiftKind::Asl => { let r = v << 1u8; (r, nz(with_carry(ps, v & 0x80 != 0), r)) },
        ShiftKind::Lsr => { let r = v >> 1u8; (r, nz(with_carry(ps, v & 0x01 != 0), r)) },
        ShiftKind::Rol => { let r = (v << 1u8) | old_c; (r, nz(with_carry(ps, v & 0x80 != 0), r)) },
        ShiftKind::Ror => { let r = (v >> 1u8) | (old_c << 7u8); (r, nz(with_carry(ps, v & 0x01 != 0), r)) },
    }
}

// ---------------------------------------------------------------------
// Instruction decoding
// ---------------------------------------------------------------------

/// Addressing modes.
#[derive(Clone, Copy, PartialEq, Eq, Structural)]
pub enum Mode {
    Imp,
    Acc,
    Imm,
    Zp,
    Zpx,
    Zpy,
    Abs,
    Abx,
    Aby,
    Izx,
    Izy,
    Ind,
    Rel,
}

/// Operations (documented 6502 mnemonics plus the skipping NOPs).
#[derive(Clone, Copy, PartialEq, Eq, Structural)]
pub enum Op {
    Adc, And, Asl, Bcc, Bcs, Beq, Bit, Bmi, Bne, Bpl, Brk, Bvc, Bvs, Clc, Cld, Cli, Clv,
    Cmp, Cpx, Cpy, Dec, Dex, Dey, Eor, Inc, Inx, Iny, Jmp, Jsr, Lda, Ldx, Ldy, Lsr, Nop,
    Ora, Pha, Php, Pla, Plp, Rol, Ror, Rti, Rts, Sbc, Sec, Sed, Sei, Skip1, Skip2, Sta,
    Stx, Sty, Tax, Tay, Tsx, Txa, Txs, Tya,
}

/// A decoded instruction: operation, addressing mode and base cycle count.
#[derive(Clone, Copy, PartialEq, Eq, Structural)]
pub struct Instr {
    pub op: Op,
    pub mode: Mode,
    pub cycles: u8,
}

/// The opcode table.
#[verifier::opaque]
pub open spec fn decode_spec(opcode: u8) -> Instr {
    match opcode {
        0x00 => Instr { op: Op::Brk, mode: Mode::Imp, cycles: 7 },
        0x01 => Instr { op: Op::Ora, mode: Mode::Izx, cycles: 6 },
        0x04 => Instr { op: Op::Skip1, mode: Mode::Imp, cycles: 2 },
        0x05 => Instr { op: Op::Ora, mode: Mode::Zp, cycles: 3 },
        0x06 => Instr { op: Op::Asl, mode: Mode::Zp, cycles: 5 },
        0x08 => Instr { op: Op::Php, mode: Mode::Imp, cycles: 3 },
        0x09 => Instr { op: Op::Ora, mode: Mode::Imm, cycles: 2 },
        0x0A => Instr { op: Op::Asl, mode: Mode::Acc, cycles: 2 },
        0x0C => Instr { op: Op::Skip2, mode: Mode::Imp, cycles: 4 },
        0x0D => Instr { op: Op::Ora, mode: Mode::Abs, cycles: 4 },
        0x0E => Instr { op: Op::Asl, mode: Mode::Abs, cycles: 6 },
        0x10 => Instr { op: Op::Bpl, mode: Mode::Rel, cycles: 2 },
        0x11 => Instr { op: Op::Ora, mode: Mode::Izy, cycles: 5 },
        0x14 => Instr { op: Op::Skip1, mode: Mode::Imp, cycles: 2 },
        0x15 => Instr { op: Op::Ora, mode: Mode::Zpx, cycles: 4 },
        0x16 => Instr { op: Op::Asl, mode: Mode::Zpx, cycles: 6 },
        0x18 => Instr { op: Op::Clc, mode: Mode::Imp, cycles: 2 },
        0x19 => Instr { op: Op::Ora, mode: Mode::Aby, cycles: 4 },
        0x1A => Instr { op: Op::Nop, mode: Mode::Imp, cycles: 2 },
        0x1C => Instr { op: Op::Skip2, mode: Mode::Imp, cycles: 4 },
        0x1D => Instr { op: Op::Ora, mode: Mode::Abx, cycles: 4 },
        0x1E => Instr { op: Op::Asl, mode: Mode::Abx, cycles: 7 },
        0x20 => Instr { op: Op::Jsr, mode: Mode::Abs, cycles: 6 },
        0x21 => Instr { op: Op::And, mode: Mode::Izx, cycles: 6 },
        0x24 => Instr { op: Op::Bit, mode: Mode::Zp, cycles: 3 },
        0x25 => Instr { op: Op::And, mode: Mode::Zp, cycles: 3 },
        0x26 => Instr { op: Op::Rol, mode: Mode::Zp, cycles: 5 },
        0x28 => Instr { op: Op::Plp, mode: Mode::Imp, cycles: 4 },
        0x29 => Instr { op: Op::And, mode: Mode::Imm, cycles: 2 },
        0x2A => Instr { op: Op::Rol, mode: Mode::Acc, cycles: 2 },
        0x2C => Instr { op: Op::Bit, mode: Mode::Abs, cycles: 4 },
        0x2D => Instr { op: Op::And, mode: Mode::Abs, cycles: 4 },
        0x2E => Instr { op: Op::Rol, mode: Mode::Abs, cycles: 6 },
        0x30 => Instr { op: Op::Bmi, mode: Mode::Rel, cycles: 2 },
        0x31 => Instr { op: Op::And, mode: Mode::Izy, cycles: 5 },
        0x34 => Instr { op: Op::Skip1, mode: Mode::Imp, cycles: 2 },
        0x35 => Instr { op: Op::And, mode: Mode::Zpx, cycles: 4 },
        0x36 => Instr { op: Op::Rol, mode: Mode::Zpx, cycles: 6 },
        0x38 => Instr { op: Op::Sec, mode: Mode::Imp, cycles: 2 },
        0x39 => Instr { op: Op::And, mode: Mode::Aby, cycles: 4 },
        0x3A => Instr { op: Op::Nop, mode: Mode::Imp, cycles: 2 },
        0x3C => Instr { op: Op::Skip2, mode: Mode::Imp, cycles: 4 },
        0x3D => Instr { op: Op::And, mode: Mode::Abx, cycles: 4 },
        0x3E => Instr { op: Op::Rol, mode: Mode::Abx, cycles: 7 },
        0x40 => Instr { op: Op::Rti, mode: Mode::Imp, cycles: 6 },
        0x41 => Instr { op: Op::Eor, mode: Mode::Izx, cycles: 6 },
        0x44 => Instr { op: Op::Skip1, mode: Mode::Imp, cycles: 2 },
        0x45 => Instr { op: Op::Eor, mode: Mode::Zp, cycles: 3 },
        0x46 => Instr { op: Op::Lsr, mode: Mode::Zp, cycles: 5 },
        0x48 => Instr { op: Op::Pha, mode: Mode::Imp, cycles: 3 },
        0x49 => Instr { op: Op::Eor, mode: Mode::Imm, cycles: 2 },
        0x4A => Instr { op: Op::Lsr, mode: Mode::Acc, cycles: 2 },
        0x4C => Instr { op: Op::Jmp, mode: Mode::Abs, cycles: 3 },
        0x4D => Instr { op: Op::Eor, mode: Mode::Abs, cycles: 4 },
        0x4E => Instr { op: Op::Lsr, mode: Mode::Abs, cycles: 6 },
        0x50 => Instr { op: Op::Bvc, mode: Mode::Rel, cycles: 2 },
        0x51 => Instr { op: Op::Eor, mode: Mode::Izy, cycles: 5 },
        0x54 => Instr { op: Op::Skip1, mode: Mode::Imp, cycles: 2 },
        0x55 => Instr { op: Op::Eor, mode: Mode::Zpx, cycles: 4 },
        0x56 => Instr { op: Op::Lsr, mode: Mode::Zpx, cycles: 6 },
        0x58 => Instr { op: Op::Cli, mode: Mode::Imp, cycles: 2 },
        0x59 => Instr { op: Op::Eor, mode: Mode::Aby, cycles: 4 },
        0x5A => Instr { op: Op::Nop, mode: Mode::Imp, cycles: 2 },
        0x5C => Instr { op: Op::Skip2, mode: Mode::Imp, cycles: 4 },
        0x5D => Instr { op: Op::Eor, mode: Mode::Abx, cycles: 4 },
        0x5E => Instr { op: Op::Lsr, mode: Mode::Abx, cycles: 7 },
        0x60 => Instr { op: Op::Rts, mode: Mode::Imp, cycles: 6 },
        0x61 => Instr { op: Op::Adc, mode: Mode::Izx, cycles: 6 },
        0x64 => Instr { op: Op::Skip1, mode: Mode::Imp, cycles: 2 },
        0x65 => Instr { op: Op::Adc, mode: Mode::Zp, cycles: 3 },
        0x66 => Instr { op: Op::Ror, mode: Mode::Zp, cycles: 5 },
        0x68 => Instr { op: Op::Pla, mode: Mode::Imp, cycles: 4 },
        0x69 => Instr { op: Op::Adc, mode: Mode::Imm, cycles: 2 },
        0x6A => Instr { op: Op::Ror, mode: Mode::Acc, cycles: 2 },
        0x6C => Instr { op: Op::Jmp, mode: Mode::Ind, cycles: 5 },
        0x6D => Instr { op: Op::Adc, mode: Mode::Abs, cycles: 4 },
        0x6E => Instr { op: Op::Ror, mode: Mode::Abs, cycles: 6 },
        0x70 => Instr { op: Op::Bvs, mode: Mode::Rel, cycles: 2 },
        0x71 => Instr { op: Op::Adc, mode: Mode::Izy, cycles: 5 },
        0x74 => Instr { op: Op::Skip1, mode: Mode::Imp, cycles: 2 },
        0x75 => Instr { op: Op::Adc, mode: Mode::Zpx, cycles: 4 },
        0x76 => Instr { op: Op::Ror, mode: Mode::Zpx, cycles: 6 },
        0x78 => Instr { op: Op::Sei, mode: Mode::Imp, cycles: 2 },
        0x79 => Instr { op: Op::Adc, mode: Mode::Aby, cycles: 4 },
        0x7A => Instr { op: Op::Nop, mode: Mode::Imp, cycles: 2 },
        0x7C => Instr { op: Op::Skip2, mode: Mode::Imp, cycles: 4 },
        0x7D => Instr { op: Op::Adc, mode: Mode::Abx, cycles: 4 },
        0x7E => Instr { op: Op::Ror, mode: Mode::Abx, cycles: 7 },
        0x80 => Instr { op: Op::Skip1, mode: Mode::Imp, cycles: 2 },
        0x81 => Instr { op: Op::Sta, mode: Mode::Izx, cycles: 6 },
        0x82 => Instr { op: Op::Skip1, mode: Mode::Imp, cycles: 2 },
        0x84 => Instr { op: Op::Sty, mode: Mode::Zp, cycles: 3 },
        0x85 => Instr { op: Op::Sta, mode: Mode::Zp, cycles: 3 },
        0x86 => Instr { op: Op::Stx, mode: Mode::Zp, cycles: 3 },
        0x88 => Instr { op: Op::Dey, mode: Mode::Imp, cycles: 2 },
        0x89 => Instr { op: Op::Skip1, mode: Mode::Imp, cycles: 2 },
        0x8A => Instr { op: Op::Txa, mode: Mode::Imp, cycles: 2 },
        0x8C => Instr { op: Op::Sty, mode: Mode::Abs, cycles: 4 },
        0x8D => Instr { op: Op::Sta, mode: Mode::Abs, cycles: 4 },
        0x8E => Instr { op: Op::Stx, mode: Mode::Abs, cycles: 4 },
        0x90 => Instr { op: Op::Bcc, mode: Mode::Rel, cycles: 2 },
        0x91 => Instr { op: Op::Sta, mode: Mode::Izy, cycles: 6 },
        0x94 => Instr { op: Op::Sty, mode: Mode::Zpx, cycles: 4 },
        0x95 => Instr { op: Op::Sta, mode: Mode::Zpx, cycles: 4 },
        0x96 => Instr { op: Op::Stx, mode: Mode::Zpy, cycles: 4 },
        0x98 => Instr { op: Op::Tya, mode: Mode::Imp, cycles: 2 },
        0x99 => Instr { op: Op::Sta, mode: Mode::Aby, cycles: 5 },
        0x9A => Instr { op: Op::Txs, mode: Mode::Imp, cycles: 2 },
        0x9D => Instr { op: Op::Sta, mode: Mode::Abx, cycles: 5 },
        0xA0 => Instr { op: Op::Ldy, mode: Mode::Imm, cycles: 2 },
        0xA1 => Instr { op: Op::Lda, mode: Mode::Izx, cycles: 6 },
        0xA2 => Instr { op: Op::Ldx, mode: Mode::Imm, cycles: 2 },
        0xA4 => Instr { op: Op::Ldy, mode: Mode::Zp, cycles: 3 },
        0xA5 => Instr { op: Op::Lda, mode: Mode::Zp, cycles: 3 },
        0xA6 => Instr { op: Op::Ldx, mode: Mode::Zp, cycles: 3 },
        0xA8 => Instr { op: Op::Tay, mode: Mode::Imp, cycles: 2 },
        0xA9 => Instr { op: Op::Lda, mode: Mode::Imm, cycles: 2 },
        0xAA => Instr { op: Op::Tax, mode: Mode::Imp, cycles: 2 },
        0xAC => Instr { op: Op::Ldy, mode: Mode::Abs, cycles: 4 },
        0xAD => Instr { op: Op::Lda, mode: Mode::Abs, cycles: 4 },
        0xAE => Instr { op: Op::Ldx, mode: Mode::Abs, cycles: 4 },
        0xB0 => Instr { op: Op::Bcs, mode: Mode::Rel, cycles: 2 },
        0xB1 => Instr { op: Op::Lda, mode: Mode::Izy, cycles: 5 },
        0xB4 => Instr { op: Op::Ldy, mode: Mode::Zpx, cycles: 4 },
        0xB5 => Instr { op: Op::Lda, mode: Mode::Zpx, cycles: 4 },
        0xB6 => Instr { op: Op::Ldx, mode: Mode::Zpy, cycles: 4 },
        0xB8 => Instr { op: Op::Clv, mode: Mode::Imp, cycles: 2 },
        0xB9 => Instr { op: Op::Lda, mode: Mode::Aby, cycles: 4 },
        0xBA => Instr { op: Op::Tsx, mode: Mode::Imp, cycles: 2 },
        0xBC => Instr { op: Op::Ldy, mode: Mode::Abx, cycles: 4 },
        0xBD => Instr { op: Op::Lda, mode: Mode::Abx, cycles: 4 },
        0xBE => Instr { op: Op::Ldx, mode: Mode::Aby, cycles: 4 },
        0xC0 => Instr { op: Op::Cpy, mode: Mode::Imm, cycles: 2 },
        0xC1 => Instr { op: Op::Cmp, mode: Mode::Izx, cycles: 6 },
        0xC2 => Instr { op: Op::Skip1, mode: Mode::Imp, cycles: 2 },
        0xC4 => Instr { op: Op::Cpy, mode: Mode::Zp, cycles: 3 },
        0xC5 => Instr { op: Op::Cmp, mode: Mode::Zp, cycles: 3 },
        0xC6 => Instr { op: Op::Dec, mode: Mode::Zp, cycles: 5 },
        0xC8 => Instr { op: Op::Iny, mode: Mode::Imp, cycles: 2 },
        0xC9 => Instr { op: Op::Cmp, mode: Mode::Imm, cycles: 2 },
        0xCA => Instr { op: Op::Dex, mode: Mode::Imp, cycles: 2 },
        0xCC => Instr { op: Op::Cpy, mode: Mode::Abs, cycles: 4 },
        0xCD => Instr { op: Op::Cmp, mode: Mode::Abs, cycles: 4 },
        0xCE => Instr { op: Op::Dec, mode: Mode::Abs, cycles: 6 },
        0xD0 => Instr { op: Op::Bne, mode: Mode::Rel, cycles: 2 },
        0xD1 => Instr { op: Op::Cmp, mode: Mode::Izy, cycles: 5 },
        0xD4 => Instr { op: Op::Skip1, mode: Mode::Imp, cycles: 2 },
        0xD5 => Instr { op: Op::Cmp, mode: Mode::Zpx, cycles: 4 },
        0xD6 => Instr { op: Op::Dec, mode: Mode::Zpx, cycles: 6 },
        0xD8 => Instr { op: Op::Cld, mode: Mode::Imp, cycles: 2 },
        0xD9 => Instr { op: Op::Cmp, mode: Mode::Aby, cycles: 4 },
        0xDA => Instr { op: Op::Nop, mode: Mode::Imp, cycles: 2 },
        0xDC => Instr { op: Op::Skip2, mode: Mode::Imp, cycles: 4 },
        0xDD => Instr { op: Op::Cmp, mode: Mode::Abx, cycles: 4 },
        0xDE => Instr { op: Op::Dec, mode: Mode::Abx, cycles: 7 },
        0xE0 => Instr { op: Op::Cpx, mode: Mode::Imm, cycles: 2 },
        0xE1 => Instr { op: Op::Sbc, mode: Mode::Izx, cycles: 6 },
        0xE2 => Instr { op: Op::Skip1, mode: Mode::Imp, cycles: 2 },
        0xE4 => Instr { op: Op::Cpx, mode: Mode::Zp, cycles: 3 },
        0xE5 => Instr { op: Op::Sbc, mode: Mode::Zp, cycles: 3 },
        0xE6 => Instr { op: Op::Inc, mode: Mode::Zp, cycles: 5 },
        0xE8 => Instr { op: Op::Inx, mode: Mode::Imp, cycles: 2 },
        0xE9 => Instr { op: Op::Sbc, mode: Mode::Imm, cycles: 2 },
        0xEA => Instr { op: Op::Nop, mode: Mode::Imp, cycles: 2 },
        0xEC => Instr { op: Op::Cpx, mode: Mode::Abs, cycles: 4 },
        0xED => Instr { op: Op::Sbc, mode: Mode::Abs, cycles: 4 },
        0xEE => Instr { op: Op::Inc, mode: Mode::Abs, cycles: 6 },
        0xF0 => Instr { op: Op::Beq, mode: Mode::Rel, cycles: 2 },
        0xF1 => Instr { op: Op::Sbc, mode: Mode::Izy, cycles: 5 },
        0xF4 => Instr { op: Op::Skip1, mode: Mode::Imp, cycles: 2 },
        0xF5 => Instr { op: Op::Sbc, mode: Mode::Zpx, cycles: 4 },
        0xF6 => Instr { op: Op::Inc, mode: Mode::Zpx, cycles: 6 },
        0xF8 => Instr { op: Op::Sed, mode: Mode::Imp, cycles: 2 },
        0xF9 => Instr { op: Op::Sbc, mode: Mode::Aby, cycles: 4 },
        0xFA => Instr { op: Op::Nop, mode: Mode::Imp, cycles: 2 },
        0xFC => Instr { op: Op::Skip2, mode: Mode::Imp, cycles: 4 },
        0xFD => Instr { op: Op::Sbc, mode: Mode::Abx, cycles: 4 },
        0xFE => Instr { op: Op::Inc, mode: Mode::Abx, cycles: 7 },
        _ => Instr { op: Op::Nop, mode: Mode::Imp, cycles: 2 },
    }
}

/// Decode an opcode.
pub fn decode(opcode: u8) -> (r: Instr)
    ensures
        r == decode_spec(opcode),
{
    proof {
        reveal(decode_spec);
    }
    match opcode {
        0x00 => Instr { op: Op::Brk, mode: Mode::Imp, cycles: 7 },
        0x01 => Instr { op: Op::Ora, mode: Mode::Izx, cycles: 6 },
        0x04 => Instr { op: Op::Skip1, mode: Mode::Imp, cycles: 2 },
        0x05 => Instr { op: Op::Ora, mode: Mode::Zp, cycles: 3 },
        0x06 => Instr { op: Op::Asl, mode: Mode::Zp, cycles: 5 },
        0x08 => Instr { op: Op::Php, mode: Mode::Imp, cycles: 3 },
        0x09 => Instr { op: Op::Ora, mode: Mode::Imm, cycles: 2 },
        0x0A => Instr { op: Op::Asl, mode: Mode::Acc, cycles: 2 },
        0x0C => Instr { op: Op::Skip2, mode: Mode::Imp, cycles: 4 },
        0x0D => Instr { op: Op::Ora, mode: Mode::Abs, cycles: 4 },
        0x0E => Instr { op: Op::Asl, mode: Mode::Abs, cycles: 6 },
        0x10 => Instr { op: Op::Bpl, mode: Mode::Rel, cycles: 2 },
        0x11 => Instr { op: Op::Ora, mode: Mode::Izy, cycles: 5 },
        0x14 => Instr { op: Op::Skip1, mode: Mode::Imp, cycles: 2 },
        0x15 => Instr { op: Op::Ora, mode: Mode::Zpx, cycles: 4 },
        0x16 => Instr { op: Op::Asl, mode: Mode::Zpx, cycles: 6 },
        0x18 => Instr { op: Op::Clc, mode: Mode::Imp, cycles: 2 },
        0x19 => Instr { op: Op::Ora, mode: Mode::Aby, cycles: 4 },
        0x1A => Instr { op: Op::Nop, mode: Mode::Imp, cycles: 2 },
        0x1C => Instr { op: Op::Skip2, mode: Mode::Imp, cycles: 4 },
        0x1D => Instr { op: Op::Ora, mode: Mode::Abx, cycles: 4 },
        0x1E => Instr { op: Op::Asl, mode: Mode::Abx, cycles: 7 },
        0x20 => Instr { op: Op::Jsr, mode: Mode::Abs, cycles: 6 },
        0x21 => Instr { op: Op::And, mode: Mode::Izx, cycles: 6 },
        0x24 => Instr { op: Op::Bit, mode: Mode::Zp, cycles: 3 },
        0x25 => Instr { op: Op::And, mode: Mode::Zp, cycles: 3 },
        0x26 => Instr { op: Op::Rol, mode: Mode::Zp, cycles: 5 },
        0x28 => Instr { op: Op::Plp, mode: Mode::Imp, cycles: 4 },
        0x29 => Instr { op: Op::And, mode: Mode::Imm, cycles: 2 },
        0x2A => Instr { op: Op::Rol, mode: Mode::Acc, cycles: 2 },
        0x2C => Instr { op: Op::Bit, mode: Mode::Abs, cycles: 4 },
        0x2D => Instr { op: Op::And, mode: Mode::Abs, cycles: 4 },
        0x2E => Instr { op: Op::Rol, mode: Mode::Abs, cycles: 6 },
        0x30 => Instr { op: Op::Bmi, mode: Mode::Rel, cycles: 2 },
        0x31 => Instr { op: Op::And, mode: Mode::Izy, cycles: 5 },
        0x34 => Instr { op: Op::Skip1, mode: Mode::Imp, cycles: 2 },
        0x35 => Instr { op: Op::And, mode: Mode::Zpx, cycles: 4 },
        0x36 => Instr { op: Op::Rol, mode: Mode::Zpx, cycles: 6 },
        0x38 => Instr { op: Op::Sec, mode: Mode::Imp, cycles: 2 },
        0x39 => Instr { op: Op::And, mode: Mode::Aby, cycles: 4 },
        0x3A => Instr { op: Op::Nop, mode: Mode::Imp, cycles: 2 },
        0x3C => Instr { op: Op::Skip2, mode: Mode::Imp, cycles: 4 },
        0x3D => Instr { op: Op::And, mode: Mode::Abx, cycles: 4 },
        0x3E => Instr { op: Op::Rol, mode: Mode::Abx, cycles: 7 },
        0x40 => Instr { op: Op::Rti, mode: Mode::Imp, cycles: 6 },
        0x41 => Instr { op: Op::Eor, mode: Mode::Izx, cycles: 6 },
        0x44 => Instr { op: Op::Skip1, mode: Mode::Imp, cycles: 2 },
        0x45 => Instr { op: Op::Eor, mode: Mode::Zp, cycles: 3 },
        0x46 => Instr { op: Op::Lsr, mode: Mode::Zp, cycles: 5 },
        0x48 => Instr { op: Op::Pha, mode: Mode::Imp, cycles: 3 },
        0x49 => Instr { op: Op::Eor, mode: Mode::Imm, cycles: 2 },
        0x4A => Instr { op: Op::Lsr, mode: Mode::Acc, cycles: 2 },
        0x4C => Instr { op: Op::Jmp, mode: Mode::Abs, cycles: 3 },
        0x4D => Instr { op: Op::Eor, mode: Mode::Abs, cycles: 4 },
        0x4E => Instr { op: Op::Lsr, mode: Mode::Abs, cycles: 6 },
        0x50 => Instr { op: Op::Bvc, mode: Mode::Rel, cycles: 2 },
        0x51 => Instr { op: Op::Eor, mode: Mode::Izy, cycles: 5 },
        0x54 => Instr { op: Op::Skip1, mode: Mode::Imp, cycles: 2 },
        0x55 => Instr { op: Op::Eor, mode: Mode::Zpx, cycles: 4 },
        0x56 => Instr { op: Op::Lsr, mode: Mode::Zpx, cycles: 6 },
        0x58 => Instr { op: Op::Cli, mode: Mode::Imp, cycles: 2 },
        0x59 => Instr { op: Op::Eor, mode: Mode::Aby, cycles: 4 },
        0x5A => Instr { op: Op::Nop, mode: Mode::Imp, cycles: 2 },
        0x5C => Instr { op: Op::Skip2, mode: Mode::Imp, cycles: 4 },
        0x5D => Instr { op: Op::Eor, mode: Mode::Abx, cycles: 4 },
        0x5E => Instr { op: Op::Lsr, mode: Mode::Abx, cycles: 7 },
        0x60 => Instr { op: Op::Rts, mode: Mode::Imp, cycles: 6 },
        0x61 => Instr { op: Op::Adc, mode: Mode::Izx, cycles: 6 },
        0x64 => Instr { op: Op::Skip1, mode: Mode::Imp, cycles: 2 },
        0x65 => Instr { op: Op::Adc, mode: Mode::Zp, cycles: 3 },
        0x66 => Instr { op: Op::Ror, mode: Mode::Zp, cycles: 5 },
        0x68 => Instr { op: Op::Pla, mode: Mode::Imp, cycles: 4 },
        0x69 => Instr { op: Op::Adc, mode: Mode::Imm, cycles: 2 },
        0x6A => Instr { op: Op::Ror, mode: Mode::Acc, cycles: 2 },
        0x6C => Instr { op: Op::Jmp, mode: Mode::Ind, cycles: 5 },
        0x6D => Instr { op: Op::Adc, mode: Mode::Abs, cycles: 4 },
        0x6E => Instr { op: Op::Ror, mode: Mode::Abs, cycles: 6 },
        0x70 => Instr { op: Op::Bvs, mode: Mode::Rel, cycles: 2 },
        0x71 => Instr { op: Op::Adc, mode: Mode::Izy, cycles: 5 },
        0x74 => Instr { op: Op::Skip1, mode: Mode::Imp, cycles: 2 },
        0x75 => Instr { op: Op::Adc, mode: Mode::Zpx, cycles: 4 },
        0x76 => Instr { op: Op::Ror, mode: Mode::Zpx, cycles: 6 },
        0x78 => Instr { op: Op::Sei, mode: Mode::Imp, cycles: 2 },
        0x79 => Instr { op: Op::Adc, mode: Mode::Aby, cycles: 4 },
        0x7A => Instr { op: Op::Nop, mode: Mode::Imp, cycles: 2 },
        0x7C => Instr { op: Op::Skip2, mode: Mode::Imp, cycles: 4 },
        0x7D => Instr { op: Op::Adc, mode: Mode::Abx, cycles: 4 },
        0x7E => Instr { op: Op::Ror, mode: Mode::Abx, cycles: 7 },
        0x80 => Instr { op: Op::Skip1, mode: Mode::Imp, cycles: 2 },
        0x81 => Instr { op: Op::Sta, mode: Mode::Izx, cycles: 6 },
        0x82 => Instr { op: Op::Skip1, mode: Mode::Imp, cycles: 2 },
        0x84 => Instr { op: Op::Sty, mode: Mode::Zp, cycles: 3 },
        0x85 => Instr { op: Op::Sta, mode: Mode::Zp, cycles: 3 },
        0x86 => Instr { op: Op::Stx, mode: Mode::Zp, cycles: 3 },
        0x88 => Instr { op: Op::Dey, mode: Mode::Imp, cycles: 2 },
        0x89 => Instr { op: Op::Skip1, mode: Mode::Imp, cycles: 2 },
        0x8A => Instr { op: Op::Txa, mode: Mode::Imp, cycles: 2 },
        0x8C => Instr { op: Op::Sty, mode: Mode::Abs, cycles: 4 },
        0x8D => Instr { op: Op::Sta, mode: Mode::Abs, cycles: 4 },
        0x8E => Instr { op: Op::Stx, mode: Mode::Abs, cycles: 4 },
        0x90 => Instr { op: Op::Bcc, mode: Mode::Rel, cycles: 2 },
        0x91 => Instr { op: Op::Sta, mode: Mode::Izy, cycles: 6 },
        0x94 => Instr { op: Op::Sty, mode: Mode::Zpx, cycles: 4 },
        0x95 => Instr { op: Op::Sta, mode: Mode::Zpx, cycles: 4 },
        0x96 => Instr { op: Op::Stx, mode: Mode::Zpy, cycles: 4 },
        0x98 => Instr { op: Op::Tya, mode: Mode::Imp, cycles: 2 },
        0x99 => Instr { op: Op::Sta, mode: Mode::Aby, cycles: 5 },
        0x9A => Instr { op: Op::Txs, mode: Mode::Imp, cycles: 2 },
        0x9D => Instr { op: Op::Sta, mode: Mode::Abx, cycles: 5 },
        0xA0 => Instr { op: Op::Ldy, mode: Mode::Imm, cycles: 2 },
        0xA1 => Instr { op: Op::Lda, mode: Mode::Izx, cycles: 6 },
        0xA2 => Instr { op: Op::Ldx, mode: Mode::Imm, cycles: 2 },
        0xA4 => Instr { op: Op::Ldy, mode: Mode::Zp, cycles: 3 },
        0xA5 => Instr { op: Op::Lda, mode: Mode::Zp, cycles: 3 },
        0xA6 => Instr { op: Op::Ldx, mode: Mode::Zp, cycles: 3 },
        0xA8 => Instr { op: Op::Tay, mode: Mode::Imp, cycles: 2 },
        0xA9 => Instr { op: Op::Lda, mode: Mode::Imm, cycles: 2 },
        0xAA => Instr { op: Op::Tax, mode: Mode::Imp, cycles: 2 },
        0xAC => Instr { op: Op::Ldy, mode: Mode::Abs, cycles: 4 },
        0xAD => Instr { op: Op::Lda, mode: Mode::Abs, cycles: 4 },
        0xAE => Instr { op: Op::Ldx, mode: Mode::Abs, cycles: 4 },
        0xB0 => Instr { op: Op::Bcs, mode: Mode::Rel, cycles: 2 },
        0xB1 => Instr { op: Op::Lda, mode: Mode::Izy, cycles: 5 },
        0xB4 => Instr { op: Op::Ldy, mode: Mode::Zpx, cycles: 4 },
        0xB5 => Instr { op: Op::Lda, mode: Mode::Zpx, cycles: 4 },
        0xB6 => Instr { op: Op::Ldx, mode: Mode::Zpy, cycles: 4 },
        0xB8 => Instr { op: Op::Clv, mode: Mode::Imp, cycles: 2 },
        0xB9 => Instr { op: Op::Lda, mode: Mode::Aby, cycles: 4 },
        0xBA => Instr { op: Op::Tsx, mode: Mode::Imp, cycles: 2 },
        0xBC => Instr { op: Op::Ldy, mode: Mode::Abx, cycles: 4 },
        0xBD => Instr { op: Op::Lda, mode: Mode::Abx, cycles: 4 },
        0xBE => Instr { op: Op::Ldx, mode: Mode::Aby, cycles: 4 },
        0xC0 => Instr { op: Op::Cpy, mode: Mode::Imm, cycles: 2 },
        0xC1 => Instr { op: Op::Cmp, mode: Mode::Izx, cycles: 6 },
        0xC2 => Instr { op: Op::Skip1, mode: Mode::Imp, cycles: 2 },
        0xC4 => Instr { op: Op::Cpy, mode: Mode::Zp, cycles: 3 },
        0xC5 => Instr { op: Op::Cmp, mode: Mode::Zp, cycles: 3 },
        0xC6 => Instr { op: Op::Dec, mode: Mode::Zp, cycles: 5 },
        0xC8 => Instr { op: Op::Iny, mode: Mode::Imp, cycles: 2 },
        0xC9 => Instr { op: Op::Cmp, mode: Mode::Imm, cycles: 2 },
        0xCA => Instr { op: Op::Dex, mode: Mode::Imp, cycles: 2 },
        0xCC => Instr { op: Op::Cpy, mode: Mode::Abs, cycles: 4 },
        0xCD => Instr { op: Op::Cmp, mode: Mode::Abs, cycles: 4 },
        0xCE => Instr { op: Op::Dec, mode: Mode::Abs, cycles: 6 },
        0xD0 => Instr { op: Op::Bne, mode: Mode::Rel, cycles: 2 },
        0xD1 => Instr { op: Op::Cmp, mode: Mode::Izy, cycles: 5 },
        0xD4 => Instr { op: Op::Skip1, mode: Mode::Imp, cycles: 2 },
        0xD5 => Instr { op: Op::Cmp, mode: Mode::Zpx, cycles: 4 },
        0xD6 => Instr { op: Op::Dec, mode: Mode::Zpx, cycles: 6 },
        0xD8 => Instr { op: Op::Cld, mode: Mode::Imp, cycles: 2 },
        0xD9 => Instr { op: Op::Cmp, mode: Mode::Aby, cycles: 4 },
        0xDA => Instr { op: Op::Nop, mode: Mode::Imp, cycles: 2 },
        0xDC => Instr { op: Op::Skip2, mode: Mode::Imp, cycles: 4 },
        0xDD => Instr { op: Op::Cmp, mode: Mode::Abx, cycles: 4 },
        0xDE => Instr { op: Op::Dec, mode: Mode::Abx, cycles: 7 },
        0xE0 => Instr { op: Op::Cpx, mode: Mode::Imm, cycles: 2 },
        0xE1 => Instr { op: Op::Sbc, mode: Mode::Izx, cycles: 6 },
        0xE2 => Instr { op: Op::Skip1, mode: Mode::Imp, cycles: 2 },
        0xE4 => Instr { op: Op::Cpx, mode: Mode::Zp, cycles: 3 },
        0xE5 => Instr { op: Op::Sbc, mode: Mode::Zp, cycles: 3 },
        0xE6 => Instr { op: Op::Inc, mode: Mode::Zp, cycles: 5 },
        0xE8 => Instr { op: Op::Inx, mode: Mode::Imp, cycles: 2 },
        0xE9 => Instr { op: Op::Sbc, mode: Mode::Imm, cycles: 2 },
        0xEA => Instr { op: Op::Nop, mode: Mode::Imp, cycles: 2 },
        0xEC => Instr { op: Op::Cpx, mode: Mode::Abs, cycles: 4 },
        0xED => Instr { op: Op::Sbc, mode: Mode::Abs, cycles: 4 },
        0xEE => Instr { op: Op::Inc, mode: Mode::Abs, cycles: 6 },
        0xF0 => Instr { op: Op::Beq, mode: Mode::Rel, cycles: 2 },
        0xF1 => Instr { op: Op::Sbc, mode: Mode::Izy, cycles: 5 },
        0xF4 => Instr { op: Op::Skip1, mode: Mode::Imp, cycles: 2 },
        0xF5 => Instr { op: Op::Sbc, mode: Mode::Zpx, cycles: 4 },
        0xF6 => Instr { op: Op::Inc, mode: Mode::Zpx, cycles: 6 },
        0xF8 => Instr { op: Op::Sed, mode: Mode::Imp, cycles: 2 },
        0xF9 => Instr { op: Op::Sbc, mode: Mode::Aby, cycles: 4 },
        0xFA => Instr { op: Op::Nop, mode: Mode::Imp, cycles: 2 },
        0xFC => Instr { op: Op::Skip2, mode: Mode::Imp, cycles: 4 },
        0xFD => Instr { op: Op::Sbc, mode: Mode::Abx, cycles: 4 },
        0xFE => Instr { op: Op::Inc, mode: Mode::Abx, cycles: 7 },
        _ => Instr { op: Op::Nop, mode: Mode::Imp, cycles: 2 },
    }
}

/// Operations whose indexed forms take one extra cycle on a page cross.
pub open spec fn has_page_penalty(op: Op) -> bool {
    match op {
        Op::Adc | Op::And | Op::Cmp | Op::Eor | Op::Lda | Op::Ldx | Op::Ldy | Op::Ora | Op::Sbc => true,
        _ => false,
    }
}

// ---------------------------------------------------------------------
// Bus traces and the step specification
// ---------------------------------------------------------------------

/// The byte carried by a bus event.
pub open spec fn ev_value(e: BusEvent) -> u8 {
    match e {
        BusEvent::Read(_, v) => v,
        BusEvent::Write(_, v) => v,
    }
}

/// `t` is a prefix of `u`.
pub open spec fn ext(t: Seq<BusEvent>, u: Seq<BusEvent>) -> bool {
    &&& t.len() <= u.len()
    &&& forall|i: int| #![trigger u[i]] 0 <= i < t.len() ==> u[i] == t[i]
}

/// Prefixes compose.
pub proof fn lemma_ext_trans(a: Seq<BusEvent>, b: Seq<BusEvent>, c: Seq<BusEvent>)
    requires
        ext(a, b),
        ext(b, c),
    ensures
        ext(a, c),
{
    assert forall|i: int| 0 <= i < a.len() implies #[trigger] c[i] == a[i] by {
        assert(c[i] == b[i]);
    }
}

/// Append an event to the CPU's trace.
pub open spec fn log(c: Cpu, e: BusEvent) -> Cpu {
    Cpu { trace: Ghost(c.trace@.push(e)), ..c }
}

/// A read of `addr`.  Its value is the one found at this read's position in
/// `t`, the complete trace of the step.
pub open spec fn s_read(c: Cpu, t: Seq<BusEvent>, addr: u16) -> (Cpu, u8) {
    let v = ev_value(t[c.trace@.len() as int]);
    (log(c, BusEvent::Read(addr, v)), v)
}

/// A write of `v` to `addr`.
pub open spec fn s_write(c: Cpu, addr: u16, v: u8) -> Cpu {
    log(c, BusEvent::Write(addr, v))
}

/// Read the byte at PC and advance PC.
pub open spec fn s_fetch(c: Cpu, t: Seq<BusEvent>) -> (Cpu, u8) {
    let (c1, v) = s_read(c, t, c.pc);
    (Cpu { pc: add16(c.pc, 1), ..c1 }, v)
}

/// Push a byte on the stack (page 1).
pub open spec fn s_push(c: Cpu, v: u8) -> Cpu {
    let c1 = s_write(c, 0x0100u16 | (c.sp as u16), v);
    Cpu { sp: sub8(c.sp, 1), ..c1 }
}

/// Pop a byte from the stack.
pub open spec fn s_pop(c: Cpu, t: Seq<BusEvent>) -> (Cpu, u8) {
    let c0 = Cpu { sp: add8(c.sp, 1), ..c };
    s_read(c0, t, 0x0100u16 | (c0.sp as u16))
}

/// Read a 16-bit operand at PC and advance PC by two.
pub open spec fn s_abs_addr(c: Cpu, t: Seq<BusEvent>) -> (Cpu, u16) {
    let (c1, lo) = s_read(c, t, c.pc);
    let (c2, hi) = s_read(c1, t, add16(c.pc, 1));
    (Cpu { pc: add16(c.pc, 2), ..c2 }, word(lo, hi))
}

/// Effective address of an operand, with the page-cross indication.
pub open spec fn s_ea(c: Cpu, t: Seq<BusEvent>, mode: Mode) -> (Cpu, u16, bool) {
    match mode {
        Mode::Imm => (Cpu { pc: add16(c.pc, 1), ..c }, c.pc, false),
        Mode::Zp => {
            let (c1, z) = s_fetch(c, t);
            (c1, z as u16, false)
        },
        Mode::Zpx => {
            let (c1, z) = s_fetch(c, t);
            (c1, add8(z, c.x) as u16, false)
        },
        Mode::Zpy => {
            let (c1, z) = s_fetch(c, t);
            (c1, add8(z, c.y) as u16, false)
        },
        Mode::Abs => {
            let (c1, a) = s_abs_addr(c, t);
            (c1, a, false)
        },
        Mode::Abx => {
            let (c1, b) = s_abs_addr(c, t);
            let a = add16(b, c.x as u16);
            (c1, a, page_crossed(b, a))
        },
        Mode::Aby => {
            let (c1, b) = s_abs_addr(c, t);
            let a = add16(b, c.y as u16);
            (c1, a, page_crossed(b, a))
        },
        Mode::Izx => {
            let (c1, z) = s_fetch(c, t);
            let zp = add8(z, c.x) as u16;
            let (c2, lo) = s_read(c1, t, zp);
            let (c3, hi) = s_read(c2, t, add16(zp, 1) & 0xFF);
            (c3, word(lo, hi), false)
        },
        Mode::Izy => {
            let (c1, z) = s_fetch(c, t);
            let zp = z as u16;
            let (c2, lo) = s_read(c1, t, zp);
            let (c3, hi) = s_read(c2, t, add16(zp, 1) & 0xFF);
            let b = word(lo, hi);
            let a = add16(b, c.y as u16);
            (c3, a, page_crossed(b, a))
        },
        _ => (c, 0u16, false),
    }
}

/// Register effect of a read-class operation on operand `v`.
pub open spec fn s_alu(op: Op, c: Cpu, v: u8) -> Cpu {
    match op {
        Op::Adc => { let (a, ps) = adc_spec(c.a, v, c.ps); Cpu { a, ps, ..c } },
        Op::Sbc => { let (a, ps) = sbc_spec(c.a, v, c.ps); Cpu { a, ps, ..c } },
        Op::And => Cpu { a: c.a & v, ps: nz(c.ps, c.a & v), ..c },
        Op::Ora => Cpu { a: c.a | v, ps: nz(c.ps, c.a | v), ..c },
        Op::Eor => Cpu { a: c.a ^ v, ps: nz(c.ps, c.a ^ v), ..c },
        Op::Cmp => Cpu { ps: cmp_spec(c.a, v, c.ps), ..c },
        Op::Cpx => Cpu { ps: cmp_spec(c.x, v, c.ps), ..c },
        Op::Cpy => Cpu { ps: cmp_spec(c.y, v, c.ps), ..c },
        Op::Bit => Cpu { ps: bit_spec(c.a, v, c.ps), ..c },
        Op::Lda => Cpu { a: v, ps: nz(c.ps, v), ..c },
        Op::Ldx => Cpu { x: v, ps: nz(c.ps, v), ..c },
        Op::Ldy => Cpu { y: v, ps: nz(c.ps, v), ..c },
        _ => c,
    }
}

/// Operations that read one operand and update registers from it.
pub open spec fn is_read_op(op: Op) -> bool {
    match op {
        Op::Adc | Op::Sbc | Op::And | Op::Ora | Op::Eor | Op::Cmp | Op::Cpx | Op::Cpy | Op::Bit
        | Op::Lda | Op::Ldx | Op::Ldy => true,
        _ => false,
    }
}

/// Register effect of an implied-mode operation.
pub open spec fn s_implied(op: Op, c: Cpu) -> Cpu {
    match op {
        Op::Clc => Cpu { ps: c.ps & !FLAG_C, ..c },
        Op::Cld => Cpu { ps: c.ps & !FLAG_D, ..c },
        Op::Cli => Cpu { ps: c.ps & !FLAG_I, ..c },
        Op::Clv => Cpu { ps: c.ps & !FLAG_V, ..c },
        Op::Sec => Cpu { ps: c.ps | FLAG_C, ..c },
        Op::Sed => Cpu { ps: c.ps | FLAG_D, ..c },
        Op::Sei => Cpu { ps: c.ps | FLAG_I, ..c },
        Op::Dex => Cpu { x: sub8(c.x, 1), ps: nz(c.ps, sub8(c.x, 1)), ..c },
        Op::Dey => Cpu { y: sub8(c.y, 1), ps: nz(c.ps, sub8(c.y, 1)), ..c },
        Op::Inx => Cpu { x: add8(c.x, 1), ps: nz(c.ps, add8(c.x, 1)), ..c },
        Op::Iny => Cpu { y: add8(c.y, 1), ps: nz(c.ps, add8(c.y, 1)), ..c },
        Op::Tax => Cpu { x: c.a, ps: nz(c.ps, c.a), ..c },
        Op::Tay => Cpu { y: c.a, ps: nz(c.ps, c.a), ..c },
        Op::Tsx => Cpu { x: c.sp, ps: nz(c.ps, c.sp), ..c },
        Op::Txa => Cpu { a: c.x, ps: nz(c.ps, c.x), ..c },
        Op::Txs => Cpu { sp: c.x, ..c },
        Op::Tya => Cpu { a: c.y, ps: nz(c.ps, c.y), ..c },
        Op::Skip1 => Cpu { pc: add16(c.pc, 1), ..c },
        Op::Skip2 => Cpu { pc: add16(c.pc, 2), ..c },
        _ => c,
    }
}

/// Operations handled by `s_implied`.
pub open spec fn is_implied_op(op: Op) -> bool {
    match op {
        Op::Clc | Op::Cld | Op::Cli | Op::Clv | Op::Sec | Op::Sed | Op::Sei | Op::Dex | Op::Dey
        | Op::Inx | Op::Iny | Op::Tax | Op::Tay | Op::Tsx | Op::Txa | Op::Txs | Op::Tya
        | Op::Skip1 | Op::Skip2 | Op::Nop => true,
        _ => false,
    }
}

/// Branch condition of a branch operation.
pub open spec fn branch_cond(op: Op, ps: u8) -> bool {
    match op {
        Op::Bcc => ps & FLAG_C == 0,
        Op::Bcs => ps & FLAG_C != 0,
        Op::Beq => ps & FLAG_Z != 0,
        Op::Bne => ps & FLAG_Z == 0,
        Op::Bmi => ps & FLAG_N != 0,
        Op::Bpl => ps & FLAG_N == 0,
        Op::Bvs => ps & FLAG_V != 0,
        Op::Bvc => ps & FLAG_V == 0,
        _ => false,
    }
}

/// Branch operations.
pub open spec fn is_branch_op(op: Op) -> bool {
    match op {
        Op::Bcc | Op::Bcs | Op::Beq | Op::Bne | Op::Bmi | Op::Bpl | Op::Bvs | Op::Bvc => true,
        _ => false,
    }
}

/// Shift operations and their kind.
pub open spec fn shift_kind(op: Op) -> ShiftKind {
    match op {
        Op::Asl => ShiftKind::Asl,
        Op::Lsr => ShiftKind::Lsr,
        Op::Rol => ShiftKind::Rol,
        _ => ShiftKind::Ror,
    }
}

/// Read-modify-write result for INC/DEC/shifts: new value and status.
pub open spec fn rmw_spec(op: Op, v: u8, ps: u8) -> (u8, u8) {
    match op {
        Op::Inc => (add8(v, 1), nz(ps, add8(v, 1))),
        Op::Dec => (sub8(v, 1), nz(ps, sub8(v, 1))),
        _ => shift_spec(shift_kind(op), v, ps),
    }
}

/// Push PC (high then low), push a status byte, set I and load PC from a vector.
pub open spec fn s_interrupt(c: Cpu, t: Seq<BusEvent>, pushed_ps: u8, vector: u16) -> Cpu {
    let c1 = s_push(c, (c.pc >> 8u16) as u8);
    let c2 = s_push(c1, (c.pc & 0xFF) as u8);
    let c3 = s_push(c2, pushed_ps);
    let c4 = Cpu { ps: c.ps | FLAG_I, ..c3 };
    let (c5, lo) = s_read(c4, t, vector);
    let (c6, hi) = s_read(c5, t, add16(vector, 1));
    Cpu { pc: word(lo, hi), ..c6 }
}

/// Effect of one decoded instruction (operand bytes follow the opcode at PC):
/// the resulting CPU and the number of cycles taken.
#[verifier::opaque]
pub open spec fn s_exec(c: Cpu, t: Seq<BusEvent>, ins: Instr) -> (Cpu, u64) {
    let base = ins.cycles as u64;
    if is_read_op(ins.op) {
        let (c1, addr, crossed) = s_ea(c, t, ins.mode);
        let (c2, v) = s_read(c1, t, addr);
        (s_alu(ins.op, c2, v), if crossed && has_page_penalty(ins.op) { (base + 1) as u64 } else { base })
    } else if is_implied_op(ins.op) {
        (s_implied(ins.op, c), base)
    } else if is_branch_op(ins.op) {
        let (c1, off) = s_fetch(c, t);
        if branch_cond(ins.op, c.ps) {
            let target = rel_target(c1.pc, off);
            (Cpu { pc: target, ..c1 }, if page_crossed(c1.pc, target) { 4u64 } else { 3u64 })
        } else {
            (c1, 2u64)
        }
    } else {
        match ins.op {
            Op::Sta | Op::Stx | Op::Sty => {
                let (c1, addr, _crossed) = s_ea(c, t, ins.mode);
                let v = if ins.op == Op::Sta { c.a } else if ins.op == Op::Stx { c.x } else { c.y };
                (s_write(c1, addr, v), base)
            },
            Op::Asl | Op::Lsr | Op::Rol | Op::Ror | Op::Inc | Op::Dec => {
                if ins.mode == Mode::Acc {
                    let (r, ps) = rmw_spec(ins.op, c.a, c.ps);
                    (Cpu { a: r, ps, ..c }, base)
                } else {
                    let (c1, addr, _crossed) = s_ea(c, t, ins.mode);
                    let (c2, v) = s_read(c1, t, addr);
                    let (r, ps) = rmw_spec(ins.op, v, c2.ps);
                    (Cpu { ps, ..s_write(c2, addr, r) }, base)
                }
            },
            Op::Jmp => {
                let (c1, addr) = s_abs_addr(c, t);
                if ins.mode == Mode::Ind {
                    let (c2, lo) = s_read(c1, t, addr);
                    let (c3, hi) = s_read(c2, t, (addr & 0xFF00) | (add16(addr, 1) & 0x00FF));
                    (Cpu { pc: word(lo, hi), ..c3 }, base)
                } else {
                    (Cpu { pc: addr, ..c1 }, base)
                }
            },
            Op::Jsr => {
                let (c1, addr) = s_abs_addr(c, t);
                let ret = sub16(c1.pc, 1);
                let c2 = s_push(c1, (ret >> 8u16) as u8);
                let c3 = s_push(c2, (ret & 0xFF) as u8);
                (Cpu { pc: addr, ..c3 }, base)
            },
            Op::Rts => {
                let (c1, lo) = s_pop(c, t);
                let (c2, hi) = s_pop(c1, t);
                (Cpu { pc: add16(word(lo, hi), 1), ..c2 }, base)
            },
            Op::Rti => {
                let (c1, p) = s_pop(c, t);
                let (c2, lo) = s_pop(c1, t);
                let (c3, hi) = s_pop(c2, t);
                (Cpu { ps: (p & !FLAG_B) | FLAG_U, pc: word(lo, hi), ..c3 }, base)
            },
            Op::Brk => {
                let c1 = Cpu { pc: add16(c.pc, 1), ..c };
                (s_interrupt(c1, t, c.ps | FLAG_B | FLAG_U, IRQ_VECTOR), base)
            },
            Op::Pha => (s_push(c, c.a), base),
            Op::Php => (s_push(c, c.ps | FLAG_B | FLAG_U), base),
            Op::Pla => {
                let (c1, v) = s_pop(c, t);
                (Cpu { a: v, ps: nz(c.ps, v), ..c1 }, base)
            },
            Op::Plp => {
                let (c1, v) = s_pop(c, t);
                (Cpu { ps: (v & !FLAG_B) | FLAG_U, ..c1 }, base)
            },
            _ => (c, base),
        }
    }
}

/// One CPU step: service a pending NMI, else a pending unmasked IRQ, else
/// fetch, decode and execute one instruction.  The trace of the step
/// starts empty; the result is the new CPU and the cycles consumed.
pub open spec fn s_step(c: Cpu, t: Seq<BusEvent>) -> (Cpu, u64) {
    let c0 = Cpu { trace: Ghost(Seq::<BusEvent>::empty()), ..c };
    let (c1, n) = if c.nmi_pending {
        (Cpu { nmi_pending: false, ..s_interrupt(c0, t, c.ps & !FLAG_B, NMI_VECTOR) }, 7u64)
    } else if c.irq_pending && c.ps & FLAG_I == 0 {
        (Cpu { irq_pending: false, ..s_interrupt(c0, t, c.ps & !FLAG_B, IRQ_VECTOR) }, 7u64)
    } else {
        let (c2, opcode) = s_fetch(c0, t);
        s_exec(c2, t, decode_spec(opcode))
    };
    (Cpu { cycles: add64(c.cycles, n), ..c1 }, n)
}

/// 64-bit wrapping addition.
pub open spec fn add64(x: u64, y: u64) -> u64 {
    if x + y > 0xFFFF_FFFF_FFFF_FFFF { (x + y - 0x1_0000_0000_0000_0000) as u64 } else { (x + y) as u64 }
}

// ---------------------------------------------------------------------
// ALU (executable)
// ---------------------------------------------------------------------

/// Status byte with N and Z set from `value`.
fn set_nz(ps: u8, value: u8) -> (r: u8)
    ensures
        r == nz(ps, value),
{
    (ps & !(FLAG_N | FLAG_Z)) | (if value & 0x80 != 0 { FLAG_N } else { 0 }) | (if value == 0 { FLAG_Z } else { 0 })
}

/// ADC: add with carry, binary or decimal depending on the D flag.
pub fn adc(a: u8, operand: u8, ps: u8) -> (r: (u8, u8))
    ensures
        r == adc_spec(a, operand, ps),
{
    let c = ps & FLAG_C;
    assert(c <= 1) by (bit_vector)
        requires
            c == ps & 0x01u8,
    ;
    if ps & FLAG_D != 0 {
        assert((a & 0x0F) <= 15 && (operand & 0x0F) <= 15 && (a >> 4) <= 15 && (operand >> 4) <= 15)
            by (bit_vector);
        let mut lo = (a & 0x0F) + (operand & 0x0F) + c;
        if lo > 9 {
            lo += 6;
        }
        let mut hi = (a >> 4) + (operand >> 4) + if lo > 0x0F { 1 } else { 0 };
        if hi > 9 {
            hi += 6;
        }
        let result = (lo & 0x0F) | (hi << 4);
        let overflow = (!((a ^ operand) & 0x80) & ((a ^ (hi << 4)) & 0x80)) != 0;
        let ps2 = (ps & !(FLAG_N | FLAG_V | FLAG_Z | FLAG_C))
            | (if hi > 0x0F { FLAG_C } else { 0 })
            | (if result == 0 { FLAG_Z } else { 0 })
            | (if result & 0x80 != 0 { FLAG_N } else { 0 })
            | (if overflow { FLAG_V } else { 0 });
        (result, ps2)
    } else {
        let sum: u16 = a as u16 + operand as u16 + c as u16;
        let result: u8 = if sum > 0xFF { (sum - 0x100) as u8 } else { sum as u8 };
        let overflow = (!(a ^ operand) & (a ^ result) & 0x80) != 0;
        let ps2 = (ps & !(FLAG_N | FLAG_V | FLAG_Z | FLAG_C))
            | (if sum > 0xFF { FLAG_C } else { 0 })
            | (if result == 0 { FLAG_Z } else { 0 })
            | (if result & 0x80 != 0 { FLAG_N } else { 0 })
            | (if overflow { FLAG_V } else { 0 });
        (result, ps2)
    }
}

/// SBC: subtract with borrow, binary or decimal depending on the D flag.
pub fn sbc(a: u8, operand: u8, ps: u8) -> (r: (u8, u8))
    ensures
        r == sbc_spec(a, operand, ps),
{
    let borrow: u8 = if ps & FLAG_C != 0 { 0 } else { 1 };
    let raw: i16 = a as i16 - operand as i16 - borrow as i16;
    if ps & FLAG_D != 0 {
        let mut lo = (a & 0x0F).wrapping_sub(operand & 0x0F).wrapping_sub(borrow);
        if lo & 0x10 != 0 {
            lo = lo.wrapping_sub(6);
        }
        let mut hi = (a >> 4).wrapping_sub(operand >> 4).wrapping_sub(if lo & 0x10 != 0 { 1 } else { 0 });
        if hi & 0x10 != 0 {
            hi = hi.wrapping_sub(6);
        }
        let result = (lo & 0x0F) | (hi << 4);
        let overflow = ((a ^ operand) & (a ^ result) & 0x80) != 0;
        let ps2 = (ps & !(FLAG_N | FLAG_V | FLAG_Z | FLAG_C))
            | (if raw >= 0 { FLAG_C } else { 0 })
            | (if result == 0 { FLAG_Z } else { 0 })
            | (if result & 0x80 != 0 { FLAG_N } else { 0 })
            | (if overflow { FLAG_V } else { 0 });
        (result, ps2)
    } else {
        let result: u8 = if raw >= 0 { raw as u8 } else { (raw + 256) as u8 };
        let overflow = ((a ^ operand) & (a ^ result) & 0x80) != 0;
        let ps2 = (ps & !(FLAG_N | FLAG_V | FLAG_Z | FLAG_C))
            | (if raw >= 0 { FLAG_C } else { 0 })
            | (if result == 0 { FLAG_Z } else { 0 })
            | (if result & 0x80 != 0 { FLAG_N } else { 0 })
            | (if overflow { FLAG_V } else { 0 });
        (result, ps2)
    }
}

/// CMP/CPX/CPY flags.
pub fn cmp(reg: u8, operand: u8, ps: u8) -> (r: u8)
    ensures
        r == cmp_spec(reg, operand, ps),
{
    let diff = reg.wrapping_sub(operand);
    (ps & !(FLAG_N | FLAG_Z | FLAG_C))
        | (if diff & 0x80 != 0 { FLAG_N } else { 0 })
        | (if diff == 0 { FLAG_Z } else { 0 })
        | (if reg >= operand { FLAG_C } else { 0 })
}

/// Read-modify-write operations (INC, DEC, ASL, LSR, ROL, ROR).
fn rmw(op: Op, value: u8, ps: u8) -> (r: (u8, u8))
    ensures
        r == rmw_spec(op, value, ps),
{
    let old_carry = ps & FLAG_C;
    match op {
        Op::Inc => { let v = value.wrapping_add(1); (v, set_nz(ps, v)) },
        Op::Dec => { let v = value.wrapping_sub(1); (v, set_nz(ps, v)) },
        Op::Asl => {
            let c = (ps & !FLAG_C) | if value & 0x80 != 0 { FLAG_C } else { 0 };
            let v = value << 1;
            (v, set_nz(c, v))
        },
        Op::Lsr => {
            let c = (ps & !FLAG_C) | if value & 0x01 != 0 { FLAG_C } else { 0 };
            let v = value >> 1;
            (v, set_nz(c, v))
        },
        Op::Rol => {
            let c = (ps & !FLAG_C) | if value & 0x80 != 0 { FLAG_C } else { 0 };
            let v = (value << 1) | old_carry;
            (v, set_nz(c, v))
        },
        _ => {
            let c = (ps & !FLAG_C) | if value & 0x01 != 0 { FLAG_C } else { 0 };
            let v = (value >> 1) | (old_carry << 7);
            (v, set_nz(c, v))
        },
    }
}

fn op_is_read(op: Op) -> (r: bool)
    ensures
        r == is_read_op(op),
{
    match op {
        Op::Adc | Op::Sbc | Op::And | Op::Ora | Op::Eor | Op::Cmp | Op::Cpx | Op::Cpy | Op::Bit
        | Op::Lda | Op::Ldx | Op::Ldy => true,
        _ => false,
    }
}

fn op_is_implied(op: Op) -> (r: bool)
    ensures
        r == is_implied_op(op),
{
    match op {
        Op::Clc | Op::Cld | Op::Cli | Op::Clv | Op::Sec | Op::Sed | Op::Sei | Op::Dex | Op::Dey
        | Op::Inx | Op::Iny | Op::Tax | Op::Tay | Op::Tsx | Op::Txa | Op::Txs | Op::Tya
        | Op::Skip1 | Op::Skip2 | Op::Nop => true,
        _ => false,
    }
}

fn op_is_branch(op: Op) -> (r: bool)
    ensures
        r == is_branch_op(op),
{
    match op {
        Op::Bcc | Op::Bcs | Op::Beq | Op::Bne | Op::Bmi | Op::Bpl | Op::Bvs | Op::Bvc => true,
        _ => false,
    }
}

fn op_page_penalty(op: Op) -> (r: bool)
    ensures
        r == has_page_penalty(op),
{
    match op {
        Op::Adc | Op::And | Op::Cmp | Op::Eor | Op::Lda | Op::Ldx | Op::Ldy | Op::Ora | Op::Sbc => true,
        _ => false,
    }
}

fn branch_taken(op: Op, ps: u8) -> (r: bool)
    ensures
        r == branch_cond(op, ps),
{
    match op {
        Op::Bcc => ps & FLAG_C == 0,
        Op::Bcs => ps & FLAG_C != 0,
        Op::Beq => ps & FLAG_Z != 0,
        Op::Bne => ps & FLAG_Z == 0,
        Op::Bmi => ps & FLAG_N != 0,
        Op::Bpl => ps & FLAG_N == 0,
        Op::Bvs => ps & FLAG_V != 0,
        Op::Bvc => ps & FLAG_V == 0,
        _ => false,
    }
}

/// Frame condition of the trace-based helpers: the trace only grows and the
/// helper's spec, evaluated against any completion of the trace, yields
/// the final state.
pub open spec fn grows(c0: Cpu, c1: Cpu) -> bool {
    ext(c0.trace@, c1.trace@)
}

/// The bus accesses `c1` made after `c0`.
pub open spec fn added(c0: Cpu, c1: Cpu) -> Seq<BusEvent> {
    c1.trace@.subrange(c0.trace@.len() as int, c1.trace@.len() as int)
}

/// The `i`-th access of `t` takes the device from `s[i]` to `s[i + 1]`.
pub open spec fn serves_at<B: CpuBus>(s: Seq<B>, t: Seq<BusEvent>, i: int) -> bool {
    s[i].serves(t[i], s[i + 1])
}

/// `s` lists the states the device passes through, from `b0` to `b1`, while
/// it serves the accesses `t` in order.
pub open spec fn serves_path<B: CpuBus>(b0: B, t: Seq<BusEvent>, s: Seq<B>, b1: B) -> bool {
    &&& s.len() == t.len() + 1
    &&& s[0] == b0
    &&& s[t.len() as int] == b1
    &&& forall|i: int| 0 <= i < t.len() ==> #[trigger] serves_at(s, t, i)
}

/// `b1` is what the device behind the bus becomes from `b0` by serving the
/// accesses `t` in order.
pub open spec fn serves_all<B: CpuBus>(b0: B, t: Seq<BusEvent>, b1: B) -> bool {
    exists|s: Seq<B>| #[trigger] serves_path(b0, t, s, b1)
}

/// Serving `t1` and then `t2` is serving `t1 + t2`.
pub proof fn lemma_serves_concat<B: CpuBus>(a: B, t1: Seq<BusEvent>, b: B, t2: Seq<BusEvent>, c: B)
    requires
        serves_all(a, t1, b),
        serves_all(b, t2, c),
    ensures
        serves_all(a, t1 + t2, c),
{
    let s1 = choose|s: Seq<B>| serves_path(a, t1, s, b);
    let s2 = choose|s: Seq<B>| serves_path(b, t2, s, c);
    let n = t1.len() as int;
    let t = t1 + t2;
    let s = s1.subrange(0, n) + s2;
    assert(s.len() == t.len() + 1);
    assert forall|i: int| 0 <= i < t.len() implies #[trigger] serves_at(s, t, i) by {
        if i < n {
            assert(serves_at(s1, t1, i));
            if i + 1 == n {
                assert(s[i + 1] == s2[0]);
            }
        } else {
            assert(serves_at(s2, t2, i - n));
            assert(s[i] == s2[i - n]);
            assert(s[i + 1] == s2[i - n + 1]);
            assert(t[i] == t2[i - n]);
        }
    }
    if n == 0 {
        assert(s[0] == s2[0]);
    } else {
        assert(s[0] == s1[0]);
    }
    assert(s[t.len() as int] == s2[t2.len() as int]);
    assert(serves_path(a, t, s, c));
}

/// A single access served.
pub proof fn lemma_serves_one<B: CpuBus>(b0: B, ev: BusEvent, b1: B)
    requires
        b0.serves(ev, b1),
    ensures
        serves_all(b0, seq![ev], b1),
{
    let t = seq![ev];
    let s = seq![b0, b1];
    assert(serves_at(s, t, 0));
    assert(serves_path(b0, t, s, b1));
}

/// Nothing accessed, nothing changed.
pub proof fn lemma_serves_none<B: CpuBus>(b: B, c0: Cpu, c1: Cpu)
    requires
        c1.trace@ == c0.trace@,
    ensures
        serves_all(b, added(c0, c1), b),
{
    assert(added(c0, c1) =~= Seq::<BusEvent>::empty());
    assert(serves_path(b, added(c0, c1), seq![b], b));
}

/// The accesses of two consecutive stretches compose.
pub proof fn lemma_serves_chain<B: CpuBus>(b0: B, c0: Cpu, b1: B, c1: Cpu, b2: B, c2: Cpu)
    requires
        grows(c0, c1),
        grows(c1, c2),
        serves_all(b0, added(c0, c1), b1),
        serves_all(b1, added(c1, c2), b2),
    ensures
        serves_all(b0, added(c0, c2), b2),
{
    lemma_serves_concat(b0, added(c0, c1), b1, added(c1, c2), b2);
    assert(added(c0, c2) =~= added(c0, c1) + added(c1, c2));
}

impl Cpu {
    /// Create a new CPU in reset state.
    pub fn new() -> (r: Cpu)
        ensures
            r.pc == 0 && r.a == 0 && r.x == 0 && r.y == 0,
            r.sp == 0xFF,
            r.ps == FLAG_I | FLAG_U,
            r.cycles == 0,
            !r.irq_pending && !r.nmi_pending,
    {
        Cpu {
            pc: 0,
            a: 0,
            x: 0,
            y: 0,
            sp: 0xFF,
            ps: FLAG_I | FLAG_U,
            cycles: 0,
            irq_pending: false,
            nmi_pending: false,
            trace: Ghost(Seq::empty()),
        }
    }

    /// Reset the registers; the program counter is set to `reset_vector`.
    /// The cycle counter is kept.
    pub fn reset(&mut self, reset_vector: u16)
        ensures
            final(self).pc == reset_vector,
            final(self).a == 0 && final(self).x == 0 && final(self).y == 0,
            final(self).sp == 0xFF,
            final(self).ps == FLAG_I | FLAG_U,
            final(self).cycles == old(self).cycles,
            !final(self).irq_pending && !final(self).nmi_pending,
    {
        self.a = 0;
        self.x = 0;
        self.y = 0;
        self.sp = 0xFF;
        self.ps = FLAG_I | FLAG_U;
        self.pc = reset_vector;
        self.irq_pending = false;
        self.nmi_pending = false;
    }

    /// The N flag (negative).
    pub fn flag_n(&self) -> (r: bool)
        ensures
            r == (self.ps & FLAG_N != 0),
    {
        self.ps & FLAG_N != 0
    }

    /// The V flag (overflow).
    pub fn flag_v(&self) -> (r: bool)
        ensures
            r == (self.ps & FLAG_V != 0),
    {
        self.ps & FLAG_V != 0
    }

    /// The D flag (decimal).
    pub fn flag_d(&self) -> (r: bool)
        ensures
            r == (self.ps & FLAG_D != 0),
    {
        self.ps & FLAG_D != 0
    }

    /// The I flag (interrupt disable).
    pub fn flag_i(&self) -> (r: bool)
        ensures
            r == (self.ps & FLAG_I != 0),
    {
        self.ps & FLAG_I != 0
    }

    /// The Z flag (zero).
    pub fn flag_z(&self) -> (r: bool)
        ensures
            r == (self.ps & FLAG_Z != 0),
    {
        self.ps & FLAG_Z != 0
    }

    /// The C flag (carry).
    pub fn flag_c(&self) -> (r: bool)
        ensures
            r == (self.ps & FLAG_C != 0),
    {
        self.ps & FLAG_C != 0
    }

    fn rd<B: CpuBus>(&mut self, bus: &mut B, addr: u16) -> (v: u8)
        requires
            old(bus).bus_inv(),
        ensures
            final(bus).bus_inv(),
            final(bus).bus_kept() == old(bus).bus_kept(),
            grows(*old(self), *final(self)),
            serves_all(*old(bus), added(*old(self), *final(self)), *final(bus)),
            forall|t: Seq<BusEvent>| #![trigger s_read(*old(self), t, addr)]
                ext(final(self).trace@, t) ==> s_read(*old(self), t, addr) == (*final(self), v),
    {
        let ghost b0 = *bus;
        let v = bus.read(addr);
        self.trace = Ghost(self.trace@.push(BusEvent::Read(addr, v)));
        proof {
            assert(added(*old(self), *self) =~= seq![BusEvent::Read(addr, v)]);
            lemma_serves_one(b0, BusEvent::Read(addr, v), *bus);
        }
        proof {
            assert forall|t: Seq<BusEvent>| ext(self.trace@, t) implies s_read(*old(self), t, addr) == (*self, v) by {
                assert(t[old(self).trace@.len() as int] == self.trace@[old(self).trace@.len() as int]);
            }
        }
        v
    }

    fn wr<B: CpuBus>(&mut self, bus: &mut B, addr: u16, v: u8)
        requires
            old(bus).bus_inv(),
        ensures
            final(bus).bus_inv(),
            final(bus).bus_kept() == old(bus).bus_kept(),
            grows(*old(self), *final(self)),
            serves_all(*old(bus), added(*old(self), *final(self)), *final(bus)),
            *final(self) == s_write(*old(self), addr, v),
    {
        let ghost b0 = *bus;
        bus.write(addr, v);
        self.trace = Ghost(self.trace@.push(BusEvent::Write(addr, v)));
        proof {
            assert(added(*old(self), *self) =~= seq![BusEvent::Write(addr, v)]);
            lemma_serves_one(b0, BusEvent::Write(addr, v), *bus);
        }
    }

    fn fetch<B: CpuBus>(&mut self, bus: &mut B) -> (v: u8)
        requires
            old(bus).bus_inv(),
        ensures
            final(bus).bus_inv(),
            final(bus).bus_kept() == old(bus).bus_kept(),
            grows(*old(self), *final(self)),
            serves_all(*old(bus), added(*old(self), *final(self)), *final(bus)),
            forall|t: Seq<BusEvent>| #![trigger s_fetch(*old(self), t)]
                ext(final(self).trace@, t) ==> s_fetch(*old(self), t) == (*final(self), v),
    {
        let v = self.rd(bus, self.pc);
        self.pc = self.pc.wrapping_add(1);
        v
    }

    fn push<B: CpuBus>(&mut self, bus: &mut B, v: u8)
        requires
            old(bus).bus_inv(),
        ensures
            final(bus).bus_inv(),
            final(bus).bus_kept() == old(bus).bus_kept(),
            grows(*old(self), *final(self)),
            serves_all(*old(bus), added(*old(self), *final(self)), *final(bus)),
            *final(self) == s_push(*old(self), v),
    {
        self.wr(bus, 0x0100u16 | self.sp as u16, v);
        self.sp = self.sp.wrapping_sub(1);
    }

    fn pop<B: CpuBus>(&mut self, bus: &mut B) -> (v: u8)
        requires
            old(bus).bus_inv(),
        ensures
            final(bus).bus_inv(),
            final(bus).bus_kept() == old(bus).bus_kept(),
            grows(*old(self), *final(self)),
            serves_all(*old(bus), added(*old(self), *final(self)), *final(bus)),
            forall|t: Seq<BusEvent>| #![trigger s_pop(*old(self), t)]
                ext(final(self).trace@, t) ==> s_pop(*old(self), t) == (*final(self), v),
    {
        self.sp = self.sp.wrapping_add(1);
        self.rd(bus, 0x0100u16 | self.sp as u16)
    }

    fn abs_addr<B: CpuBus>(&mut self, bus: &mut B) -> (a: u16)
        requires
            old(bus).bus_inv(),
        ensures
            final(bus).bus_inv(),
            final(bus).bus_kept() == old(bus).bus_kept(),
            grows(*old(self), *final(self)),
            serves_all(*old(bus), added(*old(self), *final(self)), *final(bus)),
            forall|t: Seq<BusEvent>| #![trigger s_abs_addr(*old(self), t)]
                ext(final(self).trace@, t) ==> s_abs_addr(*old(self), t) == (*final(self), a),
    {
        let ghost c0 = *self;
        let ghost b0 = *bus;
        let pc = self.pc;
        let lo = self.rd(bus, pc);
        let ghost c1 = *self;
        let ghost b1 = *bus;
        let hi = self.rd(bus, pc.wrapping_add(1));
        let ghost c2 = *self;
        self.pc = pc.wrapping_add(2);
        proof {
            lemma_ext_trans(c0.trace@, c1.trace@, c2.trace@);
            lemma_serves_chain(b0, c0, b1, c1, *bus, c2);
            assert forall|t: Seq<BusEvent>| ext(self.trace@, t) implies s_abs_addr(c0, t) == (*self, word(lo, hi)) by {
                lemma_ext_trans(c1.trace@, c2.trace@, t);
            }
        }
        ((hi as u16) << 8) | (lo as u16)
    }

    /// Effective address of the operand of an instruction in `mode`.
    fn ea<B: CpuBus>(&mut self, bus: &mut B, mode: Mode) -> (r: (u16, bool))
        requires
            old(bus).bus_inv(),
        ensures
            final(bus).bus_inv(),
            final(bus).bus_kept() == old(bus).bus_kept(),
            grows(*old(self), *final(self)),
            serves_all(*old(bus), added(*old(self), *final(self)), *final(bus)),
            forall|t: Seq<BusEvent>| #![trigger s_ea(*old(self), t, mode)]
                ext(final(self).trace@, t) ==> s_ea(*old(self), t, mode) == (*final(self), r.0, r.1),
    {
        let ghost c0 = *self;
        let ghost b0 = *bus;
        match mode {
            Mode::Imm => {
                let a = self.pc;
                self.pc = self.pc.wrapping_add(1);
                proof {
                    lemma_serves_none(b0, c0, *self);
                }
                (a, false)
            },
            Mode::Zp => {
                let z = self.fetch(bus);
                (z as u16, false)
            },
            Mode::Zpx => {
                let z = self.fetch(bus);
                (z.wrapping_add(self.x) as u16, false)
            },
            Mode::Zpy => {
                let z = self.fetch(bus);
                (z.wrapping_add(self.y) as u16, false)
            },
            Mode::Abs => {
                let a = self.abs_addr(bus);
                (a, false)
            },
            Mode::Abx => {
                let b = self.abs_addr(bus);
                let a = b.wrapping_add(self.x as u16);
                (a, (b & 0xFF00) != (a & 0xFF00))
            },
            Mode::Aby => {
                let b = self.abs_addr(bus);
                let a = b.wrapping_add(self.y as u16);
                (a, (b & 0xFF00) != (a & 0xFF00))
            },
            Mode::Izx => {
                let z = self.fetch(bus);
                let ghost c1 = *self;
                let ghost b1 = *bus;
                let zp = z.wrapping_add(self.x) as u16;
                let lo = self.rd(bus, zp);
                let ghost c2 = *self;
                let ghost b2 = *bus;
                let hi = self.rd(bus, zp.wrapping_add(1) & 0xFF);
                let ghost c3 = *self;
                proof {
                    lemma_ext_trans(c0.trace@, c1.trace@, c2.trace@);
                    lemma_ext_trans(c0.trace@, c2.trace@, c3.trace@);
                    lemma_serves_chain(b0, c0, b1, c1, b2, c2);
                    lemma_serves_chain(b0, c0, b2, c2, *bus, c3);
                    assert forall|t: Seq<BusEvent>| ext(c3.trace@, t) implies
                        s_ea(c0, t, mode) == (c3, word(lo, hi), false) by {
                        lemma_ext_trans(c2.trace@, c3.trace@, t);
                        lemma_ext_trans(c1.trace@, c2.trace@, t);
                    }
                }
                (((hi as u16) << 8) | (lo as u16), false)
            },
            Mode::Izy => {
                let z = self.fetch(bus);
                let ghost c1 = *self;
                let ghost b1 = *bus;
                let zp = z as u16;
                let lo = self.rd(bus, zp);
                let ghost c2 = *self;
                let ghost b2 = *bus;
                let hi = self.rd(bus, zp.wrapping_add(1) & 0xFF);
                let ghost c3 = *self;
                let b = ((hi as u16) << 8) | (lo as u16);
                let a = b.wrapping_add(self.y as u16);
                proof {
                    lemma_ext_trans(c0.trace@, c1.trace@, c2.trace@);
                    lemma_ext_trans(c0.trace@, c2.trace@, c3.trace@);
                    lemma_serves_chain(b0, c0, b1, c1, b2, c2);
                    lemma_serves_chain(b0, c0, b2, c2, *bus, c3);
                    assert forall|t: Seq<BusEvent>| ext(c3.trace@, t) implies
                        s_ea(c0, t, mode) == (c3, a, page_crossed(b, a)) by {
                        lemma_ext_trans(c2.trace@, c3.trace@, t);
                        lemma_ext_trans(c1.trace@, c2.trace@, t);
                    }
                }
                (a, (b & 0xFF00) != (a & 0xFF00))
            },
            _ => {
                proof {
                    lemma_serves_none(b0, c0, *self);
                }
                (0, false)
            },
        }
    }
}

impl Cpu {
    /// Push PC and a status byte, set I and jump through `vector`.
    fn interrupt<B: CpuBus>(&mut self, bus: &mut B, pushed_ps: u8, vector: u16)
        requires
            old(bus).bus_inv(),
        ensures
            final(bus).bus_inv(),
            final(bus).bus_kept() == old(bus).bus_kept(),
            grows(*old(self), *final(self)),
            serves_all(*old(bus), added(*old(self), *final(self)), *final(bus)),
            forall|t: Seq<BusEvent>| #![trigger s_interrupt(*old(self), t, pushed_ps, vector)]
                ext(final(self).trace@, t) ==> s_interrupt(*old(self), t, pushed_ps, vector) == *final(self),
    {
        let ghost c0 = *self;
        let ghost b0 = *bus;
        let pc = self.pc;
        self.push(bus, (pc >> 8) as u8);
        let ghost c1 = *self;
        let ghost b1 = *bus;
        self.push(bus, (pc & 0xFF) as u8);
        let ghost c2 = *self;
        let ghost b2 = *bus;
        self.push(bus, pushed_ps);
        let ghost c3 = *self;
        self.ps = self.ps | FLAG_I;
        let ghost c4 = *self;
        let ghost b4 = *bus;
        let lo = self.rd(bus, vector);
        let ghost c5 = *self;
        let ghost b5 = *bus;
        let hi = self.rd(bus, vector.wrapping_add(1));
        let ghost c6 = *self;
        self.pc = ((hi as u16) << 8) | (lo as u16);
        proof {
            lemma_serves_chain(b0, c0, b1, c1, b2, c2);
            lemma_serves_chain(b0, c0, b2, c2, b4, c4);
            lemma_serves_chain(b0, c0, b4, c4, b5, c5);
            lemma_serves_chain(b0, c0, b5, c5, *bus, c6);
            lemma_ext_trans(c0.trace@, c1.trace@, c2.trace@);
            lemma_ext_trans(c0.trace@, c2.trace@, c3.trace@);
            lemma_ext_trans(c0.trace@, c3.trace@, c5.trace@);
            lemma_ext_trans(c0.trace@, c5.trace@, c6.trace@);
            assert forall|t: Seq<BusEvent>| ext(self.trace@, t) implies
                s_interrupt(c0, t, pushed_ps, vector) == *self by {
                lemma_ext_trans(c5.trace@, c6.trace@, t);
            }
        }
    }

    /// Register update of a read-class operation.
    fn alu(&mut self, op: Op, v: u8)
        requires
            is_read_op(op),
        ensures
            *final(self) == s_alu(op, *old(self), v),
    {
        match op {
            Op::Adc => {
                let (a, ps) = adc(self.a, v, self.ps);
                self.a = a;
                self.ps = ps;
            },
            Op::Sbc => {
                let (a, ps) = sbc(self.a, v, self.ps);
                self.a = a;
                self.ps = ps;
            },
            Op::And => {
                self.a = self.a & v;
                self.ps = set_nz(self.ps, self.a);
            },
            Op::Ora => {
                self.a = self.a | v;
                self.ps = set_nz(self.ps, self.a);
            },
            Op::Eor => {
                self.a = self.a ^ v;
                self.ps = set_nz(self.ps, self.a);
            },
            Op::Cmp => {
                self.ps = cmp(self.a, v, self.ps);
            },
            Op::Cpx => {
                self.ps = cmp(self.x, v, self.ps);
            },
            Op::Cpy => {
                self.ps = cmp(self.y, v, self.ps);
            },
            Op::Bit => {
                self.ps = (self.ps & !(FLAG_N | FLAG_V | FLAG_Z)) | (v & 0xC0) | if self.a & v == 0 {
                    FLAG_Z
                } else {
                    0
                };
            },
            Op::Lda => {
                self.a = v;
                self.ps = set_nz(self.ps, v);
            },
            Op::Ldx => {
                self.x = v;
                self.ps = set_nz(self.ps, v);
            },
            _ => {
                self.y = v;
                self.ps = set_nz(self.ps, v);
            },
        }
    }

    /// Register update of an implied-mode operation.
    fn implied(&mut self, op: Op)
        requires
            is_implied_op(op),
        ensures
            *final(self) == s_implied(op, *old(self)),
    {
        match op {
            Op::Clc => self.ps = self.ps & !FLAG_C,
            Op::Cld => self.ps = self.ps & !FLAG_D,
            Op::Cli => self.ps = self.ps & !FLAG_I,
            Op::Clv => self.ps = self.ps & !FLAG_V,
            Op::Sec => self.ps = self.ps | FLAG_C,
            Op::Sed => self.ps = self.ps | FLAG_D,
            Op::Sei => self.ps = self.ps | FLAG_I,
            Op::Dex => {
                self.x = self.x.wrapping_sub(1);
                self.ps = set_nz(self.ps, self.x);
            },
            Op::Dey => {
                self.y = self.y.wrapping_sub(1);
                self.ps = set_nz(self.ps, self.y);
            },
            Op::Inx => {
                self.x = self.x.wrapping_add(1);
                self.ps = set_nz(self.ps, self.x);
            },
            Op::Iny => {
                self.y = self.y.wrapping_add(1);
                self.ps = set_nz(self.ps, self.y);
            },
            Op::Tax => {
                self.x = self.a;
                self.ps = set_nz(self.ps, self.x);
            },
            Op::Tay => {
                self.y = self.a;
                self.ps = set_nz(self.ps, self.y);
            },
            Op::Tsx => {
                self.x = self.sp;
                self.ps = set_nz(self.ps, self.x);
            },
            Op::Txa => {
                self.a = self.x;
                self.ps = set_nz(self.ps, self.a);
            },
            Op::Txs => self.sp = self.x,
            Op::Tya => {
                self.a = self.y;
                self.ps = set_nz(self.ps, self.a);
            },
            Op::Skip1 => self.pc = self.pc.wrapping_add(1),
            Op::Skip2 => self.pc = self.pc.wrapping_add(2),
            _ => {},
        }
    }

    fn exec_read<B: CpuBus>(&mut self, bus: &mut B, ins: Instr) -> (n: u64)
        requires
            old(bus).bus_inv(),
            is_read_op(ins.op),
        ensures
            final(bus).bus_inv(),
            final(bus).bus_kept() == old(bus).bus_kept(),
            grows(*old(self), *final(self)),
            serves_all(*old(bus), added(*old(self), *final(self)), *final(bus)),
            forall|t: Seq<BusEvent>| #![trigger s_exec(*old(self), t, ins)]
                ext(final(self).trace@, t) ==> s_exec(*old(self), t, ins) == (*final(self), n),
    {
        proof {
            reveal(s_exec);
        }
        let ghost c0 = *self;
        let ghost b0 = *bus;
        let (addr, crossed) = self.ea(bus, ins.mode);
        let ghost c1 = *self;
        let ghost b1 = *bus;
        let v = self.rd(bus, addr);
        let ghost c2 = *self;
        self.alu(ins.op, v);
        proof {
            lemma_ext_trans(c0.trace@, c1.trace@, c2.trace@);
            lemma_serves_chain(b0, c0, b1, c1, *bus, c2);
            assert forall|t: Seq<BusEvent>| ext(self.trace@, t) implies
                s_exec(c0, t, ins) == (*self, if crossed && has_page_penalty(ins.op) { (ins.cycles as u64 + 1) as u64 } else { ins.cycles as u64 }) by {
                lemma_ext_trans(c1.trace@, c2.trace@, t);
            }
        }
        if crossed && op_page_penalty(ins.op) {
            ins.cycles as u64 + 1
        } else {
            ins.cycles as u64
        }
    }

    fn exec_branch<B: CpuBus>(&mut self, bus: &mut B, ins: Instr) -> (n: u64)
        requires
            old(bus).bus_inv(),
            is_branch_op(ins.op),
        ensures
            final(bus).bus_inv(),
            final(bus).bus_kept() == old(bus).bus_kept(),
            grows(*old(self), *final(self)),
            serves_all(*old(bus), added(*old(self), *final(self)), *final(bus)),
            forall|t: Seq<BusEvent>| #![trigger s_exec(*old(self), t, ins)]
                ext(final(self).trace@, t) ==> s_exec(*old(self), t, ins) == (*final(self), n),
    {
        proof {
            reveal(s_exec);
        }
        let taken = branch_taken(ins.op, self.ps);
        let off = self.fetch(bus);
        if taken {
            let old_pc = self.pc;
            let disp: u16 = if off < 0x80 { off as u16 } else { (off as u16) | 0xFF00 };
            self.pc = old_pc.wrapping_add(disp);
            if (old_pc & 0xFF00) != (self.pc & 0xFF00) {
                4
            } else {
                3
            }
        } else {
            2
        }
    }

    fn exec_store<B: CpuBus>(&mut self, bus: &mut B, ins: Instr) -> (n: u64)
        requires
            old(bus).bus_inv(),
            ins.op == Op::Sta || ins.op == Op::Stx || ins.op == Op::Sty,
        ensures
            final(bus).bus_inv(),
            final(bus).bus_kept() == old(bus).bus_kept(),
            grows(*old(self), *final(self)),
            serves_all(*old(bus), added(*old(self), *final(self)), *final(bus)),
            forall|t: Seq<BusEvent>| #![trigger s_exec(*old(self), t, ins)]
                ext(final(self).trace@, t) ==> s_exec(*old(self), t, ins) == (*final(self), n),
    {
        proof {
            reveal(s_exec);
        }
        let ghost c0 = *self;
        let ghost b0 = *bus;
        let (addr, _crossed) = self.ea(bus, ins.mode);
        let ghost c1 = *self;
        let ghost b1 = *bus;
        let v = match ins.op {
            Op::Sta => self.a,
            Op::Stx => self.x,
            _ => self.y,
        };
        self.wr(bus, addr, v);
        proof {
            lemma_ext_trans(c0.trace@, c1.trace@, self.trace@);
            lemma_serves_chain(b0, c0, b1, c1, *bus, *self);
            assert forall|t: Seq<BusEvent>| ext(self.trace@, t) implies
                s_exec(c0, t, ins) == (*self, ins.cycles as u64) by {
                lemma_ext_trans(c1.trace@, self.trace@, t);
            }
        }
        ins.cycles as u64
    }

    fn exec_rmw<B: CpuBus>(&mut self, bus: &mut B, ins: Instr) -> (n: u64)
        requires
            old(bus).bus_inv(),
            ins.op == Op::Asl || ins.op == Op::Lsr || ins.op == Op::Rol || ins.op == Op::Ror
                || ins.op == Op::Inc || ins.op == Op::Dec,
        ensures
            final(bus).bus_inv(),
            final(bus).bus_kept() == old(bus).bus_kept(),
            grows(*old(self), *final(self)),
            serves_all(*old(bus), added(*old(self), *final(self)), *final(bus)),
            forall|t: Seq<BusEvent>| #![trigger s_exec(*old(self), t, ins)]
                ext(final(self).trace@, t) ==> s_exec(*old(self), t, ins) == (*final(self), n),
    {
        proof {
            reveal(s_exec);
        }
        let ghost c0 = *self;
        let ghost b0 = *bus;
        if ins.mode == Mode::Acc {
            let (r, ps) = rmw(ins.op, self.a, self.ps);
            self.a = r;
            self.ps = ps;
            proof {
                lemma_serves_none(b0, c0, *self);
            }
        } else {
            let (addr, _crossed) = self.ea(bus, ins.mode);
            let ghost c1 = *self;
            let ghost b1 = *bus;
            let v = self.rd(bus, addr);
            let ghost c2 = *self;
            let ghost b2 = *bus;
            let (r, ps) = rmw(ins.op, v, self.ps);
            self.wr(bus, addr, r);
            let ghost c3 = *self;
            self.ps = ps;
            proof {
                lemma_ext_trans(c0.trace@, c1.trace@, c2.trace@);
                lemma_ext_trans(c0.trace@, c2.trace@, self.trace@);
                lemma_serves_chain(b0, c0, b1, c1, b2, c2);
                lemma_serves_chain(b0, c0, b2, c2, *bus, c3);
                assert forall|t: Seq<BusEvent>| ext(self.trace@, t) implies
                    s_exec(c0, t, ins) == (*self, ins.cycles as u64) by {
                    lemma_ext_trans(c2.trace@, self.trace@, t);
                    lemma_ext_trans(c1.trace@, c2.trace@, t);
                }
            }
        }
        ins.cycles as u64
    }

    fn exec_flow<B: CpuBus>(&mut self, bus: &mut B, ins: Instr) -> (n: u64)
        requires
            old(bus).bus_inv(),
            ins.op == Op::Jmp || ins.op == Op::Jsr || ins.op == Op::Rts || ins.op == Op::Rti
                || ins.op == Op::Brk,
        ensures
            final(bus).bus_inv(),
            final(bus).bus_kept() == old(bus).bus_kept(),
            grows(*old(self), *final(self)),
            serves_all(*old(bus), added(*old(self), *final(self)), *final(bus)),
            forall|t: Seq<BusEvent>| #![trigger s_exec(*old(self), t, ins)]
                ext(final(self).trace@, t) ==> s_exec(*old(self), t, ins) == (*final(self), n),
    {
        proof {
            reveal(s_exec);
        }
        let ghost c0 = *self;
        let ghost b0 = *bus;
        match ins.op {
            Op::Jmp => {
                let addr = self.abs_addr(bus);
                let ghost c1 = *self;
                let ghost b1 = *bus;
                if ins.mode == Mode::Ind {
                    let lo = self.rd(bus, addr);
                    let ghost c2 = *self;
                    let ghost b2 = *bus;
                    let hi = self.rd(bus, (addr & 0xFF00) | (addr.wrapping_add(1) & 0x00FF));
                    let ghost c3 = *self;
                    self.pc = ((hi as u16) << 8) | (lo as u16);
                    proof {
                        lemma_ext_trans(c0.trace@, c1.trace@, c2.trace@);
                        lemma_ext_trans(c0.trace@, c2.trace@, c3.trace@);
                        lemma_serves_chain(b0, c0, b1, c1, b2, c2);
                        lemma_serves_chain(b0, c0, b2, c2, *bus, c3);
                        assert forall|t: Seq<BusEvent>| ext(self.trace@, t) implies
                            s_exec(c0, t, ins) == (*self, ins.cycles as u64) by {
                            lemma_ext_trans(c2.trace@, c3.trace@, t);
                            lemma_ext_trans(c1.trace@, c2.trace@, t);
                        }
                    }
                } else {
                    self.pc = addr;
                }
            },
            Op::Jsr => {
                let addr = self.abs_addr(bus);
                let ghost c1 = *self;
                let ghost b1 = *bus;
                let ret = self.pc.wrapping_sub(1);
                self.push(bus, (ret >> 8) as u8);
                let ghost c2 = *self;
                let ghost b2 = *bus;
                self.push(bus, (ret & 0xFF) as u8);
                let ghost c3 = *self;
                self.pc = addr;
                proof {
                    lemma_ext_trans(c0.trace@, c1.trace@, c2.trace@);
                    lemma_ext_trans(c0.trace@, c2.trace@, c3.trace@);
                    lemma_serves_chain(b0, c0, b1, c1, b2, c2);
                    lemma_serves_chain(b0, c0, b2, c2, *bus, c3);
                    assert forall|t: Seq<BusEvent>| ext(self.trace@, t) implies
                        s_exec(c0, t, ins) == (*self, ins.cycles as u64) by {
                        lemma_ext_trans(c2.trace@, c3.trace@, t);
                        lemma_ext_trans(c1.trace@, c2.trace@, t);
                    }
                }
            },
            Op::Rts => {
                let lo = self.pop(bus);
                let ghost c1 = *self;
                let ghost b1 = *bus;
                let hi = self.pop(bus);
                let ghost c2 = *self;
                self.pc = (((hi as u16) << 8) | (lo as u16)).wrapping_add(1);
                proof {
                    lemma_ext_trans(c0.trace@, c1.trace@, c2.trace@);
                    lemma_serves_chain(b0, c0, b1, c1, *bus, c2);
                    assert forall|t: Seq<BusEvent>| ext(self.trace@, t) implies
                        s_exec(c0, t, ins) == (*self, ins.cycles as u64) by {
                        lemma_ext_trans(c1.trace@, c2.trace@, t);
                    }
                }
            },
            Op::Rti => {
                let p = self.pop(bus);
                let ghost c1 = *self;
                let ghost b1 = *bus;
                let lo = self.pop(bus);
                let ghost c2 = *self;
                let ghost b2 = *bus;
                let hi = self.pop(bus);
                let ghost c3 = *self;
                self.ps = (p & !FLAG_B) | FLAG_U;
                self.pc = ((hi as u16) << 8) | (lo as u16);
                proof {
                    lemma_ext_trans(c0.trace@, c1.trace@, c2.trace@);
                    lemma_ext_trans(c0.trace@, c2.trace@, c3.trace@);
                    lemma_serves_chain(b0, c0, b1, c1, b2, c2);
                    lemma_serves_chain(b0, c0, b2, c2, *bus, c3);
                    assert forall|t: Seq<BusEvent>| ext(self.trace@, t) implies
                        s_exec(c0, t, ins) == (*self, ins.cycles as u64) by {
                        lemma_ext_trans(c2.trace@, c3.trace@, t);
                        lemma_ext_trans(c1.trace@, c2.trace@, t);
                    }
                }
            },
            _ => {
                let pushed = self.ps | FLAG_B | FLAG_U;
                self.pc = self.pc.wrapping_add(1);
                self.interrupt(bus, pushed, IRQ_VECTOR);
            },
        }
        ins.cycles as u64
    }

    fn exec_stack<B: CpuBus>(&mut self, bus: &mut B, ins: Instr) -> (n: u64)
        requires
            old(bus).bus_inv(),
            ins.op == Op::Pha || ins.op == Op::Php || ins.op == Op::Pla || ins.op == Op::Plp,
        ensures
            final(bus).bus_inv(),
            final(bus).bus_kept() == old(bus).bus_kept(),
            grows(*old(self), *final(self)),
            serves_all(*old(bus), added(*old(self), *final(self)), *final(bus)),
            forall|t: Seq<BusEvent>| #![trigger s_exec(*old(self), t, ins)]
                ext(final(self).trace@, t) ==> s_exec(*old(self), t, ins) == (*final(self), n),
    {
        proof {
            reveal(s_exec);
        }
        match ins.op {
            Op::Pha => {
                let a = self.a;
                self.push(bus, a);
            },
            Op::Php => {
                let p = self.ps | FLAG_B | FLAG_U;
                self.push(bus, p);
            },
            Op::Pla => {
                let v = self.pop(bus);
                self.a = v;
                self.ps = set_nz(self.ps, v);
            },
            _ => {
                let v = self.pop(bus);
                self.ps = (v & !FLAG_B) | FLAG_U;
            },
        }
        ins.cycles as u64
    }

    /// Execute one decoded instruction.
    fn exec_instr<B: CpuBus>(&mut self, bus: &mut B, ins: Instr) -> (n: u64)
        requires
            old(bus).bus_inv(),
        ensures
            final(bus).bus_inv(),
            final(bus).bus_kept() == old(bus).bus_kept(),
            grows(*old(self), *final(self)),
            serves_all(*old(bus), added(*old(self), *final(self)), *final(bus)),
            forall|t: Seq<BusEvent>| #![trigger s_exec(*old(self), t, ins)]
                ext(final(self).trace@, t) ==> s_exec(*old(self), t, ins) == (*final(self), n),
    {
        proof {
            reveal(s_exec);
        }
        if op_is_read(ins.op) {
            self.exec_read(bus, ins)
        } else if op_is_implied(ins.op) {
            let ghost c0 = *self;
            self.implied(ins.op);
            proof {
                lemma_serves_none(*bus, c0, *self);
            }
            ins.cycles as u64
        } else if op_is_branch(ins.op) {
            self.exec_branch(bus, ins)
        } else {
            match ins.op {
                Op::Sta | Op::Stx | Op::Sty => self.exec_store(bus, ins),
                Op::Asl | Op::Lsr | Op::Rol | Op::Ror | Op::Inc | Op::Dec => self.exec_rmw(bus, ins),
                Op::Jmp | Op::Jsr | Op::Rts | Op::Rti | Op::Brk => self.exec_flow(bus, ins),
                _ => self.exec_stack(bus, ins),
            }
        }
    }

    /// Execute one instruction, or service a pending interrupt.  Returns the
    /// number of cycles consumed.
    ///
    /// `final(self).trace@` lists the bus accesses of this step; the
    /// resulting CPU and cycle count are those of [`s_step`] for that trace.
    pub fn step<B: CpuBus>(&mut self, bus: &mut B) -> (n: u64)
        requires
            old(bus).bus_inv(),
        ensures
            final(bus).bus_inv(),
            final(bus).bus_kept() == old(bus).bus_kept(),
            serves_all(*old(bus), final(self).trace@, *final(bus)),
            s_step(*old(self), final(self).trace@) == (*final(self), n),
    {
        let ghost c = *self;
        let start = self.cycles;
        self.trace = Ghost(Seq::empty());
        let ghost c0 = *self;
        let ghost b0 = *bus;
        let n = if self.nmi_pending {
            let p = self.ps & !FLAG_B;
            self.interrupt(bus, p, NMI_VECTOR);
            proof {
                assert(ext(self.trace@, self.trace@));
                assert(s_interrupt(c0, self.trace@, p, NMI_VECTOR) == *self);
            }
            self.nmi_pending = false;
            7
        } else if self.irq_pending && self.ps & FLAG_I == 0 {
            let p = self.ps & !FLAG_B;
            self.interrupt(bus, p, IRQ_VECTOR);
            proof {
                assert(ext(self.trace@, self.trace@));
                assert(s_interrupt(c0, self.trace@, p, IRQ_VECTOR) == *self);
            }
            self.irq_pending = false;
            7
        } else {
            let opcode = self.fetch(bus);
            let ghost c1 = *self;
            let ghost b1 = *bus;
            let ins = decode(opcode);
            let n = self.exec_instr(bus, ins);
            proof {
                lemma_serves_chain(b0, c0, b1, c1, *bus, *self);
                assert(ext(self.trace@, self.trace@));
                lemma_ext_trans(c1.trace@, self.trace@, self.trace@);
                assert(s_fetch(c0, self.trace@) == (c1, opcode));
                assert(s_exec(c1, self.trace@, ins) == (*self, n));
            }
            n
        };
        self.cycles = start.wrapping_add(n);
        proof {
            assert(added(c0, *self) =~= self.trace@);
        }
        n
    }
}

impl Default for Cpu {
    fn default() -> (r: Self)
        ensures
            r.pc == 0 && r.a == 0 && r.x == 0 && r.y == 0,
            r.sp == 0xFF,
            r.ps == FLAG_I | FLAG_U,
            r.cycles == 0,
            !r.irq_pending && !r.nmi_pending,
    {
        Self::new()
    }
}

/// A bus with nothing but 64 KiB of plain RAM behind it: every read gives
/// back the byte last written to its address.
pub struct RamBus {
    /// The 64 KiB address space.
    pub mem: Vec<u8>,
}

impl RamBus {
    /// 64 KiB of RAM, all zero.
    pub fn new() -> (r: RamBus)
        ensures
            r.mem@ == Seq::new(0x10000, |i: int| 0u8),
    {
        RamBus { mem: vec![0u8; 0x10000] }
    }
}

impl CpuBus for RamBus {
    open spec fn bus_inv(&self) -> bool {
        self.mem@.len() == 0x10000
    }

    open spec fn bus_kept(&self) -> Seq<u8> {
        Seq::empty()
    }

    open spec fn serves(&self, ev: BusEvent, after: Self) -> bool {
        match ev {
            BusEvent::Read(a, v) => v == self.mem@[a as int] && after.mem@ == self.mem@,
            BusEvent::Write(a, v) => after.mem@ == self.mem@.update(a as int, v),
        }
    }

    fn read(&mut self, addr: u16) -> (v: u8)
        ensures
            v == old(self).mem@[addr as int],
            final(self).mem@ == old(self).mem@,
    {
        let v = self.mem[addr as usize];
        proof {
            assert(self.serves(BusEvent::Read(addr, v), *self));
        }
        v
    }

    fn write(&mut self, addr: u16, value: u8)
        ensures
            final(self).mem@ == old(self).mem@.update(addr as int, value),
    {
        self.mem.set(addr as usize, value);
    }
}

} // verus!
