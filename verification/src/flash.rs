//! NOR Flash command controller of the NC1020.
//!
//! Commands are issued by the unlock sequence `0xAA` to 0x5555, `0x55` to
//! 0xAAAA, then a command byte to 0x5555: 0x90 ID mode, 0xA0 byte program,
//! 0x80 erase, 0xA8 buffer program, 0x88 chip erase, 0x78 sector erase.
//! Flash writes only reach NOR banks (0x00-0x1F).  Programming can only
//! clear bits (the new byte is ANDed into the old one); erasing sets bytes
//! to 0xFF.

use vstd::prelude::*;
use crate::bits::lemma_addr_fields;
use crate::bytes::fill_all;

verus! {

/// Flash command state machine steps.
#[derive(Clone, Copy, PartialEq, Eq, Structural)]
pub enum FlashStep {
    /// Waiting for 0xAA at 0x5555
    Idle,
    /// Received 0xAA, waiting for 0x55 at 0xAAAA
    Step1,
    /// Received 0x55, waiting for a command at 0x5555
    Step2,
    /// Command received, ready for the operation
    Command,
    /// Programming / second erase unlock in progress
    Program,
    /// Erase confirmation expected
    EraseSector,
    /// Chip erase in progress
    EraseChip,
}

/// Flash operation type.
#[derive(Clone, Copy, PartialEq, Eq, Structural)]
pub enum FlashType {
    /// No operation
    NoCommand,
    /// ID mode
    IdMode,
    /// Byte program
    ByteProgram,
    /// Erase (sector or chip)
    Erase,
    /// Buffer program
    BufferProgram,
    /// Chip erase
    ChipErase,
    /// Sector erase
    SectorErase,
}

/// NOR Flash controller state.
#[derive(Clone)]
pub struct Flash {
    /// Current command step
    pub step: FlashStep,
    /// Current operation type
    pub flash_type: FlashType,
    /// Bank the ID mode was entered on
    pub bank_idx: u8,
    /// First byte hidden by ID mode
    pub bak1: u8,
    /// Second byte hidden by ID mode
    pub bak2: u8,
    /// Buffer for buffer programming (256 bytes)
    pub buffer: Vec<u8>,
}

/// Result of a flash write: the controller registers, the program buffer,
/// the NOR contents and whether the write was consumed by the controller.
pub struct FlashOutcome {
    pub step: FlashStep,
    pub flash_type: FlashType,
    pub bank_idx: u8,
    pub bak1: u8,
    pub bak2: u8,
    pub buffer: Seq<u8>,
    pub nor: Seq<u8>,
    pub handled: bool,
}

/// Command byte decoding.
pub open spec fn command_type(value: u8) -> FlashType {
    match value {
        0x90 => FlashType::IdMode,
        0xA0 => FlashType::ByteProgram,
        0x80 => FlashType::Erase,
        0xA8 => FlashType::BufferProgram,
        0x88 => FlashType::ChipErase,
        0x78 => FlashType::SectorErase,
        _ => FlashType::NoCommand,
    }
}

/// Number of NOR bytes a chip erase sets to 0xFF: every complete bank of
/// the first 32.
pub open spec fn chip_erase_len(len: nat) -> nat {
    if len >= 0x100000 { 0x100000 } else { ((len / 0x8000) * 0x8000) as nat }
}

impl Flash {
    /// The program buffer has its fixed size.
    pub open spec fn wf(&self) -> bool {
        self.buffer@.len() == 0x100
    }

    /// The state as an outcome with nothing changed.
    pub open spec fn unchanged(&self, nor: Seq<u8>, handled: bool) -> FlashOutcome {
        FlashOutcome {
            step: self.step,
            flash_type: self.flash_type,
            bank_idx: self.bank_idx,
            bak1: self.bak1,
            bak2: self.bak2,
            buffer: self.buffer@,
            nor,
            handled,
        }
    }

    /// The write falls through the state machine: only the 0xF0 reset at
    /// 0x8000 is recognised.
    pub open spec fn fall_through(&self, step: FlashStep, addr: u16, value: u8, nor: Seq<u8>) -> FlashOutcome {
        if addr == 0x8000 && value == 0xF0 {
            FlashOutcome { step: FlashStep::Idle, handled: true, ..self.unchanged(nor, true) }
        } else {
            FlashOutcome { step, ..self.unchanged(nor, false) }
        }
    }

    /// Effect of a CPU write of `value` to `addr` in NOR bank `bank_idx`.
    pub open spec fn write_spec(&self, addr: u16, value: u8, bank_idx: u8, nor: Seq<u8>) -> FlashOutcome {
        let bank_offset = bank_idx * 0x8000;
        if bank_idx >= 0x20 {
            self.unchanged(nor, false)
        } else {
            match self.step {
                FlashStep::Idle => if addr == 0x5555 && value == 0xAA {
                    FlashOutcome { step: FlashStep::Step1, ..self.unchanged(nor, true) }
                } else {
                    self.fall_through(self.step, addr, value, nor)
                },
                FlashStep::Step1 => if addr == 0xAAAA && value == 0x55 {
                    FlashOutcome { step: FlashStep::Step2, ..self.unchanged(nor, true) }
                } else {
                    self.fall_through(FlashStep::Idle, addr, value, nor)
                },
                FlashStep::Step2 => {
                    let t = command_type(value);
                    if addr == 0x5555 && t != FlashType::NoCommand {
                        if t == FlashType::IdMode {
                            let start = bank_offset + 0x4000;
                            if start + 2 <= nor.len() {
                                FlashOutcome {
                                    step: FlashStep::Command,
                                    flash_type: t,
                                    bank_idx,
                                    bak1: nor[start],
                                    bak2: nor[start + 1],
                                    ..self.unchanged(nor, true)
                                }
                            } else {
                                FlashOutcome { step: FlashStep::Command, flash_type: t, bank_idx, ..self.unchanged(nor, true) }
                            }
                        } else {
                            FlashOutcome { step: FlashStep::Command, flash_type: t, ..self.unchanged(nor, true) }
                        }
                    } else if addr == 0x5555 {
                        let s = FlashOutcome { flash_type: FlashType::NoCommand, ..self.unchanged(nor, false) };
                        if addr == 0x8000 && value == 0xF0 { s } else { FlashOutcome { step: FlashStep::Idle, ..s } }
                    } else {
                        self.fall_through(FlashStep::Idle, addr, value, nor)
                    }
                },
                FlashStep::Command => match self.flash_type {
                    FlashType::IdMode => if value == 0xF0 {
                        let start = bank_offset + 0x4000;
                        let nor2 = if start + 2 <= nor.len() {
                            nor.update(start, self.bak1).update(start + 1, self.bak2)
                        } else {
                            nor
                        };
                        FlashOutcome { step: FlashStep::Idle, ..self.unchanged(nor2, true) }
                    } else {
                        self.fall_through(self.step, addr, value, nor)
                    },
                    FlashType::ByteProgram => {
                        let offset = bank_offset + (addr - 0x4000);
                        let nor2 = if offset < nor.len() { nor.update(offset, nor[offset] & value) } else { nor };
                        FlashOutcome { step: FlashStep::Idle, ..self.unchanged(nor2, true) }
                    },
                    FlashType::BufferProgram => {
                        let offset = (addr & 0xFF) as int;
                        FlashOutcome {
                            step: FlashStep::Program,
                            buffer: self.buffer@.update(offset, self.buffer@[offset] & value),
                            ..self.unchanged(nor, true)
                        }
                    },
                    FlashType::Erase | FlashType::SectorErase | FlashType::ChipErase => if addr == 0x5555 && value == 0xAA {
                        FlashOutcome { step: FlashStep::Program, ..self.unchanged(nor, true) }
                    } else {
                        self.fall_through(self.step, addr, value, nor)
                    },
                    _ => self.fall_through(self.step, addr, value, nor),
                },
                FlashStep::Program => if (self.flash_type == FlashType::Erase || self.flash_type == FlashType::SectorErase
                    || self.flash_type == FlashType::ChipErase) && addr == 0xAAAA && value == 0x55 {
                    FlashOutcome { step: FlashStep::EraseSector, ..self.unchanged(nor, true) }
                } else {
                    self.fall_through(self.step, addr, value, nor)
                },
                FlashStep::EraseSector => if addr == 0x5555 && value == 0x10 && self.flash_type == FlashType::ChipErase {
                    let n = chip_erase_len(nor.len());
                    FlashOutcome {
                        step: FlashStep::Idle,
                        buffer: Seq::new(self.buffer@.len(), |k: int| 0xFFu8),
                        ..self.unchanged(Seq::new(nor.len(), |k: int| if k < n { 0xFFu8 } else { nor[k] }), true)
                    }
                } else if self.flash_type == FlashType::BufferProgram {
                    FlashOutcome { step: FlashStep::Idle, ..self.unchanged(nor, true) }
                } else {
                    self.fall_through(self.step, addr, value, nor)
                },
                _ => self.fall_through(self.step, addr, value, nor),
            }
        }
    }

    /// Create an idle flash controller.
    pub fn new() -> (r: Self)
        ensures
            r.wf(),
            r.step == FlashStep::Idle && r.flash_type == FlashType::NoCommand,
            r.bank_idx == 0 && r.bak1 == 0 && r.bak2 == 0,
            r.buffer@ == Seq::new(0x100, |i: int| 0u8),
    {
        let r = Flash {
            step: FlashStep::Idle,
            flash_type: FlashType::NoCommand,
            bank_idx: 0,
            bak1: 0,
            bak2: 0,
            buffer: vec![0; 0x100],
        };
        assert(r.buffer@ =~= Seq::new(0x100, |i: int| 0u8));
        r
    }

    /// Reset the controller to idle and clear the buffer.
    pub fn reset(&mut self)
        ensures
            old(self).wf() ==> final(self).wf(),
            final(self).step == FlashStep::Idle && final(self).flash_type == FlashType::NoCommand,
            final(self).bank_idx == 0 && final(self).bak1 == 0 && final(self).bak2 == 0,
            final(self).buffer@ == Seq::new(old(self).buffer@.len(), |i: int| 0u8),
    {
        self.step = FlashStep::Idle;
        self.flash_type = FlashType::NoCommand;
        self.bank_idx = 0;
        self.bak1 = 0;
        self.bak2 = 0;
        fill_all(&mut self.buffer, 0);
        proof {
            assert(self.buffer@ =~= Seq::new(old(self).buffer@.len(), |i: int| 0u8));
        }
    }

    /// Process a write to the NOR address space of bank `bank_idx`.
    /// Returns whether the flash controller consumed the write.
    pub fn write(&mut self, addr: u16, value: u8, bank_idx: u8, nor: &mut Vec<u8>) -> (handled: bool)
        requires
            old(self).wf(),
            old(self).step == FlashStep::Command && old(self).flash_type == FlashType::ByteProgram
                && bank_idx < 0x20 ==> addr >= 0x4000,
        ensures
            final(self).wf(),
            ({
                let o = old(self).write_spec(addr, value, bank_idx, old(nor)@);
                &&& final(self).step == o.step
                &&& final(self).flash_type == o.flash_type
                &&& final(self).bank_idx == o.bank_idx
                &&& final(self).bak1 == o.bak1
                &&& final(self).bak2 == o.bak2
                &&& final(self).buffer@ == o.buffer
                &&& final(nor)@ == o.nor
                &&& handled == o.handled
            }),
    {
        if bank_idx >= 0x20 {
            return false;
        }
        let bank_offset = bank_idx as usize * 0x8000;
        match self.step {
            FlashStep::Idle => {
                if addr == 0x5555 && value == 0xAA {
                    self.step = FlashStep::Step1;
                    return true;
                }
            },
            FlashStep::Step1 => {
                if addr == 0xAAAA && value == 0x55 {
                    self.step = FlashStep::Step2;
                    return true;
                }
                self.step = FlashStep::Idle;
            },
            FlashStep::Step2 => {
                if addr == 0x5555 {
                    self.flash_type = match value {
                        0x90 => FlashType::IdMode,
                        0xA0 => FlashType::ByteProgram,
                        0x80 => FlashType::Erase,
                        0xA8 => FlashType::BufferProgram,
                        0x88 => FlashType::ChipErase,
                        0x78 => FlashType::SectorErase,
                        _ => FlashType::NoCommand,
                    };
                    if self.flash_type != FlashType::NoCommand {
                        self.step = FlashStep::Command;
                        if self.flash_type == FlashType::IdMode {
                            self.bank_idx = bank_idx;
                            let bank_start = bank_offset + 0x4000;
                            if bank_start + 2 <= nor.len() {
                                self.bak1 = nor[bank_start];
                                self.bak2 = nor[bank_start + 1];
                            }
                        }
                        return true;
                    }
                }
                self.step = FlashStep::Idle;
            },
            FlashStep::Command => {
                match self.flash_type {
                    FlashType::IdMode => {
                        if value == 0xF0 {
                            let bank_start = bank_offset + 0x4000;
                            if bank_start + 2 <= nor.len() {
                                nor[bank_start] = self.bak1;
                                nor[bank_start + 1] = self.bak2;
                            }
                            self.step = FlashStep::Idle;
                            return true;
                        }
                    },
                    FlashType::ByteProgram => {
                        let offset = bank_offset + (addr as usize - 0x4000);
                        if offset < nor.len() {
                            nor[offset] = nor[offset] & value;
                        }
                        self.step = FlashStep::Idle;
                        return true;
                    },
                    FlashType::BufferProgram => {
                        let offset = addr as usize & 0xFF;
                        proof {
                            lemma_addr_fields(addr);
                        }
                        self.buffer[offset] = self.buffer[offset] & value;
                        self.step = FlashStep::Program;
                        return true;
                    },
                    FlashType::Erase | FlashType::SectorErase | FlashType::ChipErase => {
                        if addr == 0x5555 && value == 0xAA {
                            self.step = FlashStep::Program;
                            return true;
                        }
                    },
                    _ => {},
                }
            },
            FlashStep::Program => {
                match self.flash_type {
                    FlashType::Erase | FlashType::SectorErase | FlashType::ChipErase => {
                        if addr == 0xAAAA && value == 0x55 {
                            self.step = FlashStep::EraseSector;
                            return true;
                        }
                    },
                    _ => {},
                }
            },
            FlashStep::EraseSector => {
                if addr == 0x5555 && value == 0x10 && self.flash_type == FlashType::ChipErase {
                    erase_banks(nor);
                    fill_ff(&mut self.buffer);
                    self.step = FlashStep::Idle;
                    return true;
                }
                if self.flash_type == FlashType::BufferProgram {
                    self.step = FlashStep::Idle;
                    return true;
                }
            },
            _ => {},
        }
        if addr == 0x8000 && value == 0xF0 {
            self.step = FlashStep::Idle;
            return true;
        }
        false
    }
}

/// Set every byte of `v` to 0xFF.
pub fn fill_ff(v: &mut Vec<u8>)
    ensures
        final(v)@ == Seq::new(old(v)@.len(), |k: int| 0xFFu8),
{
    let n = v.len();
    let mut i: usize = 0;
    while i < n
        invariant
            n == v@.len(),
            n == old(v)@.len(),
            i <= n,
            forall|k: int| 0 <= k < i ==> v@[k] == 0xFF,
        decreases n - i,
    {
        v[i] = 0xFF;
        i += 1;
    }
    assert(v@ =~= Seq::new(old(v)@.len(), |k: int| 0xFFu8));
}

/// Chip erase: set every complete bank among the first 32 to 0xFF.
fn erase_banks(nor: &mut Vec<u8>)
    ensures
        final(nor)@ == Seq::new(
            old(nor)@.len(),
            |k: int| if k < chip_erase_len(old(nor)@.len()) { 0xFFu8 } else { old(nor)@[k] },
        ),
{
    let n = nor.len();
    let limit: usize = if n >= 0x100000 { 0x100000 } else { (n / 0x8000) * 0x8000 };
    assert(limit <= n && limit == chip_erase_len(n as nat)) by (nonlinear_arith)
        requires
            limit == (if n >= 0x100000 { 0x100000 } else { (n / 0x8000) * 0x8000 }),
    ;
    let mut i: usize = 0;
    while i < limit
        invariant
            n == nor@.len(),
            n == old(nor)@.len(),
            limit <= n,
            i <= limit,
            forall|k: int| 0 <= k < i ==> nor@[k] == 0xFF,
            forall|k: int| i <= k < n ==> nor@[k] == old(nor)@[k],
        decreases limit - i,
    {
        nor[i] = 0xFF;
        i += 1;
    }
    assert(nor@ =~= Seq::new(
        old(nor)@.len(),
        |k: int| if k < chip_erase_len(old(nor)@.len()) { 0xFFu8 } else { old(nor)@[k] },
    ));
}

impl Default for Flash {
    fn default() -> (r: Self)
        ensures
            r.wf(),
            r.step == FlashStep::Idle && r.flash_type == FlashType::NoCommand,
            r.bank_idx == 0 && r.bak1 == 0 && r.bak2 == 0,
            r.buffer@ == Seq::new(0x100, |i: int| 0u8),
    {
        Self::new()
    }
}


/// `f` is the controller a write with outcome `o` leaves.
pub open spec fn left_by(f: Flash, o: FlashOutcome) -> bool {
    &&& f.step == o.step
    &&& f.flash_type == o.flash_type
    &&& f.bank_idx == o.bank_idx
    &&& f.bak1 == o.bak1
    &&& f.bak2 == o.bak2
    &&& f.buffer@ == o.buffer
}

/// Byte programming: from an idle controller, the unlock writes
/// (0x5555, 0xAA), (0xAAAA, 0x55), the program command (0x5555, 0xA0)
/// and a data write of `value` to `addr` in the bank window leave the NOR
/// unchanged until the data write, which ANDs `value` into the addressed
/// byte of the bank (programming only clears bits; an erased byte then
/// holds `value`) and changes no other byte; the controller is idle again.
pub proof fn law_byte_program(
    f0: Flash,
    f1: Flash,
    f2: Flash,
    f3: Flash,
    nor: Seq<u8>,
    bank: u8,
    addr: u16,
    value: u8,
)
    requires
        f0.step == FlashStep::Idle,
        bank < 0x20,
        0x4000 <= addr,
        left_by(f1, f0.write_spec(0x5555, 0xAA, bank, nor)),
        left_by(f2, f1.write_spec(0xAAAA, 0x55, bank, nor)),
        left_by(f3, f2.write_spec(0x5555, 0xA0, bank, nor)),
    ensures
        f0.write_spec(0x5555, 0xAA, bank, nor).nor == nor,
        f1.write_spec(0xAAAA, 0x55, bank, nor).nor == nor,
        f2.write_spec(0x5555, 0xA0, bank, nor).nor == nor,
        ({
            let o = f3.write_spec(addr, value, bank, nor);
            let off = bank * 0x8000 + addr - 0x4000;
            &&& o.handled
            &&& o.step == FlashStep::Idle
            &&& o.nor.len() == nor.len()
            &&& off < nor.len() ==> o.nor[off] == nor[off] & value
            &&& off < nor.len() && nor[off] == 0xFF ==> o.nor[off] == value
            &&& forall|i: int| 0 <= i < nor.len() && i != off ==> o.nor[i] == nor[i]
        }),
{
    assert(f1.step == FlashStep::Step1);
    assert(f2.step == FlashStep::Step2);
    assert(command_type(0xA0) == FlashType::ByteProgram);
    assert(f3.step == FlashStep::Command && f3.flash_type == FlashType::ByteProgram);
    assert(0xFFu8 & value == value) by (bit_vector);
}


/// Chip erase: from an idle controller, (0x5555, 0xAA), (0xAAAA, 0x55),
/// (0x5555, 0x88), (0x5555, 0xAA), (0xAAAA, 0x55), (0x5555, 0x10) set
/// every byte of the first 32 banks of 32KB that the NOR holds in full to
/// 0xFF and keep the rest; the controller is idle again.
pub proof fn law_chip_erase(
    f0: Flash,
    f1: Flash,
    f2: Flash,
    f3: Flash,
    f4: Flash,
    f5: Flash,
    nor: Seq<u8>,
    bank: u8,
)
    requires
        f0.step == FlashStep::Idle,
        bank < 0x20,
        left_by(f1, f0.write_spec(0x5555, 0xAA, bank, nor)),
        left_by(f2, f1.write_spec(0xAAAA, 0x55, bank, nor)),
        left_by(f3, f2.write_spec(0x5555, 0x88, bank, nor)),
        left_by(f4, f3.write_spec(0x5555, 0xAA, bank, nor)),
        left_by(f5, f4.write_spec(0xAAAA, 0x55, bank, nor)),
    ensures
        f0.write_spec(0x5555, 0xAA, bank, nor).nor == nor,
        f1.write_spec(0xAAAA, 0x55, bank, nor).nor == nor,
        f2.write_spec(0x5555, 0x88, bank, nor).nor == nor,
        f3.write_spec(0x5555, 0xAA, bank, nor).nor == nor,
        f4.write_spec(0xAAAA, 0x55, bank, nor).nor == nor,
        ({
            let o = f5.write_spec(0x5555, 0x10, bank, nor);
            let n: int = if nor.len() >= 0x100000 { 0x100000 } else { nor.len() - nor.len() % 0x8000 };
            &&& o.step == FlashStep::Idle
            &&& o.nor.len() == nor.len()
            &&& forall|i: int| 0 <= i < nor.len() ==> #[trigger] o.nor[i] == if i < n { 0xFFu8 } else { nor[i] }
        }),
{
    assert(command_type(0x88) == FlashType::ChipErase);
    assert(f3.step == FlashStep::Command && f3.flash_type == FlashType::ChipErase);
    assert(f4.step == FlashStep::Program && f4.flash_type == FlashType::ChipErase);
    assert(f5.step == FlashStep::EraseSector && f5.flash_type == FlashType::ChipErase);
    assert((nor.len() / 0x8000) * 0x8000 == nor.len() - nor.len() % 0x8000);
}

} // verus!
