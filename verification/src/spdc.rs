//! Hardware shared by the SPDC1016-family machines (PC1000 and CC800):
//! 8KB window targets, the SST-style NOR command set (byte program, 4KB
//! block erase, mass erase, software ID, info block), and the periodic
//! timers (Timer A, Timer 0, Timer 1, time base and the 2 Hz NMI).
//!
//! IO register indexes used here: 0x01 interrupt status, 0x04 general
//! control, 0x14 Timer A/B control, 0x40 interrupt enable (shadow of the
//! write to 0x01).

use vstd::prelude::*;
use crate::bits::{lemma_byte_fields, lemma_byte_pair, lemma_timer_fields};
use crate::bytes::{splice, run, fill_range};
use crate::cpu::Cpu;

verus! {

/// Interrupt status bit of Timer A.
pub const INT_TIMER_A: u8 = 0x01;
/// Interrupt status bit of the time base.
pub const INT_TIME_BASE: u8 = 0x08;
/// Interrupt status bit of Timer 0.
pub const INT_TIMER0: u8 = 0x10;
/// Interrupt status bit of Timer 1.
pub const INT_TIMER1: u8 = 0x20;
/// Interrupt enable bit of Timer A.
pub const EN_TIMER_A: u8 = 0x01;
/// Interrupt enable bit of the time base (set means masked).
pub const EN_TIME_BASE: u8 = 0x08;
/// Interrupt enable bit of the NMI (set means masked).
pub const EN_NMI: u8 = 0x10;
/// CPU cycles per periodic tick (5.12 MHz / (576 * 50)).
pub const TICK_CYCLES: u64 = 177;
/// CPU cycles per NMI (2 Hz).
pub const NMI_CYCLES: u64 = 2_560_000;

/// NOR command state machine states.
#[derive(Clone, Copy, Debug, PartialEq, Eq, Structural)]
pub enum NorCmd {
    /// No command in progress
    NoCommand,
    /// Software ID mode
    SwId,
    /// Byte program
    ByteProgram,
    /// Block or mass erase
    BlockOrMassErase,
    /// Info block byte program
    InfoByteProgram,
    /// Info block or mass erase
    InfoOrBmassErase,
    /// Info block read
    InfoRead,
    /// Status polling
    PollStatus,
}

/// A resolved 8KB memory window target.
#[derive(Clone, Copy, Debug, PartialEq, Eq, Structural)]
pub enum Page {
    Ram(usize),
    Rom(usize),
    Nor(usize),
}

impl Page {
    /// A window into the NOR (when `roa`) or into the ROM.
    pub fn from_base(roa: bool, offset: usize) -> (r: Page)
        ensures
            r == if roa { Page::Nor(offset) } else { Page::Rom(offset) },
    {
        if roa {
            Page::Nor(offset)
        } else {
            Page::Rom(offset)
        }
    }
}

/// The command byte written after the unlock sequence.
pub open spec fn nor_command(value: u8) -> NorCmd {
    if value == 0x90 {
        NorCmd::SwId
    } else if value == 0xA0 {
        NorCmd::ByteProgram
    } else if value == 0x80 {
        NorCmd::BlockOrMassErase
    } else if value == 0xA8 {
        NorCmd::InfoByteProgram
    } else if value == 0x88 {
        NorCmd::InfoOrBmassErase
    } else if value == 0x78 {
        NorCmd::InfoRead
    } else if value == 0x70 {
        NorCmd::PollStatus
    } else {
        NorCmd::NoCommand
    }
}

/// NOR command state: step, command, NOR image, info block, and whether
/// the flash contents changed.
pub struct NorState {
    pub step: u8,
    pub cmd: NorCmd,
    pub nor: Seq<u8>,
    pub info: Seq<u8>,
    pub dirty: bool,
}

/// Size of the block a block erase clears: 2KB on the NC2000 chip, 4KB
/// on the SPDC1016 machines.
pub open spec fn erase_block(nc2000: bool) -> int {
    if nc2000 { 0x800 } else { 0x1000 }
}

/// State after the command sequence sees a write of `value` to `addr`
/// (NOR offset `offset`), before the 0xF0 reset rule.  The NC2000 chip
/// (`nc2000`) keeps the command after programming (step 4) and erasing
/// (step 6), where its status reads 0x88; the SPDC1016 chip returns to
/// idle at once.
pub open spec fn nor_step_spec(s: NorState, addr: u16, offset: usize, value: u8, nc2000: bool) -> NorState {
    let a5 = addr == 0x5555 || addr == 0xD555;
    let idle = NorState { step: 0, cmd: NorCmd::NoCommand, dirty: true, ..s };
    let programmed = if nc2000 { NorState { step: 4, dirty: true, ..s } } else { idle };
    let erased = if nc2000 { NorState { step: 6, dirty: true, ..s } } else { idle };
    if s.step == 0 {
        if a5 && value == 0xAA { NorState { step: 1, ..s } } else { s }
    } else if s.step == 1 {
        if addr == 0xAAAA && value == 0x55 { NorState { step: 2, ..s } } else { NorState { step: 0, ..s } }
    } else if s.step == 2 {
        if a5 {
            let c = nor_command(value);
            NorState { step: if c != NorCmd::NoCommand { 3 } else { 0 }, cmd: c, ..s }
        } else {
            s
        }
    } else if s.step == 3 {
        if s.cmd == NorCmd::ByteProgram {
            NorState { nor: s.nor.update(offset as int, s.nor[offset as int] & value), ..programmed }
        } else if s.cmd == NorCmd::InfoByteProgram {
            let i = (offset % 0x100) as int;
            NorState { info: s.info.update(i, s.info[i] & value), ..programmed }
        } else if s.cmd == NorCmd::BlockOrMassErase || s.cmd == NorCmd::InfoOrBmassErase {
            if a5 && value == 0xAA { NorState { step: 4, ..s } } else { s }
        } else {
            NorState { step: 0, ..s }
        }
    } else if s.step == 4 {
        if (s.cmd == NorCmd::BlockOrMassErase || s.cmd == NorCmd::InfoOrBmassErase) && addr == 0xAAAA && value
            == 0x55 {
            NorState { step: 5, ..s }
        } else {
            s
        }
    } else if s.step == 5 {
        if a5 && value == 0x10 {
            NorState {
                nor: run(s.nor.len(), 0xFF),
                info: if s.cmd == NorCmd::InfoOrBmassErase { run(s.info.len(), 0xFF) } else { s.info },
                ..erased
            }
        } else if s.cmd == NorCmd::BlockOrMassErase && value == 0x30 {
            let bs = erase_block(nc2000);
            let b = offset as int - offset as int % bs;
            let e = if b + bs <= s.nor.len() { b + bs } else { s.nor.len() as int };
            NorState { nor: splice(s.nor, b, run((e - b) as nat, 0xFF)), ..erased }
        } else if s.cmd == NorCmd::InfoOrBmassErase && value == 0x30 {
            NorState { info: run(s.info.len(), 0xFF), ..erased }
        } else {
            s
        }
    } else {
        s
    }
}

/// Full effect of a NOR write: the command sequence, then any write of
/// 0xF0 resets it.
pub open spec fn nor_write_spec(s: NorState, addr: u16, offset: usize, value: u8, nc2000: bool) -> NorState {
    let t = nor_step_spec(s, addr, offset, value, nc2000);
    if value == 0xF0 { NorState { step: 0, cmd: NorCmd::NoCommand, ..t } } else { t }
}

/// Byte a NOR read returns while the command state is `(step, cmd)`.
pub open spec fn nor_read_spec(
    step: u8,
    cmd: NorCmd,
    nor: Seq<u8>,
    info: Seq<u8>,
    addr: u16,
    offset: usize,
    nc2000: bool,
) -> u8 {
    if cmd == NorCmd::InfoRead && step == 3 {
        info[(offset % 0x100) as int]
    } else if cmd == NorCmd::SwId && step == 3 {
        if addr == 0x8000 {
            if nc2000 { 0xC7 } else { 0xBF }
        } else if addr == 0x8001 {
            0xD7
        } else {
            0xFF
        }
    } else if cmd == NorCmd::PollStatus && step == 3 {
        0x88
    } else if cmd == NorCmd::ByteProgram && step == 4 {
        0x88
    } else if cmd == NorCmd::BlockOrMassErase && step == 6 {
        0x88
    } else {
        nor[offset as int]
    }
}

/// NOR read with command side effects (software ID, info block, status).
pub fn nor_read(
    step: u8,
    cmd: NorCmd,
    nor: &Vec<u8>,
    info: &[u8; 0x100],
    addr: u16,
    offset: usize,
    nc2000: bool,
) -> (r: u8)
    requires
        (offset as int) < nor@.len(),
    ensures
        r == nor_read_spec(step, cmd, nor@, info@, addr, offset, nc2000),
{
    match cmd {
        NorCmd::InfoRead if step == 3 => info[offset % 0x100],
        NorCmd::SwId if step == 3 => {
            if addr == 0x8000 {
                if nc2000 { 0xC7 } else { 0xBF }
            } else if addr == 0x8001 {
                0xD7
            } else {
                0xFF
            }
        },
        NorCmd::PollStatus if step == 3 => 0x88,
        NorCmd::ByteProgram if step == 4 => 0x88,
        NorCmd::BlockOrMassErase if step == 6 => 0x88,
        _ => nor[offset],
    }
}

/// Set every byte of the info block to `value`.
fn fill_info(info: &mut [u8; 0x100], value: u8)
    ensures
        final(info)@ == run(0x100, value),
{
    let mut i: usize = 0;
    while i < 0x100
        invariant
            i <= 0x100,
            forall|k: int| 0 <= k < i ==> info@[k] == value,
        decreases 0x100 - i,
    {
        info[i] = value;
        i += 1;
    }
    assert(info@ =~= run(0x100, value));
}

/// NOR command sequence state machine; returns whether the flash
/// contents were programmed or erased.
pub fn nor_write(
    step: &mut u8,
    cmd: &mut NorCmd,
    nor: &mut Vec<u8>,
    info: &mut [u8; 0x100],
    addr: u16,
    offset: usize,
    value: u8,
    nc2000: bool,
) -> (dirty: bool)
    requires
        (offset as int) < old(nor)@.len(),
    ensures
        ({
            let s = NorState { step: *old(step), cmd: *old(cmd), nor: old(nor)@, info: old(info)@, dirty: false };
            let t = nor_write_spec(s, addr, offset, value, nc2000);
            &&& *final(step) == t.step
            &&& *final(cmd) == t.cmd
            &&& final(nor)@ == t.nor
            &&& final(info)@ == t.info
            &&& dirty == t.dirty
        }),
{
    let addr_is_5555 = addr == 0x5555 || addr == 0xD555;
    let mut dirty = false;
    let nl = nor.len();
    if *step == 0 {
        if addr_is_5555 && value == 0xAA {
            *step = 1;
        }
    } else if *step == 1 {
        if addr == 0xAAAA && value == 0x55 {
            *step = 2;
        } else {
            *step = 0;
        }
    } else if *step == 2 {
        if addr_is_5555 {
            let c = match value {
                0x90 => NorCmd::SwId,
                0xA0 => NorCmd::ByteProgram,
                0x80 => NorCmd::BlockOrMassErase,
                0xA8 => NorCmd::InfoByteProgram,
                0x88 => NorCmd::InfoOrBmassErase,
                0x78 => NorCmd::InfoRead,
                0x70 => NorCmd::PollStatus,
                _ => NorCmd::NoCommand,
            };
            *cmd = c;
            *step = if c != NorCmd::NoCommand { 3 } else { 0 };
        }
    } else if *step == 3 {
        match *cmd {
            NorCmd::ByteProgram => {
                let b = nor[offset];
                nor[offset] = b & value;
                dirty = true;
                if nc2000 {
                    *step = 4;
                } else {
                    *step = 0;
                    *cmd = NorCmd::NoCommand;
                }
            },
            NorCmd::InfoByteProgram => {
                let i = offset % 0x100;
                let b = info[i];
                info[i] = b & value;
                dirty = true;
                if nc2000 {
                    *step = 4;
                } else {
                    *step = 0;
                    *cmd = NorCmd::NoCommand;
                }
            },
            NorCmd::BlockOrMassErase | NorCmd::InfoOrBmassErase => {
                if addr_is_5555 && value == 0xAA {
                    *step = 4;
                }
            },
            _ => {
                *step = 0;
            },
        }
    } else if *step == 4 {
        if (*cmd == NorCmd::BlockOrMassErase || *cmd == NorCmd::InfoOrBmassErase) && addr == 0xAAAA && value
            == 0x55 {
            *step = 5;
        }
    } else if *step == 5 {
        let erased = (addr_is_5555 && value == 0x10) || ((*cmd == NorCmd::BlockOrMassErase
            || *cmd == NorCmd::InfoOrBmassErase) && value == 0x30);
        if addr_is_5555 && value == 0x10 {
            fill_range(nor, 0, nl, 0xFF);
            if *cmd == NorCmd::InfoOrBmassErase {
                fill_info(info, 0xFF);
            }
        } else if *cmd == NorCmd::BlockOrMassErase && value == 0x30 {
            let bs: usize = if nc2000 { 0x800 } else { 0x1000 };
            let block = offset - offset % bs;
            let end = if nl - block >= bs { block + bs } else { nl };
            fill_range(nor, block, end - block, 0xFF);
        } else if *cmd == NorCmd::InfoOrBmassErase && value == 0x30 {
            fill_info(info, 0xFF);
        }
        if erased {
            dirty = true;
            if nc2000 {
                *step = 6;
            } else {
                *step = 0;
                *cmd = NorCmd::NoCommand;
            }
        }
    }
    if value == 0xF0 {
        *step = 0;
        *cmd = NorCmd::NoCommand;
    }
    proof {
        let s = NorState { step: *old(step), cmd: *old(cmd), nor: old(nor)@, info: old(info)@, dirty: false };
        let t = nor_write_spec(s, addr, offset, value, nc2000);
        assert(nor@ =~= t.nor);
        assert(info@ =~= t.info);
    }
    dirty
}

/// Programming only ever clears bits: after any NOR write that is not an
/// erase (no 0x10 or 0x30 byte), every NOR byte is a bitwise subset of
/// what it was.
pub proof fn law_program_clears_bits(s: NorState, addr: u16, offset: usize, value: u8, nc2000: bool, k: int)
    requires
        0 <= offset < s.nor.len(),
        0 <= k < s.nor.len(),
        value != 0x10 && value != 0x30,
    ensures
        nor_write_spec(s, addr, offset, value, nc2000).nor[k] & s.nor[k] == nor_write_spec(
            s,
            addr,
            offset,
            value,
            nc2000,
        ).nor[k],
{
    let t = nor_write_spec(s, addr, offset, value, nc2000);
    if s.step == 3 && s.cmd == NorCmd::ByteProgram && k == offset {
        let a = s.nor[k];
        lemma_byte_pair(a, value);
    } else {
        let a = s.nor[k];
        assert(t.nor[k] == a);
        lemma_byte_fields(a);
    }
}

/// Byte programming on the SPDC machines: from the idle command state,
/// the unlock writes (0x5555, 0xAA), (0xAAAA, 0x55), the program command
/// (0x5555, 0xA0) and a data write of `value` at `offset` leave every NOR
/// byte as it was but the one at `offset`, which becomes its old value
/// ANDed with `value` (an erased byte then holds `value`).
pub proof fn law_spdc_byte_program(
    s: NorState,
    o1: usize,
    o2: usize,
    o3: usize,
    addr: u16,
    offset: usize,
    value: u8,
    nc2000: bool,
)
    requires
        s.step == 0,
        0 <= offset < s.nor.len(),
    ensures
        ({
            let s1 = nor_write_spec(s, 0x5555, o1, 0xAA, nc2000);
            let s2 = nor_write_spec(s1, 0xAAAA, o2, 0x55, nc2000);
            let s3 = nor_write_spec(s2, 0x5555, o3, 0xA0, nc2000);
            let s4 = nor_write_spec(s3, addr, offset, value, nc2000);
            &&& s1.nor == s.nor && s2.nor == s.nor && s3.nor == s.nor
            &&& s4.nor.len() == s.nor.len()
            &&& s4.nor[offset as int] == s.nor[offset as int] & value
            &&& s.nor[offset as int] == 0xFF ==> s4.nor[offset as int] == value
            &&& forall|i: int| 0 <= i < s.nor.len() && i != offset ==> s4.nor[i] == s.nor[i]
        }),
{
    assert(nor_command(0xA0) == NorCmd::ByteProgram);
    assert(0xFFu8 & value == value) by (bit_vector);
}

/// The erase sequence on the SPDC machines: from the idle command state,
/// (0x5555, 0xAA), (0xAAAA, 0x55), (0x5555, 0x80), (0x5555, 0xAA),
/// (0xAAAA, 0x55) and then 0x30 written at `offset` set every byte of the
/// block holding `offset` (2KB on the NC2000, 4KB otherwise, cut at the
/// end of the NOR) to 0xFF and keep every other byte; (0x5555, 0x10) in
/// its place sets the whole NOR to 0xFF.
pub proof fn law_spdc_erase(
    s: NorState,
    o: usize,
    addr: u16,
    offset: usize,
    nc2000: bool,
)
    requires
        s.step == 0,
        0 <= offset < s.nor.len(),
    ensures
        ({
            let s1 = nor_write_spec(s, 0x5555, o, 0xAA, nc2000);
            let s2 = nor_write_spec(s1, 0xAAAA, o, 0x55, nc2000);
            let s3 = nor_write_spec(s2, 0x5555, o, 0x80, nc2000);
            let s4 = nor_write_spec(s3, 0x5555, o, 0xAA, nc2000);
            let s5 = nor_write_spec(s4, 0xAAAA, o, 0x55, nc2000);
            let block = nor_write_spec(s5, addr, offset, 0x30, nc2000);
            let all = nor_write_spec(s5, 0x5555, offset, 0x10, nc2000);
            let size: int = if nc2000 { 0x800 } else { 0x1000 };
            let start = offset as int - offset as int % size;
            &&& s5.nor == s.nor
            &&& block.nor.len() == s.nor.len()
            &&& forall|i: int| 0 <= i < s.nor.len() ==> #[trigger] block.nor[i] == if start <= i < start + size {
                0xFFu8
            } else {
                s.nor[i]
            }
            &&& all.nor.len() == s.nor.len()
            &&& forall|i: int| 0 <= i < s.nor.len() ==> #[trigger] all.nor[i] == 0xFFu8
        }),
{
    assert(nor_command(0x80) == NorCmd::BlockOrMassErase);
}

/// Periodic timer state of an SPDC1016 machine.
#[derive(Clone, Copy, PartialEq, Eq, Structural)]
pub struct SpdcTimers {
    pub timer0run: bool,
    pub timer1run: bool,
    pub tm0v: u16,
    pub tm0r: u16,
    pub tm1v2: u16,
    pub tma_value: u32,
    pub tma_reload: u32,
    pub tick_idx: u64,
    pub tick_cycles: u64,
    pub nmi_cycles: u64,
}

impl SpdcTimers {
    /// Stopped timers at zero.
    pub fn new() -> (r: Self)
        ensures
            r.wf(),
            !r.timer0run && !r.timer1run,
            r.tm0v == 0 && r.tm0r == 0 && r.tm1v2 == 0 && r.tma_value == 0 && r.tma_reload == 0,
            r.tick_idx == 0 && r.tick_cycles == 0 && r.nmi_cycles == 0,
    {
        SpdcTimers {
            timer0run: false,
            timer1run: false,
            tm0v: 0,
            tm0r: 0,
            tm1v2: 0,
            tma_value: 0,
            tma_reload: 0,
            tick_idx: 0,
            tick_cycles: 0,
            nmi_cycles: 0,
        }
    }

    /// Counter ranges kept by every operation.
    pub open spec fn wf(&self) -> bool {
        &&& self.tm0v < 256
        &&& self.tm0r < 256
        &&& self.tma_value < 0x10000
        &&& self.tma_reload < 0x10000
    }
}

/// One periodic tick: Timer A advances by `256 >> (ctrl >> 4)` and reloads
/// on overflow (raising its interrupt when enabled), Timer 0 advances by
/// 64 and overflows every 4 ticks, Timer 1 advances by one half-step and
/// overflows every 512, and the time base fires on tick 30 of every 115
/// while unmasked and the general control's low nibble is set.  Returns
/// the timers, the IO registers and whether an IRQ was raised.
pub open spec fn tick_once(t: SpdcTimers, io: Seq<u8>) -> (SpdcTimers, Seq<u8>, bool) {
    let idx = (if t.tick_idx == 0xFFFF_FFFF_FFFF_FFFF { 0 } else { t.tick_idx + 1 }) as u64;
    let temp = io[0x14] >> 4u8;
    let (tma, io_a, irq_a) = if temp != 0 {
        let v = t.tma_value + (256u32 >> temp);
        if v >= 0x10000 {
            if io[0x40] & EN_TIMER_A != 0 {
                (t.tma_reload, io.update(0x01, io[0x01] | INT_TIMER_A), true)
            } else {
                (t.tma_reload, io, false)
            }
        } else {
            (v as u32, io, false)
        }
    } else {
        (t.tma_value, io, false)
    };
    let (tm0v, tm0r, io_0, irq_0) = if t.timer0run {
        let v = t.tm0v + 64;
        if v >= 256 {
            ((v - 256) as u16, (v - 256) as u16, io_a.update(0x01, io_a[0x01] | INT_TIMER0), true)
        } else {
            (v as u16, t.tm0r, io_a, false)
        }
    } else {
        (t.tm0v, t.tm0r, io_a, false)
    };
    let (tm1, io_1, irq_1) = if t.timer1run {
        let v = (if t.tm1v2 == 0xFFFF { 0 } else { t.tm1v2 + 1 }) as u16;
        if v >= 512 {
            (0u16, io_0.update(0x01, io_0[0x01] | INT_TIMER1), true)
        } else {
            (v, io_0, false)
        }
    } else {
        (t.tm1v2, io_0, false)
    };
    let tb = idx % 115 == 30 && io[0x40] & EN_TIME_BASE == 0 && io[0x04] & 0x0F != 0;
    let io_t = if tb { io_1.update(0x01, io_1[0x01] | INT_TIME_BASE) } else { io_1 };
    (
        SpdcTimers { tick_idx: idx, tma_value: tma, tm0v, tm0r, tm1v2: tm1, ..t },
        io_t,
        irq_a || irq_0 || irq_1 || tb,
    )
}

/// `n` periodic ticks in a row.
pub open spec fn ticks(t: SpdcTimers, io: Seq<u8>, n: nat) -> (SpdcTimers, Seq<u8>, bool)
    decreases n,
{
    if n == 0 {
        (t, io, false)
    } else {
        let (t1, io1, i1) = ticks(t, io, (n - 1) as nat);
        let (t2, io2, i2) = tick_once(t1, io1);
        (t2, io2, i1 || i2)
    }
}

/// Ticks leave the cycle accumulators and the run flags alone.
pub proof fn lemma_ticks_frame(t: SpdcTimers, io: Seq<u8>, n: nat)
    ensures
        ticks(t, io, n).0.tick_cycles == t.tick_cycles,
        ticks(t, io, n).0.nmi_cycles == t.nmi_cycles,
        ticks(t, io, n).0.timer0run == t.timer0run,
        ticks(t, io, n).0.timer1run == t.timer1run,
        ticks(t, io, n).0.tma_reload == t.tma_reload,
    decreases n,
{
    if n > 0 {
        lemma_ticks_frame(t, io, (n - 1) as nat);
    }
}

/// 64-bit wrapping addition.
pub open spec fn add64w(x: u64, y: u64) -> u64 {
    ((x + y) % 0x1_0000_0000_0000_0000) as u64
}

/// What advancing the periodic timers by `delta` cycles does to the timers,
/// the IO registers and the CPU.
pub open spec fn periodic_post(
    t0: SpdcTimers,
    io0: Seq<u8>,
    cpu0: Cpu,
    t1: SpdcTimers,
    io1: Seq<u8>,
    cpu1: Cpu,
    delta: u64,
) -> bool {
    let start = add64w(t0.tick_cycles, delta);
    let n = (start / TICK_CYCLES) as nat;
    let (tt, tio, irq) = ticks(SpdcTimers { tick_cycles: (start % TICK_CYCLES) as u64, ..t0 }, io0, n);
    let nmi_acc = add64w(t0.nmi_cycles, delta);
    let nmi_fire = nmi_acc >= NMI_CYCLES;
    &&& t1 == (SpdcTimers { nmi_cycles: if nmi_fire { (nmi_acc - NMI_CYCLES) as u64 } else { nmi_acc }, ..tt })
    &&& io1 == tio
    &&& cpu1 == (Cpu {
        irq_pending: cpu0.irq_pending || irq,
        nmi_pending: cpu0.nmi_pending || (nmi_fire && tio[0x40] & EN_NMI == 0),
        ..cpu0
    })
}

/// Advance the periodic timers by `delta` CPU cycles: one tick per 177
/// accumulated cycles, then the 2 Hz NMI (unless masked).
pub fn tick_periodic(t: &mut SpdcTimers, io: &mut [u8; 0x80], cpu: &mut Cpu, delta: u64)
    requires
        old(t).wf(),
    ensures
        final(t).wf(),
        periodic_post(*old(t), old(io)@, *old(cpu), *final(t), final(io)@, *final(cpu), delta),
{
    let start = t.tick_cycles.wrapping_add(delta);
    t.tick_cycles = start;
    let ghost n = (start / TICK_CYCLES) as nat;
    let ghost t0 = SpdcTimers { tick_cycles: (start % TICK_CYCLES) as u64, ..*old(t) };
    let ghost cpu0 = *cpu;
    let ghost mut done: nat = 0;
    proof {
        assert(start == add64w(old(t).tick_cycles, delta));
    }
    while t.tick_cycles >= TICK_CYCLES
        invariant
            t.wf(),
            done <= n,
            n == start / TICK_CYCLES,
            t.tick_cycles == start - done * TICK_CYCLES,
            ({
                let (tk, iok, irqk) = ticks(t0, old(io)@, done);
                &&& *t == (SpdcTimers { tick_cycles: t.tick_cycles, ..tk })
                &&& io@ == iok
                &&& *cpu == (Cpu { irq_pending: cpu0.irq_pending || irqk, ..cpu0 })
            }),
            t0 == (SpdcTimers { tick_cycles: (start % TICK_CYCLES) as u64, ..*old(t) }),
            cpu0 == *old(cpu),
        decreases t.tick_cycles,
    {
        proof {
            assert(done < n) by (nonlinear_arith)
                requires
                    t.tick_cycles == start - done * TICK_CYCLES,
                    t.tick_cycles >= TICK_CYCLES,
                    n == start / TICK_CYCLES,
                    TICK_CYCLES == 177,
            ;
        }
        let ghost t_before = *t;
        let ghost io_before = io@;
        t.tick_cycles = t.tick_cycles - TICK_CYCLES;
        t.tick_idx = t.tick_idx.wrapping_add(1);
        let mut irq = false;

        // Timer A (record/play timer).
        let temp = io[0x14] >> 4;
        proof {
            let r14 = io@[0x14];
            lemma_byte_fields(r14);
        }
        if temp != 0 {
            proof {
                lemma_timer_fields(0, temp);
            }
            t.tma_value = t.tma_value + (256u32 >> temp);
            if t.tma_value >= 0x10000 {
                t.tma_value = t.tma_reload;
                if io[0x40] & EN_TIMER_A != 0 {
                    let v = io[0x01];
                    io[0x01] = v | INT_TIMER_A;
                    irq = true;
                }
            }
        }

        // Timer 0 (+64 per tick, overflow every 4 ticks).
        if t.timer0run {
            t.tm0v = t.tm0v + 64;
            if t.tm0v >= 256 {
                t.tm0v = t.tm0v - 256;
                t.tm0r = t.tm0v;
                let v = io[0x01];
                io[0x01] = v | INT_TIMER0;
                irq = true;
            }
        }

        // Timer 1 (+0.5 per tick, overflow every 512 ticks).
        if t.timer1run {
            t.tm1v2 = t.tm1v2.wrapping_add(1);
            if t.tm1v2 >= 512 {
                t.tm1v2 = 0;
                let v = io[0x01];
                io[0x01] = v | INT_TIMER1;
                irq = true;
            }
        }

        // Time base (~250 Hz, used for keyboard scanning).
        if t.tick_idx % 115 == 30 && io[0x40] & EN_TIME_BASE == 0 && io[0x04] & 0x0F != 0 {
            let v = io[0x01];
            io[0x01] = v | INT_TIME_BASE;
            irq = true;
        }
        if irq {
            cpu.irq_pending = true;
        }
        proof {
            let (tk, iok, irqk) = ticks(t0, old(io)@, done);
            let (t2, io2, i2) = tick_once(tk, iok);
            assert(ticks(t0, old(io)@, done + 1) == (t2, io2, irqk || i2));
            assert(io@ =~= io2);
            assert(irq == i2);
            assert(*t == (SpdcTimers { tick_cycles: t.tick_cycles, ..t2 }));
            assert(t.tick_cycles == start - (done + 1) * TICK_CYCLES) by (nonlinear_arith)
                requires
                    t.tick_cycles == t_before.tick_cycles - TICK_CYCLES,
                    t_before.tick_cycles == start - done * TICK_CYCLES,
            ;
            done = done + 1;
        }
    }
    proof {
        assert(done == n && t.tick_cycles == start % TICK_CYCLES) by (nonlinear_arith)
            requires
                t.tick_cycles == start - done * TICK_CYCLES,
                t.tick_cycles < TICK_CYCLES,
                done <= n,
                n == start / TICK_CYCLES,
                TICK_CYCLES == 177,
        ;
        lemma_ticks_frame(t0, old(io)@, n);
    }

    // NMI at 2 Hz (time update interrupt).
    t.nmi_cycles = t.nmi_cycles.wrapping_add(delta);
    if t.nmi_cycles >= NMI_CYCLES {
        t.nmi_cycles = t.nmi_cycles - NMI_CYCLES;
        if io[0x40] & EN_NMI == 0 {
            cpu.nmi_pending = true;
        }
    }
}

/// Zero-page window base for switch value `value` (register 0x0F).
pub open spec fn zp_offset_spec(value: u8) -> usize {
    let zp = value & 0x07;
    if zp == 0 {
        0x40
    } else if zp <= 3 {
        0
    } else {
        (0x200 + (zp - 4) * 0x40) as usize
    }
}

/// Zero-page window base for switch value `value` (register 0x0F).
pub fn zp_offset(value: u8) -> (r: usize)
    ensures
        r == zp_offset_spec(value),
        r <= 0x2C0,
{
    let zp = value & 0x07;
    proof {
        lemma_byte_fields(value);
    }
    if zp == 0 {
        0x40
    } else if zp <= 3 {
        0
    } else {
        0x200 + (zp as usize - 4) * 0x40
    }
}

} // verus!
