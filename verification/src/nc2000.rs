//! NC2000 machine.
//!
//! The NC2000 boots from NOR Flash plus NAND Flash (no big ROM dump).
//! Banks 0x00-0x0F select NOR pages, banks 0x80+ select the extended RAM,
//! and the fixed BIOS page at 0xE000-0xFFFF is NOR page 0 + 0x6000.  The
//! IO subsystem follows the SPDC1016 register model (timers, ports, LCD
//! address, RTC, DSP, NAND controller).
//!
//! IO registers: 0x00 bank, 0x01 interrupt status, 0x02/0x03 timer 0/1,
//! 0x04 general control, 0x05 clock control, 0x06 LCD address, 0x08/0x09
//! ports 0/1, 0x0A BIOS/BBS, 0x0B port 3, 0x0C LCD/timer control, 0x0D
//! volume, 0x0F port directions, 0x10/0x11 Timer A, 0x14 Timer A/B
//! control, 0x15 port-1 direction, 0x18 port 4 (NAND CLE/ALE), 0x1C
//! battery, 0x29 NAND data, 0x30-0x33 DSP, 0x3A-0x3D RTC, 0x3E/0x3F
//! extended register index/data.

use vstd::prelude::*;
use crate::bits::{lemma_addr_fields, lemma_byte_fields, lemma_byte_pair, lemma_mask_bound, lemma_shift_floor, lemma_timer_fields, lemma_word_halves};
use crate::audio::Audio;
use crate::bytes::{splice, run, copy_into, fill_range, fill_all, filled};
use crate::cpu_laws::lemma_step_cycles;
use crate::cpu::{BusEvent, Cpu, CpuBus, s_step, serves_all, RESET_VECTOR};
use crate::lcd::{Lcd, CYCLES_PER_FRAME};
use crate::machine::{Machine, MachineModel, MachineError, RomFiles};
use crate::save::SaveState;
use crate::timer::Timer;
use crate::input::Input;
use crate::flash::Flash;

use crate::spdc::{NorCmd, NorState, nor_read, nor_read_spec, nor_write, nor_write_spec};

verus! {

/// NOR page count (16 x 32KB = 512KB).
pub const NUM_NOR_PAGES: usize = 0x10;
/// NAND main area page count.
pub const NUM_NAND_PAGES: usize = 65536;
/// NAND first-plane page count.
pub const NAND0_PAGES: usize = 64;
/// NAND page size (512 data + 16 spare).
pub const NAND_PAGE_SIZE: usize = 528;
/// NOR page size (32KB).
pub const NOR_PAGE_SIZE: usize = 0x8000;
/// NOR size.
pub const NOR_SIZE: usize = 0x8_0000;
/// NAND size: first plane and main area.
/// RAM offset of the fixed window the one-bit LCD framebuffer is read from.
pub const LCD_RAM_WINDOW: usize = 0x19C0;

pub const NAND_SIZE: usize = 34_636_800;
/// Internal RAM size (24KB) kept by save states.
pub const INTERNAL_RAM_SIZE: usize = 0x6000;
/// Extended register of the port-0 pull-ups.
pub const EXT_P0_PU: usize = 0x24;
/// Extended register of the RTC control.
pub const EXT_RTC_CTRL: usize = 0x0A;
/// Extended register of the interrupt clear.
pub const EXT_INT_CLEAR: usize = 0x0B;
/// CPU cycles per Timer A tick (576 * 50 Hz).
pub const TA_CYCLES: u64 = 177;
/// CPU cycles per time-base tick (~185 Hz).
pub const TB_CYCLES: u64 = 27675;
/// CPU cycles per RTC tick (256 Hz).
pub const RTC_CYCLES: u64 = 20000;

/// Bank window targets.
#[derive(Clone, Copy, PartialEq, Eq, Structural)]
pub enum BankTarget {
    Nor(usize),
    ExtRam,
}

/// Resolved memory target.
#[derive(Clone, Copy, PartialEq, Eq, Structural)]
pub enum MemTarget {
    Io(usize),
    Ram(usize),
    RamB(usize),
    ExtRam(usize),
    Nor(usize),
}

/// NC2000 machine.
pub struct Nc2000Machine {
    pub io: [u8; 0x40],
    pub ext_reg: [u8; 256],
    pub ram: Vec<u8>,
    pub ext_ram: Vec<u8>,
    pub ram_b: [u8; 0x2000],
    pub ram_b2: [u8; 0x2000],
    pub nor: Vec<u8>,
    pub nand: Vec<u8>,
    pub nor_info_block: [u8; 0x100],
    /// NOR state
    pub fp_step: u8,
    pub fp_type: NorCmd,
    /// NAND controller
    pub nand_ctl: NandCtl,
    /// Keypad matrix, `row * 8 + col`
    pub keypad_matrix: [bool; 64],
    pub w08_port0_ol: u8,
    pub r08_port0_id: u8,
    pub w09_port1_ol: u8,
    pub r09_port1_id: u8,
    pub w15_port1_dir: u8,
    pub w04_b46_ptype: u8,
    pub rw0f_b4_dir00: bool,
    pub rw0f_b5_dir01: bool,
    pub rw0f_b6_dir023: bool,
    pub rw0f_b7_dir047: bool,
    /// Timers
    pub timer0run: bool,
    pub timer1run: bool,
    pub timer0ticks: u32,
    pub timer1ticks: u32,
    pub w0c_b67_tmodesl: u8,
    pub w0c_b45_tm0s: u8,
    pub w0c_b23_tm1s: u8,
    pub w0c_b345_tms: u8,
    pub tma_value: u32,
    pub tma_reload: u32,
    pub inner_interrupt_control: u8,
    /// DSP
    pub dsp: Dsp,
    /// LCD
    pub lcd: Lcd,
    pub lcd_buff_addr: u16,
    pub lcd_buff_addr_mask: u16,
    /// RTC / interrupt vectors
    pub rtc_256_counter: u8,
    pub iv_queue: Vec<u8>,
    pub tb_cycles: u64,
    pub rtc_cycles: u64,
    pub do_warm_reset: bool,
    pub audio: Audio,
    pub cycles: u64,
}

/// NAND controller registers: pending commands, address bytes, data bytes
/// and the sequential read counter.
pub struct NandCtl {
    pub cmd: Vec<u8>,
    pub addr: Vec<u8>,
    pub data: Vec<u8>,
    pub read_cnt: usize,
}

/// DSP (sound processor) interface state.
#[derive(Clone, Copy, PartialEq, Eq, Structural)]
pub struct Dsp {
    /// Pending return value (-1: none)
    pub ret_data: i32,
    pub sleep: bool,
    /// Transparent data transfer mode (command 0x7004)
    pub trans: bool,
    /// Low byte of the next command
    pub data_low: u8,
    /// Command 0xD0 (status) seen
    pub cmd_d0: bool,
    /// Commands 0x7001/0x7002 seen
    pub cmd_7001: bool,
    pub data_feeded: bool,
}

/// Bank window base of bank `bank`: NOR pages 0x00-0x0F, extended RAM from
/// 0x80, nothing in between.
pub open spec fn bank_spec(bank: u8) -> Option<BankTarget> {
    if bank < 16 {
        Some(BankTarget::Nor((bank * 0x8000) as usize))
    } else if bank >= 0x80 {
        Some(BankTarget::ExtRam)
    } else {
        None
    }
}

/// NOR target of BBS page `idx` at `page_off`: NOR page `idx / 4` at
/// {+0x4000, +0x6000, +0x0000, +0x2000}.
pub open spec fn bbs_target_spec(idx: int, page_off: int) -> Option<MemTarget> {
    let q = idx % 4;
    let off: int = if q == 0 { 0x4000 } else if q == 1 { 0x6000 } else if q == 2 { 0 } else { 0x2000 };
    if idx / 4 >= 16 {
        None
    } else {
        Some(MemTarget::Nor(((idx / 4) * 0x8000 + off + page_off) as usize))
    }
}

/// Target of CPU address `addr` for the registers `io`.
pub open spec fn map_spec(io: Seq<u8>, addr: u16) -> Option<MemTarget> {
    let page_off = (addr & 0x1FFF) as int;
    if addr < 0x40 {
        Some(MemTarget::Io(addr as usize))
    } else if addr < 0x2000 {
        Some(MemTarget::Ram(addr as usize))
    } else if addr < 0x4000 {
        if io[0x0D] & 0x04 != 0 {
            Some(MemTarget::RamB(page_off as usize))
        } else {
            Some(MemTarget::Ram((0x2000 + page_off) as usize))
        }
    } else if addr < 0xC000 {
        let bank_off: int = if addr < 0x6000 {
            0x4000
        } else if addr < 0x8000 {
            0x6000
        } else if addr < 0xA000 {
            0
        } else {
            0x2000
        };
        match bank_spec(io[0x00]) {
            Some(BankTarget::Nor(base)) => Some(MemTarget::Nor((base + bank_off + page_off) as usize)),
            Some(BankTarget::ExtRam) => Some(MemTarget::ExtRam((bank_off + page_off) as usize)),
            None => None,
        }
    } else if addr < 0xE000 {
        let bbs_idx = (io[0x0A] & 0x0F) as int;
        if bbs_idx == 1 {
            Some(MemTarget::Ram((0x4000 + page_off) as usize))
        } else {
            bbs_target_spec(bbs_idx, page_off)
        }
    } else {
        Some(MemTarget::Nor((0x6000 + page_off) as usize))
    }
}

/// NAND controller state (commands, address bytes, data bytes, read
/// counter) together with the NAND contents.
pub struct NandState {
    pub cmd: Seq<u8>,
    pub addr: Seq<u8>,
    pub data: Seq<u8>,
    pub cnt: int,
    pub nand: Seq<u8>,
}

/// The controller with no command pending.
pub open spec fn nand_cleared(s: NandState) -> NandState {
    NandState { cmd: Seq::empty(), addr: Seq::empty(), data: Seq::empty(), cnt: 0, ..s }
}

/// NAND page selected by a four-byte program/read address.
pub open spec fn nand_page4(a: Seq<u8>) -> int {
    (a[3] & 0x01) * 65536 + a[2] * 256 + a[1]
}

/// `nand` with `data` ANDed in at `off` (bytes past the end dropped).
pub open spec fn nand_and(nand: Seq<u8>, off: int, data: Seq<u8>) -> Seq<u8> {
    Seq::new(nand.len(), |k: int| if off <= k < off + data.len() { nand[k] & data[k - off] } else { nand[k] })
}

/// Effect of the program confirm command: an 0x80 program with four
/// address bytes writes a full 528-byte page (after command 0x00) or the
/// 16 spare bytes (after command 0x50); programming only clears bits.
pub open spec fn nand_program_spec(s: NandState) -> Seq<u8> {
    if s.cmd.len() < 2 || s.addr.len() != 4 {
        s.nand
    } else {
        let page = nand_page4(s.addr);
        let low = s.addr[0] as int;
        if s.cmd[0] == 0x50 {
            if s.data.len() == 16 { nand_and(s.nand, page * 528 + low + 512, s.data) } else { s.nand }
        } else if s.cmd[0] == 0x00 && s.data.len() == 528 {
            nand_and(s.nand, page * 528 + low, s.data)
        } else {
            s.nand
        }
    }
}

/// Effect of a write of `value` to the NAND data register while port 4
/// holds `p4` (bit 0 CLE, bit 1 ALE).
pub open spec fn nand_write_spec(s: NandState, p4: u8, value: u8) -> NandState {
    let cle = p4 & 0x01 != 0;
    let ale = p4 & 0x02 != 0;
    if cle && ale {
        s
    } else if cle {
        if value == 0xFF {
            nand_cleared(s)
        } else if value == 0x00 || value == 0x01 || value == 0x50 || value == 0x60 || value == 0x70 || value == 0x90 {
            NandState { cmd: seq![value], ..nand_cleared(s) }
        } else if value == 0x10 {
            NandState { nand: nand_program_spec(s), ..nand_cleared(s) }
        } else if value == 0xD0 && s.cmd.len() == 1 && s.cmd[0] == 0x60 && s.addr.len() == 3 {
            let page = (s.addr[2] & 0x01) * 65536 + s.addr[1] * 256 + s.addr[0];
            let off = page * 528;
            let nand2 = if off + 32 * 528 <= s.nand.len() { splice(s.nand, off, run(32 * 528, 0xFF)) } else { s.nand };
            NandState { nand: nand2, ..nand_cleared(s) }
        } else if value == 0x80 && s.cmd.len() > 0 {
            NandState { cmd: s.cmd.push(value), ..s }
        } else {
            s
        }
    } else if ale {
        if s.cmd.len() > 0 { NandState { addr: s.addr.push(value), ..s } } else { s }
    } else if s.cmd.len() > 0 {
        NandState { data: s.data.push(value), ..s }
    } else {
        s
    }
}

/// Effect and value of a read of the NAND data register: status (0x40)
/// after command 0x70, the ID bytes 0xEC 0x75 after command 0x90 at
/// address 0, sequential page bytes after a read command (0x00 main,
/// 0x01 second half, 0x50 spare) with four address bytes, else 0xFF.
pub open spec fn nand_read_spec(s: NandState) -> (NandState, u8) {
    if s.cmd.len() == 1 && s.cmd[0] == 0x70 {
        (nand_cleared(s), 0x40)
    } else if s.cmd.len() == 1 && s.cmd[0] == 0x90 && s.addr.len() == 1 && s.addr[0] == 0 {
        if s.cnt == 0 {
            (NandState { cnt: 1, ..s }, 0xEC)
        } else if s.cnt == 1 {
            (nand_cleared(s), 0x75)
        } else {
            (s, 0)
        }
    } else if s.cmd.len() == 1 && (s.cmd[0] == 0x00 || s.cmd[0] == 0x01 || s.cmd[0] == 0x50) && s.addr.len() == 4 {
        let col = s.addr[0] + if s.cmd[0] == 0x01 { 256int } else if s.cmd[0] == 0x50 { 512int } else { 0int };
        let idx = nand_page4(s.addr) * 528 + col + s.cnt;
        (
            NandState { cnt: if s.cnt < usize::MAX { s.cnt + 1 } else { s.cnt }, ..s },
            if idx < s.nand.len() { s.nand[idx] } else { 0xFF },
        )
    } else {
        (s, 0xFF)
    }
}

impl Nc2000Machine {
    /// Buffer sizes and register ranges.
    pub open spec fn wf(&self) -> bool {
        &&& self.ram@.len() == 0x1_0000
        &&& self.ext_ram@.len() == 0x8000
        &&& self.nor@.len() == NOR_SIZE
        &&& self.nand@.len() == NAND_SIZE
        &&& self.lcd.wf()
        &&& self.audio.wf()
        &&& self.tma_value < 0x10000
        &&& self.tma_reload < 0x10000
        &&& self.w0c_b45_tm0s <= 3
        &&& self.w0c_b23_tm1s <= 3
        &&& self.w0c_b345_tms <= 7
        &&& self.tb_cycles < TB_CYCLES
        &&& self.rtc_cycles < RTC_CYCLES
        &&& self.lcd_buff_addr_mask <= 0x3FFF
    }

    /// Current NOR command state.
    pub open spec fn nor_state(&self) -> NorState {
        NorState { step: self.fp_step, cmd: self.fp_type, nor: self.nor@, info: self.nor_info_block@, dirty: false }
    }

    /// Current NAND controller state.
    pub open spec fn nand_state(&self) -> NandState {
        self.nand_ctl.state(self.nand@)
    }

    /// Byte a debugger read of `addr` sees.
    pub open spec fn peek_spec(&self, addr: u16) -> u8 {
        match map_spec(self.io@, addr) {
            Some(MemTarget::Io(i)) => self.io@[i as int],
            Some(MemTarget::Ram(o)) => self.ram@[o as int],
            Some(MemTarget::RamB(o)) => self.ram_b@[o as int],
            Some(MemTarget::ExtRam(o)) => self.ext_ram@[o as int],
            Some(MemTarget::Nor(o)) => nor_read_spec(self.fp_step, self.fp_type, self.nor@, self.nor_info_block@, addr, o, true),
            None => 0,
        }
    }

    /// Bank window base for a bank index.
    pub fn get_bank(&self, bank_idx: u8) -> (r: Option<BankTarget>)
        ensures
            r == bank_spec(bank_idx),
    {
        if (bank_idx as usize) < NUM_NOR_PAGES {
            Some(BankTarget::Nor(bank_idx as usize * NOR_PAGE_SIZE))
        } else if bank_idx >= 0x80 {
            Some(BankTarget::ExtRam)
        } else {
            None
        }
    }

    /// NOR target of BBS page `idx`.
    pub fn bbs_page_target(&self, idx: usize, page_off: usize) -> (r: Option<MemTarget>)
        requires
            page_off < 0x2000,
        ensures
            r == bbs_target_spec(idx as int, page_off as int),
    {
        let nor_page = idx / 4;
        let sub = idx % 4;
        if nor_page >= NUM_NOR_PAGES {
            return None;
        }
        let base = nor_page * NOR_PAGE_SIZE;
        let off: usize = if sub == 0 {
            0x4000
        } else if sub == 1 {
            0x6000
        } else if sub == 2 {
            0x0000
        } else {
            0x2000
        };
        Some(MemTarget::Nor(base + off + page_off))
    }

    /// Resolve a CPU address to a memory target.
    pub fn map_read(&self, addr: u16) -> (r: Option<MemTarget>)
        ensures
            r == map_spec(self.io@, addr),
            r matches Some(t) ==> match t {
                MemTarget::Io(i) => i < 0x40,
                MemTarget::Ram(o) => o < 0x6000,
                MemTarget::RamB(o) => o < 0x2000,
                MemTarget::ExtRam(o) => o < 0x8000,
                MemTarget::Nor(o) => o < NOR_SIZE,
            },
    {
        let page_off = (addr & 0x1FFF) as usize;
        proof {
            lemma_addr_fields(addr);
            lemma_addr_fields(addr);
        }
        if (addr as usize) < 0x40 {
            return Some(MemTarget::Io(addr as usize));
        }
        if addr < 0x2000 {
            return Some(MemTarget::Ram(addr as usize));
        }
        if addr < 0x4000 {
            return if self.io[0x0D] & 0x04 != 0 {
                Some(MemTarget::RamB(page_off))
            } else {
                Some(MemTarget::Ram(0x2000 + page_off))
            };
        }
        if addr < 0xC000 {
            let bank_off: usize = if addr < 0x6000 {
                0x4000
            } else if addr < 0x8000 {
                0x6000
            } else if addr < 0xA000 {
                0x0000
            } else {
                0x2000
            };
            return match self.get_bank(self.io[0x00]) {
                Some(BankTarget::Nor(base)) => Some(MemTarget::Nor(base + bank_off + page_off)),
                Some(BankTarget::ExtRam) => Some(MemTarget::ExtRam(bank_off + page_off)),
                None => None,
            };
        }
        if addr < 0xE000 {
            let bbs_idx = (self.io[0x0A] & 0x0F) as usize;
            proof {
                let ra = self.io@[0x0A];
                lemma_byte_fields(ra);
            }
            if bbs_idx == 1 {
                return Some(MemTarget::Ram(0x4000 + page_off));
            }
            return self.bbs_page_target(bbs_idx, page_off);
        }
        Some(MemTarget::Nor(0x6000 + page_off))
    }

    /// Read a memory/IO address for debugging (no side effects).
    pub fn peek(&self, addr: u16) -> (r: u8)
        requires
            self.wf(),
        ensures
            r == self.peek_spec(addr),
    {
        match self.map_read(addr) {
            Some(MemTarget::Io(i)) => self.io[i],
            Some(MemTarget::Ram(o)) => self.ram[o],
            Some(MemTarget::RamB(o)) => self.ram_b[o],
            Some(MemTarget::ExtRam(o)) => self.ext_ram[o],
            Some(MemTarget::Nor(o)) => nor_read(self.fp_step, self.fp_type, &self.nor, &self.nor_info_block, addr, o, true),
            None => 0,
        }
    }

    /// Read a little-endian 16-bit word for debugging.
    pub fn peek_u16(&self, addr: u16) -> (r: u16)
        requires
            self.wf(),
        ensures
            r == self.peek_spec(addr) as u16 + 256 * self.peek_spec(addr.wrapping_add(1)) as u16,
    {
        let lo = self.peek(addr) as u16;
        let hi = self.peek(addr.wrapping_add(1)) as u16;
        proof {
            lemma_word_halves(lo, hi);
        }
        (hi << 8) | lo
    }

    /// Drop any pending NAND command, address and data.
    pub fn clear_nand_status(&mut self)
        ensures
            final(self).nand_state() == nand_cleared(old(self).nand_state()),
            *final(self) == (Nc2000Machine { nand_ctl: final(self).nand_ctl, ..*old(self) }),
    {
        self.nand_ctl.clear();
    }

    /// NAND command sequence state machine (write side).
    pub fn nand_write(&mut self, value: u8)
        requires
            old(self).wf(),
        ensures
            final(self).wf(),
            final(self).nand_state() == nand_write_spec(old(self).nand_state(), old(self).io@[0x18], value),
            *final(self) == (Nc2000Machine { nand: final(self).nand, nand_ctl: final(self).nand_ctl, ..*old(self) }),
    {
        let p4 = self.io[0x18];
        self.nand_ctl.write(&mut self.nand, p4, value);
    }

    /// NAND read side (see [`nand_read_spec`]).
    pub fn nand_read(&mut self) -> (r: u8)
        requires
            old(self).wf(),
        ensures
            final(self).wf(),
            (final(self).nand_state(), r) == nand_read_spec(old(self).nand_state()),
            *final(self) == (Nc2000Machine { nand_ctl: final(self).nand_ctl, ..*old(self) }),
    {
        self.nand_ctl.read(&self.nand)
    }

}

impl NandCtl {
    /// The controller state with the NAND contents `nand`.
    pub open spec fn state(&self, nand: Seq<u8>) -> NandState {
        NandState { cmd: self.cmd@, addr: self.addr@, data: self.data@, cnt: self.read_cnt as int, nand }
    }

    /// A controller with nothing pending.
    pub fn new() -> (r: Self)
        ensures
            r.cmd@.len() == 0 && r.addr@.len() == 0 && r.data@.len() == 0 && r.read_cnt == 0,
    {
        NandCtl { cmd: Vec::new(), addr: Vec::new(), data: Vec::new(), read_cnt: 0 }
    }

    /// Drop any pending command, address and data.
    pub fn clear(&mut self)
        ensures
            final(self).cmd@ == Seq::<u8>::empty(),
            final(self).addr@ == Seq::<u8>::empty(),
            final(self).data@ == Seq::<u8>::empty(),
            final(self).read_cnt == 0,
            forall|n: Seq<u8>| #[trigger] final(self).state(n) == nand_cleared(old(self).state(n)),
    {
        self.cmd.clear();
        self.addr.clear();
        self.data.clear();
        self.read_cnt = 0;
        proof {
            assert(self.cmd@ =~= Seq::<u8>::empty());
            assert(self.addr@ =~= Seq::<u8>::empty());
            assert(self.data@ =~= Seq::<u8>::empty());
        }
    }

    /// AND the pending data into `nand` at `off` (bytes past the end are
    /// dropped).
    fn program_at(&self, nand: &mut Vec<u8>, off: usize)
        requires
            old(nand)@.len() == NAND_SIZE,
        ensures
            final(nand)@ == nand_and(old(nand)@, off as int, self.data@),
    {
        let n = self.data.len();
        let nl = nand.len();
        let mut i: usize = 0;
        while i < n
            invariant
                i <= n,
                n == self.data@.len(),
                nl == nand@.len(),
                nl == NAND_SIZE,
                forall|k: int|
                    0 <= k < nl ==> #[trigger] nand@[k] == if off <= k < off + i {
                        old(nand)@[k] & self.data@[k - off]
                    } else {
                        old(nand)@[k]
                    },
            decreases n - i,
        {
            if off < nl && i < nl - off {
                let idx = off + i;
                let b = nand[idx];
                nand[idx] = b & self.data[i];
            }
            i += 1;
        }
        proof {
            assert(nand@ =~= nand_and(old(nand)@, off as int, self.data@));
        }
    }

    /// Program a page or its spare area (see [`nand_program_spec`]).
    fn program(&self, nand: &mut Vec<u8>)
        requires
            old(nand)@.len() == NAND_SIZE,
        ensures
            final(nand)@ == nand_program_spec(self.state(old(nand)@)),
    {
        if self.cmd.len() < 2 || self.addr.len() != 4 {
            return;
        }
        let low = self.addr[0] as usize;
        let mid = self.addr[1] as usize;
        let high = self.addr[2] as usize;
        let a25 = (self.addr[3] & 0x01) as usize;
        proof {
            let a3 = self.addr@[3];
            lemma_byte_fields(a3);
        }
        let page = a25 * 65536 + high * 256 + mid;
        if self.cmd[0] == 0x50 {
            if self.data.len() == 16 {
                self.program_at(nand, page * NAND_PAGE_SIZE + low + 512);
            }
        } else if self.cmd[0] == 0x00 && self.data.len() == NAND_PAGE_SIZE {
            self.program_at(nand, page * NAND_PAGE_SIZE + low);
        }
    }

    /// Command sequence state machine (write side) with port 4 `p4`.
    pub fn write(&mut self, nand: &mut Vec<u8>, p4: u8, value: u8)
        requires
            old(nand)@.len() == NAND_SIZE,
        ensures
            final(nand)@.len() == NAND_SIZE,
            final(self).state(final(nand)@) == nand_write_spec(old(self).state(old(nand)@), p4, value),
    {
        let cle = p4 & 0x01 != 0;
        let ale = p4 & 0x02 != 0;
        if cle && ale {
            return;
        }
        if cle {
            if value == 0xFF {
                self.clear();
            } else if value == 0x00 || value == 0x01 || value == 0x50 || value == 0x60 || value == 0x70 || value
                == 0x90 {
                self.clear();
                self.cmd.push(value);
                proof {
                    assert(self.cmd@ =~= seq![value]);
                }
            } else if value == 0x10 {
                self.program(nand);
                self.clear();
            } else if value == 0xD0 && self.cmd.len() == 1 && self.cmd[0] == 0x60 && self.addr.len() == 3 {
                let low = self.addr[0] as usize;
                let mid = self.addr[1] as usize;
                let high = (self.addr[2] & 0x01) as usize;
                proof {
                    let a2 = self.addr@[2];
                    lemma_byte_fields(a2);
                }
                let page = high * 65536 + mid * 256 + low;
                let final_off = page * NAND_PAGE_SIZE;
                if final_off + 32 * NAND_PAGE_SIZE <= nand.len() {
                    fill_range(nand, final_off, 32 * NAND_PAGE_SIZE, 0xFF);
                }
                self.clear();
            } else if value == 0x80 && self.cmd.len() > 0 {
                self.cmd.push(value);
            }
            return;
        }
        if ale {
            if self.cmd.len() > 0 {
                self.addr.push(value);
            }
            return;
        }
        if self.cmd.len() > 0 {
            self.data.push(value);
        }
    }

    /// Read side (see [`nand_read_spec`]).
    pub fn read(&mut self, nand: &Vec<u8>) -> (r: u8)
        ensures
            (final(self).state(nand@), r) == nand_read_spec(old(self).state(nand@)),
    {
        if self.cmd.len() == 1 && self.cmd[0] == 0x70 {
            self.clear();
            return 0x40;
        }
        if self.cmd.len() == 1 && self.cmd[0] == 0x90 && self.addr.len() == 1 && self.addr[0] == 0x00 {
            if self.read_cnt == 0 {
                self.read_cnt = 1;
                return 0xEC;
            }
            if self.read_cnt == 1 {
                self.clear();
                return 0x75;
            }
            return 0;
        }
        if self.cmd.len() == 1 && (self.cmd[0] == 0x00 || self.cmd[0] == 0x01 || self.cmd[0] == 0x50)
            && self.addr.len() == 4 {
            let low = self.addr[0] as usize;
            let mid = self.addr[1] as usize;
            let high = self.addr[2] as usize;
            let a25 = (self.addr[3] & 0x01) as usize;
            proof {
                let a3 = self.addr@[3];
                lemma_byte_fields(a3);
            }
            let page = a25 * 65536 + high * 256 + mid;
            let col = if self.cmd[0] == 0x01 {
                low + 256
            } else if self.cmd[0] == 0x50 {
                low + 512
            } else {
                low
            };
            let cnt = self.read_cnt;
            if cnt < usize::MAX {
                self.read_cnt = cnt + 1;
            }
            let base = page * NAND_PAGE_SIZE + col;
            return if cnt < nand.len() && base < nand.len() - cnt {
                nand[base + cnt]
            } else {
                0xFF
            };
        }
        0xFF
    }
}

/// DSP state after command byte `value` (with the stored low byte).
pub open spec fn dsp_cmd_spec(d: Dsp, value: u8) -> Dsp {
    let low = d.data_low;
    let cmd = (value as u16) * 256 + low as u16;
    let d1 = Dsp {
        trans: if cmd == 0xFFFF { false } else { d.trans },
        sleep: if cmd == 0x8000 { true } else { d.sleep },
        ..d
    };
    if d1.trans {
        Dsp { ret_data: low as i32, ..d1 }
    } else {
        let d2 = if value == 0xD0 {
            Dsp { ret_data: 0x5A, cmd_d0: true, ..d1 }
        } else if value > 0x60 {
            Dsp { cmd_d0: false, ..d1 }
        } else {
            d1
        };
        let d3 = if value == 0x70 {
            if low == 0x01 || low == 0x02 {
                Dsp { cmd_7001: true, ret_data: 0x06, ..d2 }
            } else {
                Dsp { cmd_7001: false, ..d2 }
            }
        } else if value >= 0x60 {
            Dsp { cmd_7001: false, ..d2 }
        } else {
            d2
        };
        Dsp { trans: d3.trans || cmd == 0x7004, data_feeded: true, ..d3 }
    }
}

/// DSP status register: bit 7 asleep, bits 4-5 busy consuming data,
/// bit 6 a reply ready.
pub open spec fn dsp_stat_spec(d: Dsp) -> u8 {
    (if d.sleep { 0x80u8 } else { 0u8 }) | (if !d.sleep && d.data_feeded { 0x30u8 } else { 0u8 }) | (if d.cmd_d0
        || d.cmd_7001 || (d.trans && d.ret_data != -1) {
        0x40u8
    } else {
        0u8
    })
}

/// DSP state after a write to the status register: bits 6-7 wake it,
/// bit 6 also resets the command state.
pub open spec fn dsp_control_spec(d: Dsp, value: u8) -> Dsp {
    let d1 = if value & 0xC0 != 0 { Dsp { sleep: false, ..d } } else { d };
    if value & 0x40 != 0 {
        Dsp { ret_data: -1i32, data_feeded: false, trans: false, cmd_7001: false, cmd_d0: false, ..d1 }
    } else {
        d1
    }
}

impl Dsp {
    /// An idle DSP with no reply pending.
    pub fn new() -> (r: Self)
        ensures
            r == (Dsp {
                ret_data: -1i32,
                sleep: false,
                trans: false,
                data_low: 0,
                cmd_d0: false,
                cmd_7001: false,
                data_feeded: false,
            }),
    {
        Dsp {
            ret_data: -1,
            sleep: false,
            trans: false,
            data_low: 0,
            cmd_d0: false,
            cmd_7001: false,
            data_feeded: false,
        }
    }

    /// Command register write.
    pub fn cmd(&mut self, value: u8)
        ensures
            *final(self) == dsp_cmd_spec(*old(self), value),
    {
        let low = self.data_low;
        let cmd = ((value as u16) << 8) | low as u16;
        proof {
            lemma_byte_pair(value, low);
        }
        if cmd == 0xFFFF {
            self.trans = false;
        }
        if cmd == 0x8000 {
            self.sleep = true;
        }
        if self.trans {
            self.ret_data = low as i32;
            return;
        }
        if value == 0xD0 {
            self.ret_data = 0x5A;
            self.cmd_d0 = true;
        } else if value > 0x60 {
            self.cmd_d0 = false;
        }
        if value == 0x70 {
            if low == 0x01 || low == 0x02 {
                self.cmd_7001 = true;
                self.ret_data = 0x06;
            } else {
                self.cmd_7001 = false;
            }
        } else if value >= 0x60 {
            self.cmd_7001 = false;
        }
        if cmd == 0x7004 {
            self.trans = true;
        }
        self.data_feeded = true;
    }

    /// Status register read.
    pub fn stat(&self) -> (r: u8)
        ensures
            r == dsp_stat_spec(*self),
    {
        let a: u8 = if self.sleep { 0x80 } else { 0 };
        let b: u8 = if !self.sleep && self.data_feeded { 0x30 } else { 0 };
        let c: u8 = if self.cmd_d0 || self.cmd_7001 || (self.trans && self.ret_data != -1) { 0x40 } else { 0 };
        a | b | c
    }

    /// Status register write.
    pub fn control(&mut self, value: u8)
        ensures
            *final(self) == dsp_control_spec(*old(self), value),
    {
        if value & 0xC0 != 0 {
            self.sleep = false;
        }
        if value & 0x40 != 0 {
            self.ret_data = -1;
            self.data_feeded = false;
            self.trans = false;
            self.cmd_7001 = false;
            self.cmd_d0 = false;
        }
    }

    /// Return-data register read: the pending reply (0xFF when none),
    /// which is then consumed.
    pub fn read_ret(&mut self) -> (r: u8)
        ensures
            r == if old(self).ret_data == -1 { 0xFFu8 } else { old(self).ret_data as u8 },
            *final(self) == (Dsp { ret_data: -1i32, ..*old(self) }),
    {
        if self.ret_data == -1 {
            0xFF
        } else {
            let ret = self.ret_data as u8;
            self.ret_data = -1;
            ret
        }
    }
}

/// Whether the interrupt-clear write `value` keeps the queued vector `iv`:
/// bit 0 clears vector 0 (timer), bit 1 vector 2 (alarm), bit 2 vector 1.
pub open spec fn iv_kept(iv: u8, value: u8) -> bool {
    (value & 0x01) == 0 || (iv != 0x00 && (value & 0x02) == 0) || (iv != 0x02 && (value & 0x04) == 0) || iv != 0x01
}

/// The queued vectors kept by the interrupt-clear write `value`, in order.
pub open spec fn keep_ivs(q: Seq<u8>, value: u8) -> Seq<u8>
    decreases q.len(),
{
    if q.len() == 0 {
        Seq::empty()
    } else {
        let r = keep_ivs(q.drop_last(), value);
        if iv_kept(q.last(), value) { r.push(q.last()) } else { r }
    }
}

/// Extended registers and interrupt queue after a write of `value` to the
/// extended register `idx`: the RTC control is stored, the interrupt clear
/// drops the vectors it clears and keeps its high five bits, the time
/// registers (0-6) are writable unless bit 7 of the interrupt clear
/// register halts them, and the others are stored.
pub open spec fn ext_write_spec(ext: Seq<u8>, q: Seq<u8>, idx: u8, value: u8) -> (Seq<u8>, Seq<u8>) {
    if idx as int == EXT_RTC_CTRL {
        (ext.update(idx as int, value), q)
    } else if idx as int == EXT_INT_CLEAR {
        (ext.update(idx as int, value & 0xF8), keep_ivs(q, value))
    } else if idx < 7 {
        (if ext[EXT_INT_CLEAR as int] & 0x80 == 0 { ext.update(idx as int, value) } else { ext }, q)
    } else {
        (ext.update(idx as int, value), q)
    }
}

/// Port-0 direction bits as a register value (bits 4-7).
pub open spec fn p0_dir(b4: bool, b5: bool, b6: bool, b7: bool) -> u8 {
    (if b4 { 0x10u8 } else { 0u8 }) | (if b5 { 0x20u8 } else { 0u8 }) | (if b6 { 0x40u8 } else { 0u8 }) | (if b7 {
        0x80u8
    } else {
        0u8
    })
}

/// Effect of matrix position (`y`, `x`) on the conducted port-0 and
/// port-1 bits `d`.
pub open spec fn nc_key_step(d: (u8, u8), key: bool, y: int, x: int, p1c: u8, p0c: u8, w09: u8, w08: u8, pu: u8) -> (
    u8,
    u8,
) {
    let ybit = 1u8 << (y as u8);
    let xbit = 1u8 << (x as u8);
    let ysend = p1c & ybit != 0;
    let p0cb: u8 = if x < 2 { xbit << 4u8 } else if x < 4 { 0x40 } else { 0x80 };
    let xsend = p0c & p0cb != 0;
    if ysend == xsend || !key {
        d
    } else if ysend {
        if w09 & ybit != 0 {
            (d.0 | xbit, d.1)
        } else if xbit & 0x0F != 0 && pu & xbit == 0 {
            (d.0 & !xbit, d.1)
        } else {
            d
        }
    } else if w08 & xbit != 0 {
        (d.0, d.1 | ybit)
    } else {
        d
    }
}

/// Conducted bits after the first `n` matrix positions, starting from the
/// pulled-up port-0 inputs.
pub open spec fn nc_key_fold(m: Seq<bool>, n: nat, p1c: u8, p0c: u8, w09: u8, w08: u8, pu: u8) -> (u8, u8)
    decreases n,
{
    if n == 0 {
        ((!pu) & 0x0F, 0u8)
    } else {
        let k = n - 1;
        nc_key_step(nc_key_fold(m, (n - 1) as nat, p1c, p0c, w09, w08, pu), m[k], k / 8, k % 8, p1c, p0c, w09, w08, pu)
    }
}

/// Port 0 and port 1 input registers after a keypad rescan.
pub open spec fn nc_keypad(m: Seq<bool>, p1c: u8, p0c: u8, w09: u8, w08: u8, pu: u8, r08: u8, r09: u8) -> (u8, u8) {
    let (d0, d1) = nc_key_fold(m, 64, p1c, p0c, w09, w08, pu);
    let mask = ((p0c >> 4u8) & 0x03) | (if p0c & 0x40 != 0 { 0x0Cu8 } else { 0u8 }) | (if p0c & 0x80 != 0 {
        0xF0u8
    } else {
        0u8
    });
    let p1 = (if p1c != 0xFF { r09 & p1c } else { r09 }) | d1;
    let p0 = (if p0c != 0xF0 { r08 & mask } else { r08 }) | d0;
    (p0, p1)
}

/// IO registers after a write of `value` to register `addr`.
pub open spec fn nc_io_regs(io: Seq<u8>, addr: u8, value: u8) -> Seq<u8> {
    if addr == 0x01 || addr == 0x08 || addr == 0x09 || addr == 0x10 || addr == 0x11 || addr == 0x15 || addr == 0x29
        || addr == 0x30 || addr == 0x32 || addr == 0x33 {
        io
    } else if addr == 0x0B {
        io.update(0x0B, (value & 0xFE) | (io[0x0B] & 0x01))
    } else if addr == 0x1A {
        io.update(0x1A, value & 0x7F)
    } else {
        io.update(addr as int, value)
    }
}

impl Nc2000Machine {
    /// Keypad input registers after a rescan of the current state.
    pub open spec fn keypad_spec(&self) -> (u8, u8) {
        nc_keypad(
            self.keypad_matrix@,
            self.w15_port1_dir,
            p0_dir(self.rw0f_b4_dir00, self.rw0f_b5_dir01, self.rw0f_b6_dir023, self.rw0f_b7_dir047),
            self.w09_port1_ol,
            self.w08_port0_ol,
            self.ext_reg@[EXT_P0_PU as int],
            self.r08_port0_id,
            self.r09_port1_id,
        )
    }

    /// Recompute the port 0/1 input registers from the keypad matrix.
    pub fn update_keypad_registers(&mut self)
        ensures
            (final(self).r08_port0_id, final(self).r09_port1_id) == old(self).keypad_spec(),
            *final(self) == (Nc2000Machine {
                r08_port0_id: final(self).r08_port0_id,
                r09_port1_id: final(self).r09_port1_id,
                ..*old(self)
            }),
    {
        let port1_control = self.w15_port1_dir;
        let port0_control = (if self.rw0f_b4_dir00 { 0x10u8 } else { 0u8 }) | (if self.rw0f_b5_dir01 {
            0x20u8
        } else {
            0u8
        }) | (if self.rw0f_b6_dir023 { 0x40u8 } else { 0u8 }) | (if self.rw0f_b7_dir047 { 0x80u8 } else { 0u8 });
        let pu = self.ext_reg[EXT_P0_PU];
        let w09 = self.w09_port1_ol;
        let w08 = self.w08_port0_ol;
        let mut d0: u8 = (!pu) & 0x0F;
        let mut d1: u8 = 0;
        let mut k: usize = 0;
        while k < 64
            invariant
                k <= 64,
                (d0, d1) == nc_key_fold(self.keypad_matrix@, k as nat, port1_control, port0_control, w09, w08, pu),
            decreases 64 - k,
        {
            let y = k / 8;
            let x = k % 8;
            let ybit = 1u8 << (y as u8);
            let xbit = 1u8 << (x as u8);
            let ysend = port1_control & ybit != 0;
            let p0cb: u8 = if x < 2 { xbit << 4u8 } else if x < 4 { 0x40 } else { 0x80 };
            let xsend = port0_control & p0cb != 0;
            let key = self.keypad_matrix[k];
            if ysend == xsend || !key {
            } else if ysend {
                if w09 & ybit != 0 {
                    d0 = d0 | xbit;
                } else if xbit & 0x0F != 0 && pu & xbit == 0 {
                    d0 = d0 & !xbit;
                }
            } else if w08 & xbit != 0 {
                d1 = d1 | ybit;
            }
            k += 1;
        }
        let mask = ((port0_control >> 4) & 0x03) | (if port0_control & 0x40 != 0 { 0x0Cu8 } else { 0u8 }) | (
        if port0_control & 0x80 != 0 {
            0xF0u8
        } else {
            0u8
        });
        let p1 = (if port1_control != 0xFF { self.r09_port1_id & port1_control } else { self.r09_port1_id }) | d1;
        let p0 = (if port0_control != 0xF0 { self.r08_port0_id & mask } else { self.r08_port0_id }) | d0;
        self.r09_port1_id = p1;
        self.r08_port0_id = p0;
    }

    /// What `set_key` does to the machine.
    pub open spec fn set_key_post(&self, after: Self, key_id: u8, pressed: bool) -> bool {
        &&& ({
                let row = key_id >> 3u8;
                let col = key_id & 7;
                let m = if row < 8 {
                    self.keypad_matrix@.update(row * 8 + col, pressed)
                } else {
                    self.keypad_matrix@
                };
                let rescanned = (Nc2000Machine { keypad_matrix: after.keypad_matrix, ..*self }).keypad_spec();
                &&& after.keypad_matrix@ == m
                &&& (after.r08_port0_id, after.r09_port1_id) == if row < 8 {
                    rescanned
                } else {
                    (self.r08_port0_id, self.r09_port1_id)
                }
                &&& after.do_warm_reset == (self.do_warm_reset || (pressed && col < 2 && self.io@[0x05]
                    >> 5u8 == 7))
                &&& after == (Nc2000Machine {
                    keypad_matrix: after.keypad_matrix,
                    r08_port0_id: after.r08_port0_id,
                    r09_port1_id: after.r09_port1_id,
                    do_warm_reset: after.do_warm_reset,
                    ..*self
                })
            })
    }

    /// Set a key (row `key_id >> 3`, column `key_id & 7`; rows past 7 are
    /// ignored) and rescan; a press on columns 0/1 while the clock is off
    /// arms the warm reset.
    pub fn set_key(&mut self, key_id: u8, pressed: bool)
        ensures
            old(self).set_key_post(*final(self), key_id, pressed),
    {
        let row = (key_id >> 3) as usize;
        let col = (key_id & 7) as usize;
        proof {
            lemma_byte_fields(key_id);
        }
        if row < 8 {
            self.keypad_matrix[row * 8 + col] = pressed;
            self.update_keypad_registers();
        }
        if pressed && col < 2 && self.io[0x05] >> 5 == 7 {
            self.do_warm_reset = true;
        }
    }

    /// Port 0 output write: direction-selected bits pass through to the
    /// input register, then the keypad is rescanned.
    fn write_port0(&mut self, value: u8)
        ensures
            ({
                let mask = (if old(self).rw0f_b4_dir00 { 0x01u8 } else { 0u8 }) | (if old(self).rw0f_b5_dir01 {
                    0x02u8
                } else {
                    0u8
                }) | (if old(self).rw0f_b6_dir023 { 0x0Cu8 } else { 0u8 }) | (if old(self).rw0f_b7_dir047 {
                    0xF0u8
                } else {
                    0u8
                });
                let mid = Nc2000Machine {
                    w08_port0_ol: value,
                    r08_port0_id: (old(self).r08_port0_id & !mask) | (value & mask),
                    ..*old(self)
                };
                &&& (final(self).r08_port0_id, final(self).r09_port1_id) == mid.keypad_spec()
                &&& *final(self) == (Nc2000Machine {
                    r08_port0_id: final(self).r08_port0_id,
                    r09_port1_id: final(self).r09_port1_id,
                    ..mid
                })
            }),
    {
        self.w08_port0_ol = value;
        let mask = (if self.rw0f_b4_dir00 { 0x01u8 } else { 0u8 }) | (if self.rw0f_b5_dir01 { 0x02u8 } else {
            0u8
        }) | (if self.rw0f_b6_dir023 { 0x0Cu8 } else { 0u8 }) | (if self.rw0f_b7_dir047 { 0xF0u8 } else { 0u8 });
        self.r08_port0_id = (self.r08_port0_id & !mask) | (value & mask);
        self.update_keypad_registers();
    }

    /// Port 1 output write: with port type 0 or 5 the direction-selected
    /// bits pass through to the input register; then the keypad is
    /// rescanned.
    fn write_port1(&mut self, value: u8)
        ensures
            ({
                let pt = old(self).w04_b46_ptype;
                let dir = old(self).w15_port1_dir;
                let mask = (if pt == 0 { dir & 0x0F } else { 0u8 }) | (dir & 0xF0);
                let data = (if pt == 0 { value & 0x0F } else { 0u8 }) | (value & 0xF0);
                let r09 = if pt == 0 || pt == 5 {
                    (old(self).r09_port1_id & !mask) | data
                } else {
                    old(self).r09_port1_id
                };
                let mid = Nc2000Machine { w09_port1_ol: value, r09_port1_id: r09, ..*old(self) };
                &&& (final(self).r08_port0_id, final(self).r09_port1_id) == mid.keypad_spec()
                &&& *final(self) == (Nc2000Machine {
                    r08_port0_id: final(self).r08_port0_id,
                    r09_port1_id: final(self).r09_port1_id,
                    ..mid
                })
            }),
    {
        self.w09_port1_ol = value;
        let pt = self.w04_b46_ptype;
        if pt == 0 || pt == 5 {
            let dir = self.w15_port1_dir;
            let mask = (if pt == 0 { dir & 0x0F } else { 0u8 }) | (dir & 0xF0);
            let data = (if pt == 0 { value & 0x0F } else { 0u8 }) | (value & 0xF0);
            self.r09_port1_id = (self.r09_port1_id & !mask) | data;
        }
        self.update_keypad_registers();
    }

    /// Extended register data write (register 0x3F, index in 0x3E).
    fn write_ext(&mut self, value: u8)
        ensures
            (final(self).ext_reg@, final(self).iv_queue@) == ext_write_spec(
                old(self).ext_reg@,
                old(self).iv_queue@,
                old(self).io@[0x3E],
                value,
            ),
            *final(self) == (Nc2000Machine { ext_reg: final(self).ext_reg, iv_queue: final(self).iv_queue, ..*old(self) }),
    {
        let idx = self.io[0x3E] as usize;
        if idx == EXT_RTC_CTRL {
            self.ext_reg[idx] = value;
        } else if idx == EXT_INT_CLEAR {
            let mut kept: Vec<u8> = Vec::new();
            let n = self.iv_queue.len();
            let mut i: usize = 0;
            while i < n
                invariant
                    i <= n,
                    n == self.iv_queue@.len(),
                    *self == *old(self),
                    kept@ == keep_ivs(self.iv_queue@.take(i as int), value),
                decreases n - i,
            {
                let iv = self.iv_queue[i];
                proof {
                    assert(self.iv_queue@.take(i + 1).drop_last() =~= self.iv_queue@.take(i as int));
                }
                if (value & 0x01) == 0 || (iv != 0x00 && (value & 0x02) == 0) || (iv != 0x02 && (value & 0x04) == 0)
                    || iv != 0x01 {
                    kept.push(iv);
                }
                i += 1;
            }
            proof {
                assert(self.iv_queue@.take(n as int) =~= self.iv_queue@);
            }
            self.iv_queue = kept;
            self.ext_reg[idx] = value & 0xF8;
        } else if idx < 7 {
            if self.ext_reg[EXT_INT_CLEAR] & 0x80 == 0 {
                self.ext_reg[idx] = value;
            }
        } else {
            self.ext_reg[idx] = value;
        }
        proof {
            let e = ext_write_spec(old(self).ext_reg@, old(self).iv_queue@, old(self).io@[0x3E], value);
            assert(self.ext_reg@ =~= e.0);
        }
    }
}

impl Nc2000Machine {
    /// Value an IO register read returns.
    pub open spec fn io_read_value(&self, addr: u8) -> u8 {
        let io = self.io@;
        if addr == 0x02 || addr == 0x04 || addr == 0x05 {
            io[0x02]
        } else if addr == 0x06 || addr == 0x07 {
            io[0x03]
        } else if addr == 0x08 {
            self.keypad_spec().0
        } else if addr == 0x09 {
            self.keypad_spec().1
        } else if addr == 0x1C {
            if io[0x1C] & 0x1F >= 11 { io[0x1C] | 0x20 } else { io[0x1C] & 0xDF }
        } else if addr == 0x30 {
            dsp_stat_spec(self.dsp)
        } else if addr == 0x31 {
            if self.dsp.ret_data == -1 { 0xFF } else { self.dsp.ret_data as u8 }
        } else if addr == 0x29 {
            if io[0x18] & 0x40 != 0 { 0xFF } else { nand_read_spec(self.nand_state()).1 }
        } else if addr == 0x3A || addr == 0x3C {
            0
        } else if addr == 0x3B {
            if self.ext_reg@[EXT_RTC_CTRL as int] & 0x03 == 0 { 0 } else { io[0x3B] }
        } else if addr == 0x3F {
            self.ext_reg@[io[0x3E] as int]
        } else {
            io[addr as int]
        }
    }

    /// The state after an IO register read, relative to the state `o`
    /// before it: reading 0x01 clears the interrupt flags (keeping the two
    /// latched high bits), 0x04/0x05 stop/start Timer 0, 0x06/0x07
    /// stop/start Timer 1 (a start clears the prescaler), 0x08/0x09 rescan
    /// the keypad, 0x31 consumes the DSP reply and 0x29 advances the NAND.
    pub open spec fn io_read_post(&self, o: Self, addr: u8) -> bool {
        let nand_read = addr == 0x29 && o.io@[0x18] & 0x40 == 0;
        &&& self.io@ == if addr == 0x01 { o.io@.update(0x01, o.io@[0x01] & 0xC0) } else { o.io@ }
        &&& self.timer0run == if addr == 0x04 { false } else if addr == 0x05 { true } else { o.timer0run }
        &&& self.timer0ticks == if addr == 0x05 { 0 } else { o.timer0ticks }
        &&& self.timer1run == if addr == 0x06 { false } else if addr == 0x07 { true } else { o.timer1run }
        &&& self.timer1ticks == if addr == 0x07 { 0 } else { o.timer1ticks }
        &&& (self.r08_port0_id, self.r09_port1_id) == if addr == 0x08 || addr == 0x09 {
            o.keypad_spec()
        } else {
            (o.r08_port0_id, o.r09_port1_id)
        }
        &&& self.dsp == if addr == 0x31 { Dsp { ret_data: -1i32, ..o.dsp } } else { o.dsp }
        &&& nand_read ==> self.nand_state() == nand_read_spec(o.nand_state()).0
        &&& !nand_read ==> self.nand_ctl == o.nand_ctl
        &&& *self == (Nc2000Machine {
            io: self.io,
            timer0run: self.timer0run,
            timer0ticks: self.timer0ticks,
            timer1run: self.timer1run,
            timer1ticks: self.timer1ticks,
            r08_port0_id: self.r08_port0_id,
            r09_port1_id: self.r09_port1_id,
            dsp: self.dsp,
            nand_ctl: self.nand_ctl,
            ..o
        })
    }

    /// IO register read (SPDC1016 semantics).
    pub fn io_read(&mut self, addr: u8) -> (r: u8)
        requires
            old(self).wf(),
            addr < 0x40,
        ensures
            final(self).wf(),
            r == old(self).io_read_value(addr),
            final(self).io_read_post(*old(self), addr),
    {
        let reg = addr as usize;
        match addr {
            0x01 => {
                let t = self.io[reg];
                self.io[reg] = t & 0xC0;
                t
            },
            0x02 => self.io[0x02],
            0x04 => {
                self.timer0run = false;
                self.io[0x02]
            },
            0x05 => {
                self.timer0run = true;
                self.timer0ticks = 0;
                self.io[0x02]
            },
            0x06 => {
                self.timer1run = false;
                self.io[0x03]
            },
            0x07 => {
                self.timer1run = true;
                self.timer1ticks = 0;
                self.io[0x03]
            },
            0x08 => {
                self.update_keypad_registers();
                self.r08_port0_id
            },
            0x09 => {
                self.update_keypad_registers();
                self.r09_port1_id
            },
            0x1C => {
                let b = self.io[reg];
                if b & 0x1F >= 11 {
                    b | 0x20
                } else {
                    b & 0xDF
                }
            },
            0x30 => self.dsp.stat(),
            0x31 => self.dsp.read_ret(),
            0x29 => {
                if self.io[0x18] & 0x40 != 0 {
                    0xFF
                } else {
                    self.nand_read()
                }
            },
            0x3A | 0x3C => 0,
            0x3B => {
                if self.ext_reg[EXT_RTC_CTRL] & 0x03 == 0 {
                    0
                } else {
                    self.io[reg]
                }
            },
            0x3F => {
                let idx = self.io[0x3E] as usize;
                self.ext_reg[idx]
            },
            _ => self.io[reg],
        }
    }

    /// The state after an IO register write, relative to the state `o`
    /// before it.
    pub open spec fn io_write_post(&self, o: Self, addr: u8, value: u8) -> bool {
        let lba = o.lcd_buff_addr;
        let mode = value >> 6u8;
        let (ext, ivq) = ext_write_spec(o.ext_reg@, o.iv_queue@, o.io@[0x3E], value);
        &&& self.io@ == nc_io_regs(o.io@, addr, value)
        &&& self.inner_interrupt_control == if addr == 0x01 { value } else { o.inner_interrupt_control }
        &&& self.w04_b46_ptype == if addr == 0x04 { (value >> 4u8) & 0x07 } else { o.w04_b46_ptype }
        &&& self.lcd_buff_addr == if addr == 0x06 {
            (lba & !0x0FF0u16) | (((value as u16) << 4u16) & 0x0FF0)
        } else if addr == 0x0C {
            (lba & !0x3000u16) | (((value as u16) & 0x03) << 12u16)
        } else {
            lba
        }
        &&& self.lcd_buff_addr_mask == if addr == 0x0B {
            0x3FFFu16 >> (((value & 0x60) >> 5u8) as u16)
        } else {
            o.lcd_buff_addr_mask
        }
        &&& self.w0c_b67_tmodesl == if addr == 0x0C { mode } else { o.w0c_b67_tmodesl }
        &&& self.w0c_b45_tm0s == if addr == 0x0C && mode == 1 { (value >> 4u8) & 0x03 } else { o.w0c_b45_tm0s }
        &&& self.w0c_b23_tm1s == if addr == 0x0C && mode == 1 { (value >> 2u8) & 0x03 } else { o.w0c_b23_tm1s }
        &&& self.w0c_b345_tms == if addr == 0x0C && mode != 1 { (value >> 3u8) & 0x07 } else { o.w0c_b345_tms }
        &&& self.rw0f_b4_dir00 == if addr == 0x0F { value & 0x10 != 0 } else { o.rw0f_b4_dir00 }
        &&& self.rw0f_b5_dir01 == if addr == 0x0F { value & 0x20 != 0 } else { o.rw0f_b5_dir01 }
        &&& self.rw0f_b6_dir023 == if addr == 0x0F { value & 0x40 != 0 } else { o.rw0f_b6_dir023 }
        &&& self.rw0f_b7_dir047 == if addr == 0x0F { value & 0x80 != 0 } else { o.rw0f_b7_dir047 }
        &&& self.tma_reload == if addr == 0x10 {
            (o.tma_reload & 0xFF00) | (value as u32)
        } else if addr == 0x11 {
            (o.tma_reload & 0x00FF) | ((value as u32) << 8u32)
        } else {
            o.tma_reload
        }
        &&& self.tma_value == if addr == 0x11 { self.tma_reload } else { o.tma_value }
        &&& self.w15_port1_dir == if addr == 0x15 { value } else { o.w15_port1_dir }
        &&& addr == 0x08 ==> {
            let mask = (if o.rw0f_b4_dir00 { 0x01u8 } else { 0u8 }) | (if o.rw0f_b5_dir01 { 0x02u8 } else { 0u8 }) | (
            if o.rw0f_b6_dir023 {
                0x0Cu8
            } else {
                0u8
            }) | (if o.rw0f_b7_dir047 { 0xF0u8 } else { 0u8 });
            let mid = Nc2000Machine {
                w08_port0_ol: value,
                r08_port0_id: (o.r08_port0_id & !mask) | (value & mask),
                ..o
            };
            &&& self.w08_port0_ol == value
            &&& (self.r08_port0_id, self.r09_port1_id) == mid.keypad_spec()
        }
        &&& addr == 0x09 ==> {
            let pt = o.w04_b46_ptype;
            let dir = o.w15_port1_dir;
            let mask = (if pt == 0 { dir & 0x0F } else { 0u8 }) | (dir & 0xF0);
            let data = (if pt == 0 { value & 0x0F } else { 0u8 }) | (value & 0xF0);
            let r09 = if pt == 0 || pt == 5 { (o.r09_port1_id & !mask) | data } else { o.r09_port1_id };
            let mid = Nc2000Machine { w09_port1_ol: value, r09_port1_id: r09, ..o };
            &&& self.w09_port1_ol == value
            &&& (self.r08_port0_id, self.r09_port1_id) == mid.keypad_spec()
        }
        &&& addr != 0x08 ==> self.w08_port0_ol == o.w08_port0_ol
        &&& addr != 0x09 ==> self.w09_port1_ol == o.w09_port1_ol
        &&& addr != 0x08 && addr != 0x09 ==> self.r08_port0_id == o.r08_port0_id && self.r09_port1_id
            == o.r09_port1_id
        &&& addr == 0x29 ==> self.nand_state() == nand_write_spec(o.nand_state(), o.io@[0x18], value)
        &&& addr != 0x29 ==> self.nand == o.nand && self.nand_ctl == o.nand_ctl
        &&& self.dsp == if addr == 0x30 {
            dsp_control_spec(o.dsp, value)
        } else if addr == 0x32 {
            Dsp { data_low: value, ..o.dsp }
        } else if addr == 0x33 {
            dsp_cmd_spec(o.dsp, value)
        } else {
            o.dsp
        }
        &&& (self.ext_reg@, self.iv_queue@) == if addr == 0x3F { (ext, ivq) } else { (o.ext_reg@, o.iv_queue@) }
        &&& *self == (Nc2000Machine {
            io: self.io,
            inner_interrupt_control: self.inner_interrupt_control,
            w04_b46_ptype: self.w04_b46_ptype,
            lcd_buff_addr: self.lcd_buff_addr,
            lcd_buff_addr_mask: self.lcd_buff_addr_mask,
            w0c_b67_tmodesl: self.w0c_b67_tmodesl,
            w0c_b45_tm0s: self.w0c_b45_tm0s,
            w0c_b23_tm1s: self.w0c_b23_tm1s,
            w0c_b345_tms: self.w0c_b345_tms,
            rw0f_b4_dir00: self.rw0f_b4_dir00,
            rw0f_b5_dir01: self.rw0f_b5_dir01,
            rw0f_b6_dir023: self.rw0f_b6_dir023,
            rw0f_b7_dir047: self.rw0f_b7_dir047,
            tma_reload: self.tma_reload,
            tma_value: self.tma_value,
            w15_port1_dir: self.w15_port1_dir,
            w08_port0_ol: self.w08_port0_ol,
            w09_port1_ol: self.w09_port1_ol,
            r08_port0_id: self.r08_port0_id,
            r09_port1_id: self.r09_port1_id,
            nand: self.nand,
            nand_ctl: self.nand_ctl,
            dsp: self.dsp,
            ext_reg: self.ext_reg,
            iv_queue: self.iv_queue,
            ..o
        })
    }

    /// IO register write (SPDC1016 semantics).
    #[verifier::rlimit(100)]
    #[verifier::spinoff_prover]
    pub fn io_write(&mut self, addr: u8, value: u8)
        requires
            old(self).wf(),
            addr < 0x40,
        ensures
            final(self).wf(),
            final(self).io_write_post(*old(self), addr, value),
    {
        let reg = addr as usize;
        match addr {
            0x01 => {
                self.inner_interrupt_control = value;
            },
            0x04 => {
                self.io[reg] = value;
                self.w04_b46_ptype = (value >> 4) & 0x07;
            },
            0x06 => {
                // LCD start address bits 11..4
                let t = ((value as u16) << 4) & 0x0FF0;
                self.lcd_buff_addr = (self.lcd_buff_addr & !0x0FF0u16) | t;
                self.io[reg] = value;
            },
            0x08 => {
                self.write_port0(value);
            },
            0x09 => {
                self.write_port1(value);
            },
            0x0B => {
                // Port 3: bits 6-5 select how many LCD address bits are used.
                let b6b5 = (value & 0x60) >> 5;
                proof {
                    lemma_byte_fields(value);
                }
                self.lcd_buff_addr_mask = 0x3FFFu16 >> (b6b5 as u16);
                proof {
                    let b = b6b5 as u16;
                    lemma_mask_bound(0, b);
                }
                let old0 = self.io[reg] & 1;
                self.io[reg] = (value & 0xFE) | old0;
            },
            0x0C => {
                let t = ((value as u16) & 0x03) << 12;
                self.lcd_buff_addr = (self.lcd_buff_addr & !0x3000u16) | t;
                self.w0c_b67_tmodesl = value >> 6;
                if self.w0c_b67_tmodesl == 1 {
                    self.w0c_b45_tm0s = (value >> 4) & 3;
                    self.w0c_b23_tm1s = (value >> 2) & 3;
                    proof {
                        lemma_byte_fields(value);
                    }
                } else {
                    self.w0c_b345_tms = (value >> 3) & 7;
                    proof {
                        lemma_byte_fields(value);
                    }
                }
                self.io[reg] = value;
            },
            0x0F => {
                self.io[reg] = value;
                self.rw0f_b4_dir00 = value & 0x10 != 0;
                self.rw0f_b5_dir01 = value & 0x20 != 0;
                self.rw0f_b6_dir023 = value & 0x40 != 0;
                self.rw0f_b7_dir047 = value & 0x80 != 0;
            },
            0x10 => {
                let r = self.tma_reload;
                proof {
                    lemma_timer_fields(r, value);
                }
                self.tma_reload = (r & 0xFF00) | value as u32;
            },
            0x11 => {
                let r = self.tma_reload;
                proof {
                    lemma_timer_fields(r, value);
                }
                self.tma_reload = (r & 0x00FF) | ((value as u32) << 8);
                self.tma_value = self.tma_reload;
            },
            0x15 => {
                self.w15_port1_dir = value;
            },
            0x1A => {
                self.io[reg] = value & 0x7F;
            },
            0x29 => {
                self.nand_write(value);
            },
            0x30 => {
                self.dsp.control(value);
            },
            0x32 => {
                self.dsp.data_low = value;
            },
            0x33 => {
                self.dsp.cmd(value);
            },
            0x3F => {
                self.io[reg] = value;
                self.write_ext(value);
            },
            _ => {
                self.io[reg] = value;
            },
        }
        proof {
            assert(self.io@ =~= nc_io_regs(old(self).io@, addr, value));
        }
    }

    /// What a CPU read of `addr` returning `r` does to the machine.
    pub open spec fn bus_read_post(&self, after: Self, addr: u16, r: u8) -> bool {
        &&& addr < 0x40 ==> r == self.io_read_value(addr as u8) && after.io_read_post(*self, addr as u8)
        &&& addr >= 0x40 ==> r == self.peek_spec(addr) && after == *self
    }

    /// Execute a CPU read (with IO and NOR/NAND side effects).
    pub fn bus_read(&mut self, addr: u16) -> (r: u8)
        requires
            old(self).wf(),
        ensures
            final(self).wf(),
            old(self).bus_read_post(*final(self), addr, r),
    {
        if addr < 0x40 {
            return self.io_read(addr as u8);
        }
        match self.map_read(addr) {
            Some(MemTarget::Ram(o)) => self.ram[o],
            Some(MemTarget::RamB(o)) => self.ram_b[o],
            Some(MemTarget::ExtRam(o)) => self.ext_ram[o],
            Some(MemTarget::Nor(o)) => nor_read(self.fp_step, self.fp_type, &self.nor, &self.nor_info_block, addr, o, true),
            Some(MemTarget::Io(i)) => self.io[i],
            None => 0,
        }
    }

    /// What a CPU write of `value` to `addr` does to the machine.
    pub open spec fn bus_write_post(&self, after: Self, addr: u16, value: u8) -> bool {
        &&& addr < 0x40 ==> after.io_write_post(*self, addr as u8, value)
        &&& addr >= 0x40 ==> match map_spec(self.io@, addr) {
                Some(MemTarget::Ram(o)) => after.ram@ == self.ram@.update(o as int, value)
                    && after == (Nc2000Machine { ram: after.ram, ..*self }),
                Some(MemTarget::RamB(o)) => after.ram_b@ == self.ram_b@.update(o as int, value)
                    && after == (Nc2000Machine { ram_b: after.ram_b, ..*self }),
                Some(MemTarget::ExtRam(o)) => after.ext_ram@ == self.ext_ram@.update(o as int, value)
                    && after == (Nc2000Machine { ext_ram: after.ext_ram, ..*self }),
                Some(MemTarget::Nor(o)) => if self.io@[0x00] < 16 {
                    let t = nor_write_spec(self.nor_state(), addr, o, value, true);
                    &&& after.nor_state() == NorState { dirty: false, ..t }
                    &&& after == (Nc2000Machine {
                        nor: after.nor,
                        nor_info_block: after.nor_info_block,
                        fp_step: after.fp_step,
                        fp_type: after.fp_type,
                        ..*self
                    })
                } else {
                    after == *self
                },
                _ => after == *self,
            }
    }

    /// Execute a CPU write: IO registers, RAM, extended RAM, or the NOR
    /// command sequence (only while a NOR bank is selected).
    pub fn bus_write(&mut self, addr: u16, value: u8)
        requires
            old(self).wf(),
        ensures
            final(self).wf(),
            old(self).bus_write_post(*final(self), addr, value),
    {
        if addr < 0x40 {
            self.io_write(addr as u8, value);
            return;
        }
        match self.map_read(addr) {
            Some(MemTarget::Ram(o)) => {
                self.ram[o] = value;
            },
            Some(MemTarget::RamB(o)) => {
                self.ram_b[o] = value;
            },
            Some(MemTarget::ExtRam(o)) => {
                self.ext_ram[o] = value;
            },
            Some(MemTarget::Nor(o)) => {
                if self.io[0x00] < 16 {
                    let _ = nor_write(
                        &mut self.fp_step,
                        &mut self.fp_type,
                        &mut self.nor,
                        &mut self.nor_info_block,
                        addr,
                        o,
                        value,
                        true,
                    );
                }
            },
            _ => {},
        }
    }
}

/// 16-bit wrapping addition.
pub open spec fn add16w(x: u16, y: u16) -> u16 {
    ((x + y) % 0x1_0000) as u16
}

/// 32-bit wrapping addition.
pub open spec fn add32w(x: u32, y: u32) -> u32 {
    ((x + y) % 0x1_0000_0000) as u32
}

/// Timer 0/1 registers and prescalers.
#[derive(Clone, Copy, PartialEq, Eq, Structural)]
pub struct Timer01 {
    /// Interrupt status (IO 0x01)
    pub status: u8,
    /// Timer 0 count (IO 0x02)
    pub t0: u8,
    /// Timer 1 count (IO 0x03)
    pub t1: u8,
    pub t0ticks: u32,
    pub t1ticks: u32,
    pub irq: bool,
}

/// Timer 0 and timer 1 after `cpu_tick` cycles.  Timer 0 counts the
/// cycles divided by `2^(1 + prescaler)`; in mode 1 the two timers run
/// separately (timer 1 divided by `4^(1 + its prescaler)`), in mode 0
/// timer 0 reloads from timer 1, in mode 2 timer 0 carries into timer 1,
/// and in mode 3 timer 0 overflows raise their interrupt and carry into a
/// running timer 1.  Overflows set bit 4 (timer 0) or bit 5 (timer 1) of
/// the interrupt status.
pub open spec fn timer01_spec(
    s: Timer01,
    t0run: bool,
    t1run: bool,
    mode: u8,
    tm0s: u8,
    tm1s: u8,
    tms: u8,
    cpu_tick: u32,
) -> Timer01 {
    let a = if t0run { timer0_spec(s, t1run, mode, tm0s, tms, cpu_tick) } else { s };
    if t1run && mode == 1 { timer1_spec(a, tm1s, cpu_tick) } else { a }
}

/// The timer 0 part of [`timer01_spec`].
pub open spec fn timer0_spec(s: Timer01, t1run: bool, mode: u8, tm0s: u8, tms: u8, cpu_tick: u32) -> Timer01 {
    let ticks = add32w(s.t0ticks, cpu_tick);
    let mul0 = (1 + if mode == 1 { tm0s } else { tms }) as u32;
    let inc0 = ticks >> mul0;
    let ticks2 = (ticks - (inc0 << mul0)) as u32;
    let newt = add16w(s.t0 as u16, inc0 as u16);
    if mode == 1 || mode == 0 {
        let ov = newt > 0xFF && (mode == 1 || t1run);
        Timer01 {
            status: if ov { s.status | 0x10 } else { s.status },
            t0: if mode == 1 { newt as u8 } else { add16w(newt, s.t1 as u16) as u8 },
            t0ticks: ticks2,
            irq: s.irq || ov,
            ..s
        }
    } else if mode == 2 {
        if newt > 0xFF {
            let newt1 = add16w(s.t1 as u16, newt >> 8u16);
            Timer01 {
                status: if newt1 > 0xFF { s.status | 0x20 } else { s.status },
                t0: newt as u8,
                t1: newt1 as u8,
                t0ticks: ticks2,
                irq: s.irq || newt1 > 0xFF,
                ..s
            }
        } else {
            Timer01 { t0: newt as u8, t0ticks: ticks2, ..s }
        }
    } else {
        if newt > 0xFF {
            let newt1 = add16w(s.t1 as u16, newt >> 8u16);
            let st = s.status | 0x10;
            Timer01 {
                status: if t1run && newt1 > 0xFF { st | 0x20 } else { st },
                t0: newt as u8,
                t1: if t1run { newt1 as u8 } else { s.t1 },
                t0ticks: ticks2,
                irq: true,
                ..s
            }
        } else {
            Timer01 { t0: newt as u8, t0ticks: ticks2, ..s }
        }
    }
}

/// The timer 1 part of [`timer01_spec`] (mode 1 only).
pub open spec fn timer1_spec(a: Timer01, tm1s: u8, cpu_tick: u32) -> Timer01 {
    let ticks = add32w(a.t1ticks, cpu_tick);
    let sh = ((tm1s as u32 + 1) * 2) as u32;
    let inc1 = ticks >> sh;
    let newt = add16w(a.t1 as u16, inc1 as u16);
    Timer01 {
        status: if newt > 0xFF { a.status | 0x20 } else { a.status },
        t1: newt as u8,
        t1ticks: (ticks - (inc1 << sh)) as u32,
        irq: a.irq || newt > 0xFF,
        ..a
    }
}

/// Advance timer 0 (see [`timer0_spec`]).
#[verifier::spinoff_prover]
#[verifier::rlimit(40)]
fn timer0_step(s: Timer01, t1run: bool, mode: u8, tm0s: u8, tms: u8, cpu_tick: u32) -> (r: Timer01)
    requires
        tm0s <= 3,
        tms <= 7,
    ensures
        r == timer0_spec(s, t1run, mode, tm0s, tms, cpu_tick),
{
    let ticks = s.t0ticks.wrapping_add(cpu_tick);
    let mul0: u32 = 1 + if mode == 1 { tm0s as u32 } else { tms as u32 };
    let inc0 = ticks >> mul0;
    proof {
        lemma_shift_floor(ticks, mul0);
    }
    let ticks2 = ticks - (inc0 << mul0);
    let newt = (s.t0 as u16).wrapping_add(inc0 as u16);
    if mode == 1 || mode == 0 {
        let ov = newt > 0xFF && (mode == 1 || t1run);
        Timer01 {
            status: if ov { s.status | 0x10 } else { s.status },
            t0: if mode == 1 { newt as u8 } else { newt.wrapping_add(s.t1 as u16) as u8 },
            t0ticks: ticks2,
            irq: s.irq || ov,
            ..s
        }
    } else if mode == 2 {
        if newt > 0xFF {
            let newt1 = (s.t1 as u16).wrapping_add(newt >> 8);
            Timer01 {
                status: if newt1 > 0xFF { s.status | 0x20 } else { s.status },
                t0: newt as u8,
                t1: newt1 as u8,
                t0ticks: ticks2,
                irq: s.irq || newt1 > 0xFF,
                ..s
            }
        } else {
            Timer01 { t0: newt as u8, t0ticks: ticks2, ..s }
        }
    } else {
        if newt > 0xFF {
            let newt1 = (s.t1 as u16).wrapping_add(newt >> 8);
            let st = s.status | 0x10;
            Timer01 {
                status: if t1run && newt1 > 0xFF { st | 0x20 } else { st },
                t0: newt as u8,
                t1: if t1run { newt1 as u8 } else { s.t1 },
                t0ticks: ticks2,
                irq: true,
                ..s
            }
        } else {
            Timer01 { t0: newt as u8, t0ticks: ticks2, ..s }
        }
    }
}

/// Advance timer 1 in mode 1 (see [`timer1_spec`]).
fn timer1_step(a: Timer01, tm1s: u8, cpu_tick: u32) -> (r: Timer01)
    requires
        tm1s <= 3,
    ensures
        r == timer1_spec(a, tm1s, cpu_tick),
{
    let ticks = a.t1ticks.wrapping_add(cpu_tick);
    let sh: u32 = (tm1s as u32 + 1) * 2;
    let inc1 = ticks >> sh;
    proof {
        lemma_shift_floor(ticks, sh);
    }
    let newt = (a.t1 as u16).wrapping_add(inc1 as u16);
    Timer01 {
        status: if newt > 0xFF { a.status | 0x20 } else { a.status },
        t1: newt as u8,
        t1ticks: ticks - (inc1 << sh),
        irq: a.irq || newt > 0xFF,
        ..a
    }
}

/// The RTC time registers after one second: seconds, minutes, hours and
/// days carry at 60, 60 and 24.
pub open spec fn bump_rtc_spec(e: Seq<u8>) -> Seq<u8> {
    let s = ((e[0] + 1) % 256) as u8;
    if s != 60 {
        e.update(0, s)
    } else {
        let m = ((e[1] + 1) % 256) as u8;
        if m != 60 {
            e.update(0, 0).update(1, m)
        } else {
            let h = ((e[2] + 1) % 256) as u8;
            if h != 24 {
                e.update(0, 0).update(1, 0).update(2, h)
            } else {
                e.update(0, 0).update(1, 0).update(2, 0).update(3, ((e[3] + 1) % 256) as u8)
            }
        }
    }
}

/// Whether the alarm matches: at least one alarm field (hours 0x07,
/// minutes 0x06, seconds 0x05) is enabled by bit 7, and every enabled one
/// equals the time.
pub open spec fn alarm_spec(e: Seq<u8>) -> bool {
    let h_en = e[7] & 0x80 != 0;
    let m_en = e[6] & 0x80 != 0;
    let s_en = e[5] & 0x80 != 0;
    (h_en || m_en || s_en) && (!h_en || e[7] & 0x1F == e[2] & 0x1F) && (!m_en || e[6] & 0x3F == e[1] & 0x3F) && (!s_en
        || e[5] & 0x3F == e[0] & 0x3F)
}

/// The interrupt queue with `iv` appended unless already present.
pub open spec fn put_iv_spec(q: Seq<u8>, iv: u8) -> Seq<u8> {
    if q.contains(iv) { q } else { q.push(iv) }
}

/// RTC state advanced by the 256 Hz clock.
pub struct RtcState {
    pub ext: Seq<u8>,
    pub counter: u8,
    pub ivq: Seq<u8>,
    pub nmi: bool,
    pub irq: bool,
}

/// One 256 Hz RTC tick: the counter advances; on wrap the time advances a
/// second; on every half second the periodic interrupt (vector 0) is
/// queued when enabled, and on the whole second a matching alarm queues
/// vector 2; the NMI fires a quarter second after each half second
/// unless masked; a non-empty queue raises the IRQ.
pub open spec fn rtc_tick_spec(r: RtcState, iic: u8) -> RtcState {
    let cnt = ((r.counter + 1) % 256) as u8;
    let ext = if cnt == 0 { bump_rtc_spec(r.ext) } else { r.ext };
    let q1 = if cnt % 128 == 0 && cnt == 0 && ext[EXT_RTC_CTRL as int] & 0x02 != 0 && alarm_spec(ext) {
        put_iv_spec(r.ivq, 0x02)
    } else {
        r.ivq
    };
    let q2 = if cnt % 128 == 0 && ext[EXT_RTC_CTRL as int] & 0x01 != 0 { put_iv_spec(q1, 0x00) } else { q1 };
    RtcState {
        ext,
        counter: cnt,
        ivq: q2,
        nmi: r.nmi || (cnt % 128 == 64 && iic & 0x10 == 0),
        irq: r.irq || q2.len() > 0,
    }
}

/// `n` RTC ticks in a row.
pub open spec fn rtc_ticks(r: RtcState, iic: u8, n: nat) -> RtcState
    decreases n,
{
    if n == 0 { r } else { rtc_tick_spec(rtc_ticks(r, iic, (n - 1) as nat), iic) }
}

/// Timer A value and interrupt status after one 576*50 Hz tick.
pub open spec fn ta_tick_spec(v: u32, status: u8, ctrl: u8, reload: u32, iic: u8) -> (u32, u8, bool) {
    let temp = ctrl >> 4u8;
    if temp != 0 {
        let nv = v + (256u32 >> temp);
        if nv >= 0x10000 {
            if iic & 1 != 0 { (reload, status | 1, true) } else { (reload, status, false) }
        } else {
            (nv as u32, status, false)
        }
    } else {
        (v, status, false)
    }
}

/// `n` Timer A ticks in a row.
pub open spec fn ta_ticks(v: u32, status: u8, ctrl: u8, reload: u32, iic: u8, n: nat) -> (u32, u8, bool)
    decreases n,
{
    if n == 0 {
        (v, status, false)
    } else {
        let (v1, s1, i1) = ta_ticks(v, status, ctrl, reload, iic, (n - 1) as nat);
        let (v2, s2, i2) = ta_tick_spec(v1, s1, ctrl, reload, iic);
        (v2, s2, i1 || i2)
    }
}

impl Nc2000Machine {
    /// Timer 0/1 registers of the current state.
    pub open spec fn timer01(&self) -> Timer01 {
        Timer01 {
            status: self.io@[0x01],
            t0: self.io@[0x02],
            t1: self.io@[0x03],
            t0ticks: self.timer0ticks,
            t1ticks: self.timer1ticks,
            irq: false,
        }
    }

    /// Advance timer 0/1 by `cpu_tick` cycles; returns whether an IRQ
    /// fired.
    pub fn keep_timer01(&mut self, cpu_tick: u32) -> (irq: bool)
        requires
            old(self).wf(),
        ensures
            final(self).wf(),
            ({
                let t = timer01_spec(
                    old(self).timer01(),
                    old(self).timer0run,
                    old(self).timer1run,
                    old(self).w0c_b67_tmodesl,
                    old(self).w0c_b45_tm0s,
                    old(self).w0c_b23_tm1s,
                    old(self).w0c_b345_tms,
                    cpu_tick,
                );
                &&& final(self).io@ == old(self).io@.update(0x01, t.status).update(0x02, t.t0).update(0x03, t.t1)
                &&& final(self).timer0ticks == t.t0ticks
                &&& final(self).timer1ticks == t.t1ticks
                &&& irq == t.irq
                &&& *final(self) == (Nc2000Machine {
                    io: final(self).io,
                    timer0ticks: final(self).timer0ticks,
                    timer1ticks: final(self).timer1ticks,
                    ..*old(self)
                })
            }),
    {
        let s0 = Timer01 {
            status: self.io[0x01],
            t0: self.io[0x02],
            t1: self.io[0x03],
            t0ticks: self.timer0ticks,
            t1ticks: self.timer1ticks,
            irq: false,
        };
        let mode = self.w0c_b67_tmodesl;
        let a = if self.timer0run {
            timer0_step(s0, self.timer1run, mode, self.w0c_b45_tm0s, self.w0c_b345_tms, cpu_tick)
        } else {
            s0
        };
        let b = if self.timer1run && mode == 1 { timer1_step(a, self.w0c_b23_tm1s, cpu_tick) } else { a };
        self.io[0x01] = b.status;
        self.io[0x02] = b.t0;
        self.io[0x03] = b.t1;
        self.timer0ticks = b.t0ticks;
        self.timer1ticks = b.t1ticks;
        b.irq
    }

    /// One Timer A tick (576*50 Hz); returns whether it raised its
    /// interrupt.
    pub fn set_timer_a(&mut self) -> (irq: bool)
        requires
            old(self).wf(),
        ensures
            final(self).wf(),
            ({
                let (v, st, i) = ta_tick_spec(
                    old(self).tma_value,
                    old(self).io@[0x01],
                    old(self).io@[0x14],
                    old(self).tma_reload,
                    old(self).inner_interrupt_control,
                );
                &&& final(self).tma_value == v
                &&& final(self).io@ == old(self).io@.update(0x01, st)
                &&& irq == i
                &&& *final(self) == (Nc2000Machine { tma_value: v, io: final(self).io, ..*old(self) })
            }),
    {
        let temp = self.io[0x14] >> 4;
        proof {
            let c = self.io@[0x14];
            lemma_byte_fields(c);
        }
        let st = self.io[0x01];
        if temp != 0 {
            proof {
                lemma_timer_fields(0, temp);
            }
            self.tma_value = self.tma_value + (256u32 >> temp);
            if self.tma_value >= 0x10000 {
                self.tma_value = self.tma_reload;
                if self.inner_interrupt_control & 1 != 0 {
                    self.io[0x01] = st | 1;
                    proof {
                        assert(self.io@ =~= old(self).io@.update(0x01, st | 1));
                    }
                    return true;
                }
            }
        }
        proof {
            assert(self.io@ =~= old(self).io@.update(0x01, st));
        }
        false
    }

    /// Whether the time base interrupt is enabled (general control low
    /// nibble).
    pub fn time_base_enable(&self) -> (r: bool)
        ensures
            r == (self.io@[0x04] & 0x0F != 0),
    {
        self.io[0x04] & 0x0F != 0
    }

    /// Whether the NMI is unmasked.
    pub fn nmi_enable(&self) -> (r: bool)
        ensures
            r == (self.inner_interrupt_control & 0x10 == 0),
    {
        self.inner_interrupt_control & 0x10 == 0
    }

    /// Whether the clock is switched off (clock control bits 5-7 all
    /// set): the firmware writes 0xFF to enter standby.
    pub fn is_clk_off(&self) -> (r: bool)
        ensures
            r == (self.io@[0x05] >> 5u8 == 7),
    {
        self.io[0x05] >> 5 == 7
    }

    /// Advance the RTC time by one second.
    pub fn bump_rtc(&mut self)
        ensures
            final(self).ext_reg@ == bump_rtc_spec(old(self).ext_reg@),
            *final(self) == (Nc2000Machine { ext_reg: final(self).ext_reg, ..*old(self) }),
    {
        let sec = self.ext_reg[0].wrapping_add(1);
        self.ext_reg[0] = sec;
        if sec == 60 {
            self.ext_reg[0] = 0;
            let min = self.ext_reg[1].wrapping_add(1);
            self.ext_reg[1] = min;
            if min == 60 {
                self.ext_reg[1] = 0;
                let hour = self.ext_reg[2].wrapping_add(1);
                self.ext_reg[2] = hour;
                if hour == 24 {
                    self.ext_reg[2] = 0;
                    self.ext_reg[3] = self.ext_reg[3].wrapping_add(1);
                }
            }
        }
        proof {
            assert(self.ext_reg@ =~= bump_rtc_spec(old(self).ext_reg@));
        }
    }

    /// Whether the alarm matches the time (see [`alarm_spec`]).
    pub fn chk_alarm(&self) -> (r: bool)
        ensures
            r == alarm_spec(self.ext_reg@),
    {
        let mut alm = false;
        if self.ext_reg[7] & 0x80 != 0 {
            alm = true;
            if (self.ext_reg[7] & 0x1F) != (self.ext_reg[2] & 0x1F) {
                return false;
            }
        }
        if self.ext_reg[6] & 0x80 != 0 {
            alm = true;
            if (self.ext_reg[6] & 0x3F) != (self.ext_reg[1] & 0x3F) {
                return false;
            }
        }
        if self.ext_reg[5] & 0x80 != 0 {
            alm = true;
            if (self.ext_reg[5] & 0x3F) != (self.ext_reg[0] & 0x3F) {
                return false;
            }
        }
        alm
    }

    /// Queue interrupt vector `iv` unless already queued.
    pub fn put_iv(&mut self, iv: u8)
        ensures
            final(self).iv_queue@ == put_iv_spec(old(self).iv_queue@, iv),
            *final(self) == (Nc2000Machine { iv_queue: final(self).iv_queue, ..*old(self) }),
    {
        let n = self.iv_queue.len();
        let mut i: usize = 0;
        while i < n
            invariant
                i <= n,
                n == self.iv_queue@.len(),
                *self == *old(self),
                forall|k: int| 0 <= k < i ==> self.iv_queue@[k] != iv,
            decreases n - i,
        {
            if self.iv_queue[i] == iv {
                proof {
                    assert(self.iv_queue@.contains(iv));
                }
                return;
            }
            i += 1;
        }
        proof {
            assert(!self.iv_queue@.contains(iv));
        }
        self.iv_queue.push(iv);
    }

    /// The first queued interrupt vector.
    pub fn peek_iv(&self) -> (r: Option<u8>)
        ensures
            r == if self.iv_queue@.len() > 0 { Some(self.iv_queue@[0]) } else { None::<u8> },
    {
        if self.iv_queue.len() > 0 {
            Some(self.iv_queue[0])
        } else {
            None
        }
    }

    /// The RTC state of the machine.
    pub open spec fn rtc_state(&self) -> RtcState {
        RtcState { ext: self.ext_reg@, counter: self.rtc_256_counter, ivq: self.iv_queue@, nmi: false, irq: false }
    }
}

/// 64-bit wrapping addition.
pub open spec fn add64w(x: u64, y: u64) -> u64 {
    ((x + y) % 0x1_0000_0000_0000_0000) as u64
}

impl Nc2000Machine {
    /// What advancing the periodic sources by `delta` cycles does to the
    /// machine and the CPU.
    pub open spec fn tick_post(&self, after: Self, cpu0: Cpu, cpu1: Cpu, delta: u32) -> bool {
        let o = *self;
        let t = timer01_spec(
            o.timer01(),
            o.timer0run,
            o.timer1run,
            o.w0c_b67_tmodesl,
            o.w0c_b45_tm0s,
            o.w0c_b23_tm1s,
            o.w0c_b345_tms,
            delta,
        );
        let io1 = o.io@.update(0x01, t.status).update(0x02, t.t0).update(0x03, t.t1);
        let ta_start = add64w(o.cycles, delta as u64);
        let (tv, st, ia) = ta_ticks(o.tma_value, io1[0x01], io1[0x14], o.tma_reload, o.inner_interrupt_control, (ta_start / TA_CYCLES) as nat);
        let io2 = io1.update(0x01, st);
        let tb_start = o.tb_cycles + delta;
        let tb_fire = tb_start >= TB_CYCLES && io2[0x04] & 0x0F != 0;
        let io3 = if tb_fire { io2.update(0x01, io2[0x01] | 0x08) } else { io2 };
        let rtc_start = o.rtc_cycles + delta;
        let r = rtc_ticks(o.rtc_state(), o.inner_interrupt_control, (rtc_start / (RTC_CYCLES as int)) as nat);
        &&& after.io@ == io3
        &&& after.timer0ticks == t.t0ticks
        &&& after.timer1ticks == t.t1ticks
        &&& after.tma_value == tv
        &&& after.cycles == ta_start % TA_CYCLES
        &&& after.tb_cycles == tb_start % (TB_CYCLES as int)
        &&& after.rtc_cycles == rtc_start % (RTC_CYCLES as int)
        &&& after.ext_reg@ == r.ext
        &&& after.rtc_256_counter == r.counter
        &&& after.iv_queue@ == r.ivq
        &&& cpu1 == (Cpu {
            irq_pending: cpu0.irq_pending || t.irq || ia || tb_fire || r.irq,
            nmi_pending: cpu0.nmi_pending || r.nmi,
            ..cpu0
        })
        &&& after == (Nc2000Machine {
            io: after.io,
            timer0ticks: after.timer0ticks,
            timer1ticks: after.timer1ticks,
            tma_value: after.tma_value,
            cycles: after.cycles,
            tb_cycles: after.tb_cycles,
            rtc_cycles: after.rtc_cycles,
            ext_reg: after.ext_reg,
            rtc_256_counter: after.rtc_256_counter,
            iv_queue: after.iv_queue,
            ..o
        })
    }

    /// Advance the periodic sources by `delta` cycles: timer 0/1, Timer A
    /// (one tick per 177 cycles), the time base (one per 27675 cycles,
    /// flagging bit 3 of the interrupt status while enabled) and the RTC
    /// (one per 20000 cycles).
    #[verifier::rlimit(60)]
    pub fn tick_periodic(&mut self, cpu: &mut Cpu, delta: u32)
        requires
            old(self).wf(),
        ensures
            final(self).wf(),
            old(self).tick_post(*final(self), *old(cpu), *final(cpu), delta),
    {
        let ghost o = *old(self);
        let ghost cpu0 = *cpu;
        if self.keep_timer01(delta) {
            cpu.irq_pending = true;
        }
        let ghost s1 = *self;
        let ghost irq1 = cpu.irq_pending;

        // Timer A at 576*50 Hz.
        let ta_start = self.cycles.wrapping_add(delta as u64);
        self.cycles = ta_start;
        let ghost n_ta = (ta_start / TA_CYCLES) as nat;
        let ghost mut done: nat = 0;
        proof {
            assert(ta_start == add64w(o.cycles, delta as u64));
        }
        while self.cycles >= TA_CYCLES
            invariant
                self.wf(),
                done <= n_ta,
                n_ta == ta_start / TA_CYCLES,
                self.cycles == ta_start - done * TA_CYCLES,
                ({
                    let (tv, st, ia) = ta_ticks(s1.tma_value, s1.io@[0x01], s1.io@[0x14], s1.tma_reload, s1.inner_interrupt_control, done);
                    &&& self.tma_value == tv
                    &&& self.io@ == s1.io@.update(0x01, st)
                    &&& cpu.irq_pending == (irq1 || ia)
                }),
                *self == (Nc2000Machine { io: self.io, tma_value: self.tma_value, cycles: self.cycles, ..s1 }),
                *cpu == (Cpu { irq_pending: cpu.irq_pending, ..cpu0 }),
            decreases self.cycles,
        {
            proof {
                assert(done < n_ta) by (nonlinear_arith)
                    requires
                        self.cycles == ta_start - done * TA_CYCLES,
                        self.cycles >= TA_CYCLES,
                        n_ta == ta_start / TA_CYCLES,
                        TA_CYCLES == 177,
                ;
            }
            let ghost c_before = self.cycles;
            self.cycles = self.cycles - TA_CYCLES;
            if self.set_timer_a() {
                cpu.irq_pending = true;
            }
            proof {
                assert(self.cycles == ta_start - (done + 1) * TA_CYCLES) by (nonlinear_arith)
                    requires
                        self.cycles == c_before - TA_CYCLES,
                        c_before == ta_start - done * TA_CYCLES,
                ;
                assert(self.io@ =~= s1.io@.update(0x01, self.io@[0x01]));
                done = done + 1;
            }
        }
        proof {
            assert(done == n_ta && self.cycles == ta_start % TA_CYCLES) by (nonlinear_arith)
                requires
                    self.cycles == ta_start - done * TA_CYCLES,
                    self.cycles < TA_CYCLES,
                    done <= n_ta,
                    n_ta == ta_start / TA_CYCLES,
                    TA_CYCLES == 177,
            ;
        }
        let ghost s2 = *self;
        let ghost irq2 = cpu.irq_pending;

        // Time base (~185 Hz).
        let tb_start = self.tb_cycles + delta as u64;
        self.tb_cycles = tb_start;
        let ghost mut fired = false;
        while self.tb_cycles >= TB_CYCLES
            invariant
                self.tb_cycles <= tb_start,
                tb_start == s2.tb_cycles + delta,
                self.tb_cycles % TB_CYCLES == tb_start % TB_CYCLES,
                fired == (self.tb_cycles < tb_start),
                s2.wf(),
                self.io@ == if fired && s2.io@[0x04] & 0x0F != 0 { s2.io@.update(0x01, s2.io@[0x01] | 0x08) } else { s2.io@ },
                cpu.irq_pending == (irq2 || (fired && s2.io@[0x04] & 0x0F != 0)),
                *self == (Nc2000Machine { io: self.io, tb_cycles: self.tb_cycles, ..s2 }),
                *cpu == (Cpu { irq_pending: cpu.irq_pending, ..cpu0 }),
            decreases self.tb_cycles,
        {
            self.tb_cycles = self.tb_cycles - TB_CYCLES;
            if self.time_base_enable() {
                let v = self.io[0x01];
                self.io[0x01] = v | 0x08;
                cpu.irq_pending = true;
                proof {
                    let b = s2.io@[0x01];
                    lemma_byte_fields(b);
                    assert(self.io@ =~= s2.io@.update(0x01, s2.io@[0x01] | 0x08));
                }
            }
            proof {
                fired = true;
            }
        }
        proof {
            assert(fired == (tb_start >= TB_CYCLES));
            assert(self.tb_cycles == tb_start % TB_CYCLES);
        }
        let ghost s3 = *self;

        // RTC at 256 Hz.
        let rtc_start = self.rtc_cycles + delta as u64;
        self.rtc_cycles = rtc_start;
        let ghost n_rtc = (rtc_start / RTC_CYCLES) as nat;
        let ghost r0 = s3.rtc_state();
        let ghost cpu3 = *cpu;
        proof {
            done = 0;
        }
        while self.rtc_cycles >= RTC_CYCLES
            invariant
                done <= n_rtc,
                n_rtc == rtc_start / RTC_CYCLES,
                self.rtc_cycles == rtc_start - done * RTC_CYCLES,
                s3.wf(),
                ({
                    let r = rtc_ticks(r0, s3.inner_interrupt_control, done);
                    &&& self.ext_reg@ == r.ext
                    &&& self.rtc_256_counter == r.counter
                    &&& self.iv_queue@ == r.ivq
                    &&& cpu.nmi_pending == (cpu3.nmi_pending || r.nmi)
                    &&& cpu.irq_pending == (cpu3.irq_pending || r.irq)
                }),
                *self == (Nc2000Machine {
                    ext_reg: self.ext_reg,
                    rtc_256_counter: self.rtc_256_counter,
                    iv_queue: self.iv_queue,
                    rtc_cycles: self.rtc_cycles,
                    ..s3
                }),
                *cpu == (Cpu { irq_pending: cpu.irq_pending, nmi_pending: cpu.nmi_pending, ..cpu3 }),
            decreases self.rtc_cycles,
        {
            proof {
                assert(done < n_rtc) by (nonlinear_arith)
                    requires
                        self.rtc_cycles == rtc_start - done * RTC_CYCLES,
                        self.rtc_cycles >= RTC_CYCLES,
                        n_rtc == rtc_start / RTC_CYCLES,
                        RTC_CYCLES == 20000,
                ;
            }
            let ghost c_before = self.rtc_cycles;
            self.rtc_cycles = self.rtc_cycles - RTC_CYCLES;
            self.rtc_256_counter = self.rtc_256_counter.wrapping_add(1);
            let cnt = self.rtc_256_counter;
            if cnt == 0 {
                self.bump_rtc();
            }
            if cnt % 128 == 0 {
                if cnt == 0 && self.ext_reg[EXT_RTC_CTRL] & 0x02 != 0 && self.chk_alarm() {
                    self.put_iv(0x02);
                }
                if self.ext_reg[EXT_RTC_CTRL] & 0x01 != 0 {
                    self.put_iv(0x00);
                }
            }
            if cnt % 128 == 64 && self.nmi_enable() {
                cpu.nmi_pending = true;
            }
            if self.peek_iv().is_some() {
                cpu.irq_pending = true;
            }
            proof {
                assert(self.rtc_cycles == rtc_start - (done + 1) * RTC_CYCLES) by (nonlinear_arith)
                    requires
                        self.rtc_cycles == c_before - RTC_CYCLES,
                        c_before == rtc_start - done * RTC_CYCLES,
                ;
                done = done + 1;
            }
        }
        proof {
            assert(done == n_rtc && self.rtc_cycles == rtc_start % RTC_CYCLES) by (nonlinear_arith)
                requires
                    self.rtc_cycles == rtc_start - done * RTC_CYCLES,
                    self.rtc_cycles < RTC_CYCLES,
                    done <= n_rtc,
                    n_rtc == rtc_start / RTC_CYCLES,
                    RTC_CYCLES == 20000,
            ;
        }
    }
}

impl Nc2000Machine {
    /// What a machine built from `files` holds: the images as loaded and
    /// the power-on state around them.
    pub open spec fn built_from(&self, files: RomFiles) -> bool {
        let start = (NAND0_PAGES * NAND_PAGE_SIZE) as int;
        let blank = Seq::new(NAND_SIZE as nat, |i: int| 0xFFu8);
        let nand1 = match files.nand {
            Some(d) => {
                let n = if d@.len() < NAND_SIZE - start { d@.len() as int } else { NAND_SIZE - start };
                splice(blank, start, d@.subrange(0, n))
            },
            None => blank,
        };
        &&& self.nor@ == match files.nor {
            Some(d) => d@.subrange(0, NOR_SIZE as int),
            None => Seq::new(NOR_SIZE as nat, |i: int| 0xFFu8),
        }
        &&& self.nand@ == match files.nand0 {
            Some(d) => {
                let n = if d@.len() < start { d@.len() as int } else { start };
                splice(nand1, 0, d@.subrange(0, n))
            },
            None => nand1,
        }
        &&& self.ram@ == Seq::new(0x1_0000, |i: int| 0u8)
        &&& self.io@ == Seq::new(0x40, |i: int| 0u8)
        &&& !self.do_warm_reset
    }

    /// Create the machine and load its NOR / NAND images (the ROM image is
    /// not used by this model).
    pub fn new(files: &RomFiles) -> (r: Result<Self, MachineError>)
        ensures
            r is Err <==> files.nor is Some && files.nor.unwrap()@.len() < NOR_SIZE,
            files.nor is Some && files.nor.unwrap()@.len() < NOR_SIZE ==> r == Err::<Self, MachineError>(
                MachineError::NorTooSmall { expected: NOR_SIZE, got: files.nor.unwrap()@.len() as usize },
            ),
            r matches Ok(m) ==> m.wf() && m.fp_step == 0 && m.fp_type == NorCmd::NoCommand,
            r matches Ok(m) ==> m.built_from(*files),
    {
        let mut m = Nc2000Machine {
            io: filled(0),
            ext_reg: filled(0),
            ram: vec![0; 0x1_0000],
            ext_ram: vec![0; 0x8000],
            ram_b: filled(0),
            ram_b2: filled(0),
            nor: vec![0xFF; NOR_SIZE],
            nand: vec![0xFF; NAND_SIZE],
            nor_info_block: filled(0),
            fp_step: 0,
            fp_type: NorCmd::NoCommand,
            nand_ctl: NandCtl::new(),
            keypad_matrix: [false; 64],
            w08_port0_ol: 0,
            r08_port0_id: 0,
            w09_port1_ol: 0,
            r09_port1_id: 0,
            w15_port1_dir: 0,
            w04_b46_ptype: 0,
            rw0f_b4_dir00: false,
            rw0f_b5_dir01: false,
            rw0f_b6_dir023: false,
            rw0f_b7_dir047: false,
            timer0run: false,
            timer1run: false,
            timer0ticks: 0,
            timer1ticks: 0,
            w0c_b67_tmodesl: 0,
            w0c_b45_tm0s: 0,
            w0c_b23_tm1s: 0,
            w0c_b345_tms: 0,
            tma_value: 0,
            tma_reload: 0,
            inner_interrupt_control: 0,
            dsp: Dsp::new(),
            lcd: Lcd::new(),
            lcd_buff_addr: 0,
            lcd_buff_addr_mask: 0x3FFF,
            rtc_256_counter: 0,
            iv_queue: Vec::new(),
            tb_cycles: 0,
            rtc_cycles: 0,
            do_warm_reset: false,
            audio: Audio::new(),
            cycles: 0,
        };
        proof {
            assert(m.nor@ =~= Seq::new(NOR_SIZE as nat, |i: int| 0xFFu8));
            assert(m.nand@ =~= Seq::new(NAND_SIZE as nat, |i: int| 0xFFu8));
            assert(m.ram@ =~= Seq::new(0x1_0000, |i: int| 0u8));
            assert(m.io@ =~= Seq::new(0x40, |i: int| 0u8));
        }
        match m.load_rom_impl(files) {
            Ok(()) => Ok(m),
            Err(e) => Err(e),
        }
    }

    /// What loading the images does: a NOR dump shorter than 512KB is
    /// refused and nothing changes; otherwise the NOR takes the dump's first
    /// 512KB in physical order, the NAND dump fills the main NAND area and
    /// the NAND0 dump the first plane, each as far as it reaches.
    pub open spec fn load_rom_post(&self, after: Self, files: RomFiles, r: Result<(), MachineError>) -> bool {
        if files.nor is Some && files.nor.unwrap()@.len() < NOR_SIZE {
            &&& r == Err::<(), MachineError>(
                MachineError::NorTooSmall { expected: NOR_SIZE, got: files.nor.unwrap()@.len() as usize },
            )
            &&& after == *self
        } else {
            let nor1 = match files.nor {
                Some(d) => d@.subrange(0, NOR_SIZE as int),
                None => self.nor@,
            };
            let start = (NAND0_PAGES * NAND_PAGE_SIZE) as int;
            let nand1 = match files.nand {
                Some(d) => {
                    let n = if d@.len() < NAND_SIZE - start { d@.len() as int } else { NAND_SIZE - start };
                    splice(self.nand@, start, d@.subrange(0, n))
                },
                None => self.nand@,
            };
            let nand2 = match files.nand0 {
                Some(d) => {
                    let n = if d@.len() < start { d@.len() as int } else { start };
                    splice(nand1, 0, d@.subrange(0, n))
                },
                None => nand1,
            };
            &&& r is Ok
            &&& after.nor@ == nor1
            &&& after.nand@ == nand2
            &&& after == (Nc2000Machine { nor: after.nor, nand: after.nand, ..*self })
        }
    }

    /// Load the images: the NOR dump must hold at least 512KB (taken in
    /// physical order), the NAND dump fills the main area and the NAND0
    /// dump the first plane.
    pub fn load_rom_impl(&mut self, files: &RomFiles) -> (r: Result<(), MachineError>)
        requires
            old(self).wf(),
        ensures
            final(self).wf(),
            old(self).load_rom_post(*final(self), *files, r),
    {
        match &files.nor {
            Some(data) => {
                if data.len() < NOR_SIZE {
                    return Err(MachineError::NorTooSmall { expected: NOR_SIZE, got: data.len() });
                }
                copy_into(&mut self.nor, 0, data.as_slice(), 0, NOR_SIZE);
                proof {
                    assert(self.nor@ =~= data@.subrange(0, NOR_SIZE as int));
                }
            },
            None => {},
        }
        let ghost m1 = *self;
        match &files.nand {
            Some(data) => {
                self.load_main_nand(data.as_slice());
            },
            None => {},
        }
        let ghost m2 = *self;
        match &files.nand0 {
            Some(data) => {
                self.load_first_nand_plane(data.as_slice());
            },
            None => {},
        }
        proof {
            assert(self.nor@ == m1.nor@);
        }
        Ok(())
    }

    /// Load the main NAND area (after the 64 first-plane pages) from a dump.
    pub fn load_main_nand(&mut self, data: &[u8])
        requires
            old(self).wf(),
        ensures
            final(self).wf(),
            ({
                let start = (NAND0_PAGES * NAND_PAGE_SIZE) as int;
                let n = if data@.len() < NAND_SIZE - start { data@.len() as int } else { NAND_SIZE - start };
                final(self).nand@ == splice(old(self).nand@, start, data@.subrange(0, n))
            }),
            *final(self) == (Nc2000Machine { nand: final(self).nand, ..*old(self) }),
    {
        let start = NAND0_PAGES * NAND_PAGE_SIZE;
        let room = self.nand.len() - start;
        let n = if data.len() < room { data.len() } else { room };
        copy_into(&mut self.nand, start, data, 0, n);
    }

    /// Load the first NAND plane (64 pages) from a dump.
    pub fn load_first_nand_plane(&mut self, data: &[u8])
        requires
            old(self).wf(),
        ensures
            final(self).wf(),
            ({
                let cap = (NAND0_PAGES * NAND_PAGE_SIZE) as int;
                let n = if data@.len() < cap { data@.len() as int } else { cap };
                final(self).nand@ == splice(old(self).nand@, 0, data@.subrange(0, n))
            }),
            *final(self) == (Nc2000Machine { nand: final(self).nand, ..*old(self) }),
    {
        let cap = NAND0_PAGES * NAND_PAGE_SIZE;
        let n = if data.len() < cap { data.len() } else { cap };
        copy_into(&mut self.nand, 0, data, 0, n);
    }

    /// Which model this machine implements.
    pub fn model(&self) -> (r: MachineModel)
        ensures
            r == MachineModel::Nc2000,
    {
        MachineModel::Nc2000
    }

    /// Whether the device reports sleep mode (the NC2000 never does; its
    /// standby is the clock-off state).
    pub fn is_sleeping(&self) -> (r: bool)
        ensures
            !r,
    {
        false
    }

    /// What a warm reset does to the machine and the CPU.
    pub open spec fn warm_reset_post(&self, after: Self, cpu1: Cpu) -> bool {
        &&& after.io@ == self.io@.update(0x05, self.io@[0x05] & 0x1F)
        &&& !after.do_warm_reset
        &&& cpu1.pc == (after.peek_spec(RESET_VECTOR) as u16 + 256 * after.peek_spec(
            (RESET_VECTOR + 1) as u16,
        ) as u16) as u16
        &&& cpu1.sp == 0xFF
        &&& !cpu1.irq_pending && !cpu1.nmi_pending
        &&& after == (Nc2000Machine { io: after.io, do_warm_reset: false, ..*self })
    }

    /// Wake from standby: restore the clock and restart the CPU at the
    /// reset vector.
    pub fn warm_reset(&mut self, cpu: &mut Cpu)
        requires
            old(self).wf(),
        ensures
            final(self).wf(),
            old(self).warm_reset_post(*final(self), *final(cpu)),
    {
        let v = self.io[0x05];
        self.io[0x05] = v & 0x1F;
        self.do_warm_reset = false;
        let vector = self.peek_u16(RESET_VECTOR);
        cpu.reset(vector);
    }

    /// What `step` does to the machine and the CPU, taking `n` cycles.
    pub open spec fn step_post(&self, after: Self, cpu0: Cpu, cpu1: Cpu, n: u64) -> bool {
        &&& 2 <= n <= 170_666
        &&& if self.do_warm_reset {
                exists|w: Self, cw: Cpu| #[trigger] self.warm_reset_post(w, cw) && w.run_post(after, cw, cpu1, n)
            } else {
                self.run_post(after, cpu0, cpu1, n)
            }
    }

    /// With no warm reset pending: one instruction from `cpu0` (or, with the
    /// clock off, a frame's worth of idle cycles) and the periodic sources
    /// advanced by its cycles.
    pub open spec fn run_post(&self, after: Self, cpu0: Cpu, cpu1: Cpu, n: u64) -> bool {
        if self.io@[0x05] >> 5u8 == 7 {
            &&& n == CYCLES_PER_FRAME
            &&& self.tick_post(after, cpu0, cpu1, n as u32)
        } else {
            let (c, k) = s_step(cpu0, cpu1.trace@);
            &&& k == n
            &&& cpu1 == (Cpu { irq_pending: cpu1.irq_pending, nmi_pending: cpu1.nmi_pending, ..c })
            &&& c.irq_pending ==> cpu1.irq_pending
            &&& c.nmi_pending ==> cpu1.nmi_pending
            &&& exists|mid: Self| #[trigger] serves_all(*self, cpu1.trace@, mid)
                    && mid.tick_post(after, c, cpu1, n as u32)
        }
    }

    /// Perform a pending warm reset, then execute one CPU instruction (or,
    /// with the clock off, let a frame's worth of cycles pass) and advance
    /// the periodic sources; returns the cycles consumed.
    pub fn step(&mut self, cpu: &mut Cpu) -> (n: u64)
        requires
            old(self).wf(),
        ensures
            final(self).wf(),
            old(self).step_post(*final(self), *old(cpu), *final(cpu), n),
    {
        if self.do_warm_reset {
            self.warm_reset(cpu);
        }
        let ghost c0 = *cpu;
        let ghost m0 = *self;
        let cycles = if self.is_clk_off() {
            CYCLES_PER_FRAME
        } else {
            let n = cpu.step(self);
            proof {
                lemma_step_cycles(c0, cpu.trace@);
            }
            n
        };
        let ghost mid = *self;
        let ghost cm = *cpu;
        self.tick_periodic(cpu, cycles as u32);
        proof {
            if !(m0.io@[0x05] >> 5u8 == 7) {
                assert(serves_all(m0, cpu.trace@, mid) && mid.tick_post(*self, cm, *cpu, cycles as u32));
            }
        }
        cycles
    }

    /// What `end_of_frame` does to the machine and the CPU.
    pub open spec fn end_of_frame_post(&self, after: Self, cpu0: Cpu, cpu1: Cpu) -> bool {
        &&& cpu1 == cpu0
        &&& after.lcd.fb() == self.ram@.subrange(LCD_RAM_WINDOW as int, LCD_RAM_WINDOW + 1600)
        &&& after.lcd.dirty_spec()
        &&& after == (Nc2000Machine { lcd: after.lcd, ..*self })
    }

    /// Frame end: copy the LCD framebuffer from its fixed RAM window.
    pub fn end_of_frame(&mut self, cpu: &mut Cpu)
        requires
            old(self).wf(),
        ensures
            final(self).wf(),
            old(self).end_of_frame_post(*final(self), *old(cpu), *final(cpu)),
    {
        self.lcd.copy_from(self.ram.as_slice(), LCD_RAM_WINDOW);
    }

    /// Move pending audio samples to `out`.
    pub fn drain_audio(&mut self, out: &mut Vec<i16>)
        requires
            old(self).wf(),
        ensures
            final(self).wf(),
            final(out)@ == old(out)@ + old(self).audio.output_buffer@,
            final(self).audio.output_buffer@.len() == 0,
            *final(self) == (Nc2000Machine { audio: final(self).audio, ..*old(self) }),
    {
        self.audio.drain_audio(out);
    }

    /// What `reset` does to the machine.
    pub open spec fn reset_post(&self, after: Self) -> bool {
        &&& after.io@ == Seq::new(0x40, |i: int| 0u8)
        &&& after.ram@ == Seq::new(0x1_0000, |i: int| 0u8)
        &&& after.fp_step == 0 && after.fp_type == NorCmd::NoCommand
        &&& after.lcd_buff_addr == 0 && after.lcd_buff_addr_mask == 0x3FFF
        &&& after.iv_queue@.len() == 0
        &&& !after.do_warm_reset
        &&& after.nor == self.nor
        &&& after.nand == self.nand
    }

    /// Reset to power-on state (the NOR and NAND images are kept).
    pub fn reset(&mut self)
        requires
            old(self).wf(),
        ensures
            final(self).wf(),
            old(self).reset_post(*final(self)),
    {
        self.io = filled(0);
        self.ext_reg = filled(0);
        fill_all(&mut self.ram, 0);
        fill_all(&mut self.ext_ram, 0);
        self.ram_b = filled(0);
        self.ram_b2 = filled(0);
        self.fp_step = 0;
        self.fp_type = NorCmd::NoCommand;
        self.nand_ctl.clear();
        self.keypad_matrix = [false; 64];
        self.w08_port0_ol = 0;
        self.r08_port0_id = 0;
        self.w09_port1_ol = 0;
        self.r09_port1_id = 0;
        self.w15_port1_dir = 0;
        self.timer0run = false;
        self.timer1run = false;
        self.timer0ticks = 0;
        self.timer1ticks = 0;
        self.inner_interrupt_control = 0;
        self.dsp.ret_data = -1;
        self.dsp.sleep = false;
        self.dsp.trans = false;
        self.dsp.data_feeded = false;
        self.lcd.reset();
        self.lcd_buff_addr = 0;
        self.lcd_buff_addr_mask = 0x3FFF;
        self.rtc_256_counter = 0;
        self.iv_queue.clear();
        self.do_warm_reset = false;
        self.audio.reset();
        self.cycles = 0;
        self.tb_cycles = 0;
        self.rtc_cycles = 0;
        proof {
            assert(self.io@ =~= Seq::new(0x40, |i: int| 0u8));
            assert(self.ram@ =~= Seq::new(0x1_0000, |i: int| 0u8));
        }
    }
}

impl Nc2000Machine {
    /// The save state `save_state` captures with `cpu`.
    pub open spec fn save_state_post(&self, cpu: Cpu, r: SaveState) -> bool {
        &&& r.cpu == cpu
        &&& r.ram@ == self.ram@
        &&& r.io@ == self.io@
        &&& r.lcd_addr == self.lcd_buff_addr as u32
    }

    /// Capture a save state (blank timer, input and flash components).
    pub fn save_state(&self, cpu: &Cpu) -> (r: SaveState)
        requires
            self.wf(),
        ensures
            self.save_state_post(*cpu, r),
            r.wf(),
    {
        SaveState::new(
            cpu,
            self.ram.as_slice(),
            self.io.as_slice(),
            &Timer::new(),
            &Input::new(),
            &self.audio,
            &Flash::new(),
            self.lcd_buff_addr as u32,
        )
    }

    /// What `load_state` restores from `state`.
    pub open spec fn load_state_post(&self, after: Self, cpu1: Cpu, state: SaveState) -> bool {
        &&& cpu1 == state.cpu
        &&& after.io@ == if state.io@.len() == 0x40 { state.io@ } else { self.io@ }
        &&& after.ram@ == if state.ram@.len() >= INTERNAL_RAM_SIZE {
                splice(self.ram@, 0, state.ram@.subrange(0, INTERNAL_RAM_SIZE as int))
            } else {
                self.ram@
            }
        &&& after.lcd_buff_addr == state.lcd_addr as u16
        &&& after == (Nc2000Machine {
                io: after.io,
                ram: after.ram,
                lcd_buff_addr: after.lcd_buff_addr,
                ..*self
            })
    }

    /// Restore a save state: the IO registers (when all 64 are present),
    /// the internal 24KB of RAM (when present) and the LCD address.
    pub fn load_state(&mut self, cpu: &mut Cpu, state: &SaveState)
        requires
            old(self).wf(),
        ensures
            final(self).wf(),
            old(self).load_state_post(*final(self), *final(cpu), *state),
    {
        *cpu = state.cpu;
        if state.io.len() == 0x40 {
            let mut i: usize = 0;
            while i < 0x40
                invariant
                    i <= 0x40,
                    state.io@.len() == 0x40,
                    forall|k: int| 0 <= k < i ==> self.io@[k] == state.io@[k],
                    *self == (Nc2000Machine { io: self.io, ..*old(self) }),
                decreases 0x40 - i,
            {
                self.io[i] = state.io[i];
                i += 1;
            }
            proof {
                assert(self.io@ =~= state.io@);
            }
        }
        if state.ram.len() >= INTERNAL_RAM_SIZE {
            copy_into(&mut self.ram, 0, state.ram.as_slice(), 0, INTERNAL_RAM_SIZE);
        }
        self.lcd_buff_addr = state.lcd_addr as u16;
    }
}

impl CpuBus for Nc2000Machine {
    open spec fn bus_inv(&self) -> bool {
        self.wf()
    }

    open spec fn bus_kept(&self) -> Seq<u8> {
        Seq::empty()
    }

    open spec fn serves(&self, ev: BusEvent, after: Self) -> bool {
        match ev {
            BusEvent::Read(a, v) => self.bus_read_post(after, a, v),
            BusEvent::Write(a, v) => self.bus_write_post(after, a, v),
        }
    }

    fn read(&mut self, addr: u16) -> (v: u8) {
        let ghost before = *self;
        let v = self.bus_read(addr);
        proof {
            assert(before.serves(BusEvent::Read(addr, v), *self));
        }
        v
    }

    fn write(&mut self, addr: u16, value: u8) {
        self.bus_write(addr, value)
    }
}

impl Machine for Nc2000Machine {
    open spec fn machine_inv(&self) -> bool {
        self.wf()
    }

    open spec fn machine_model(&self) -> MachineModel {
        MachineModel::Nc2000
    }

    open spec fn debug_byte(&self, addr: u16) -> u8 {
        self.peek_spec(addr)
    }

    open spec fn lcd_view(&self) -> Lcd {
        self.lcd
    }

    open spec fn asleep(&self) -> bool {
        false
    }

    open spec fn nor_image(&self) -> Option<Seq<u8>> {
        None
    }

    open spec fn firmware_identity(&self) -> u64 {
        0
    }


    fn model(&self) -> (r: MachineModel) {
        MachineModel::Nc2000
    }

    fn reset(&mut self)
        ensures
            old(self).reset_post(*final(self)),
    {
        Nc2000Machine::reset(self)
    }

    fn load_rom(&mut self, files: &RomFiles) -> (r: Result<(), MachineError>)
        ensures
            old(self).load_rom_post(*final(self), *files, r),
    {
        self.load_rom_impl(files)
    }

    fn set_key(&mut self, key_id: u8, pressed: bool)
        ensures
            old(self).set_key_post(*final(self), key_id, pressed),
    {
        Nc2000Machine::set_key(self, key_id, pressed)
    }

    fn is_sleeping(&self) -> (r: bool) {
        Nc2000Machine::is_sleeping(self)
    }

    fn step(&mut self, cpu: &mut Cpu) -> (n: u64)
        ensures
            old(self).step_post(*final(self), *old(cpu), *final(cpu), n),
    {
        Nc2000Machine::step(self, cpu)
    }

    fn end_of_frame(&mut self, cpu: &mut Cpu)
        ensures
            old(self).end_of_frame_post(*final(self), *old(cpu), *final(cpu)),
    {
        Nc2000Machine::end_of_frame(self, cpu)
    }

    fn peek(&self, addr: u16) -> (r: u8) {
        Nc2000Machine::peek(self, addr)
    }

    fn peek_u16(&self, addr: u16) -> (r: u16) {
        Nc2000Machine::peek_u16(self, addr)
    }

    fn lcd(&self) -> (r: &Lcd) {
        &self.lcd
    }

    fn drain_audio(&mut self, out: &mut Vec<i16>)
        ensures
            final(out)@ == old(out)@ + old(self).audio.output_buffer@,
            final(self).audio.output_buffer@.len() == 0,
    {
        Nc2000Machine::drain_audio(self, out)
    }

    fn load_nor(&mut self, data: &[u8]) -> (r: Result<(), MachineError>)
        ensures
            r == Err::<(), MachineError>(MachineError::NorUnsupported),
            *final(self) == *old(self),
    {
        Err(MachineError::NorUnsupported)
    }

    fn save_nor(&self) -> (r: Result<Vec<u8>, MachineError>) {
        Err(MachineError::NorUnsupported)
    }

    fn set_speed_up(&mut self, speed_up: bool) {
        // Only the NC1020 timer has a speed-up mode.
    }

    fn save_state(&self, cpu: &Cpu) -> (r: SaveState)
        ensures
            self.save_state_post(*cpu, r),
    {
        Nc2000Machine::save_state(self, cpu)
    }

    fn persistent_state_identity(&self) -> (r: u64) {
        0
    }

    fn load_state(&mut self, cpu: &mut Cpu, state: &SaveState)
        ensures
            old(self).load_state_post(*final(self), *final(cpu), *state),
    {
        Nc2000Machine::load_state(self, cpu, state)
    }
}

/// A CPU write to an address that RAM (main, second or extended) stands
/// behind is given back by the next CPU read of that address.
pub proof fn law_ram_write_then_read(m0: Nc2000Machine, m1: Nc2000Machine, m2: Nc2000Machine, addr: u16, value: u8, v: u8)
    requires
        m0.wf(),
        addr >= 0x40,
        map_spec(m0.io@, addr) matches Some(t) && (t is Ram || t is RamB || t is ExtRam),
        m0.bus_write_post(m1, addr, value),
        m1.bus_read_post(m2, addr, v),
    ensures
        v == value,
        m2 == m1,
{
    lemma_addr_fields(addr);
    assert(map_spec(m0.io@, addr) matches Some(t) && match t {
        MemTarget::Ram(o) => o < 0x6000,
        MemTarget::RamB(o) => o < 0x2000,
        MemTarget::ExtRam(o) => o < 0x8000,
        _ => true,
    });
}


/// The NC2000 draws its LCD from the fixed RAM window 0x19C0: at the end
/// of a frame the LCD holds the 1600 RAM bytes from there.
pub proof fn law_nc2000_frame_window(a: Nc2000Machine, b: Nc2000Machine, c0: Cpu, c1: Cpu)
    requires
        a.end_of_frame_post(b, c0, c1),
    ensures
        b.lcd.fb() == a.ram@.subrange(0x19C0int, 0x19C0int + 1600),
{
}

} // verus!
