//! CC800 machine (SPDC1016 SoC).
//!
//! ROM and NOR dumps are stored with every 32KB bank half-swapped (like
//! the NC1020), and the bank window page order differs from the PC1000:
//!
//!  0x0000-0x003F  IO registers
//!  0x0040-0x007F  zero-page switchable window (register 0x0F)
//!  0x0080-0x3FFF  RAM pages 0-1
//!  0x4000-0x5FFF  bank window page 0 (bank + 0x0000; RAM at boot)
//!  0x6000-0x7FFF  bank window page 1 (bank + 0x2000; RAM mirror at boot)
//!  0x8000-0x9FFF  bank window page 2 (bank + 0x4000)
//!  0xA000-0xBFFF  bank window page 3 (bank + 0x6000)
//!  0xC000-0xDFFF  BBS page (register 0x0A bits 0-3)
//!  0xE000-0xFFFF  fixed BIOS page (volume bank 0 + 0x2000)
//!
//! ROM: 16MB `obj.bin`; volume 0 covers banks 0-255, volume 1 banks
//! 256-511.  NOR Flash is 512KB in 16 banks of 32KB.  The keypad is an
//! 8x8 matrix read through the port conduction model of the SoC.

use vstd::prelude::*;
use crate::bits::{lemma_addr_fields, lemma_byte_fields, lemma_byte_pair, lemma_timer_fields, lemma_word_halves};
use crate::audio::Audio;
use crate::bytes::{half_swap, law_half_swap_involution, swap_halves, copy_into, fill_all, filled};
use crate::cpu_laws::lemma_step_cycles;
use crate::cpu::{BusEvent, Cpu, CpuBus, s_step, serves_all, FLAG_I, FLAG_U, RESET_VECTOR};
use crate::lcd::Lcd;
use crate::machine::{Machine, MachineModel, MachineError, RomFiles};
use crate::save::{fnv1a, persistent_identity, SaveState};
use crate::timer::Timer;
use crate::input::Input;
use crate::flash::Flash;

use crate::pc1000::{page_ok, page_ok_byte, pc_timers_after_write, play_spec};
use crate::spdc::{
    NorCmd,
    NorState,
    Page,
    SpdcTimers,
    nor_read,
    nor_read_spec,
    nor_write,
    nor_write_spec,
    periodic_post,
    tick_periodic,
    zp_offset,
    zp_offset_spec,
    INT_TIMER_A,
};

verus! {

/// ROM bank size (32KB).
pub const BANK_SIZE: usize = 0x8000;
/// ROM size (16MB obj.bin).
pub const ROM_SIZE: usize = 0x100_0000;
/// NOR Flash size (512KB).
pub const NOR_SIZE: usize = 0x8_0000;
/// Number of ROM banks per volume.
pub const NUM_ROM_BANKS: usize = 256;
/// Internal RAM size (64KB).
pub const RAM_SIZE: usize = 0x1_0000;

/// CC800 machine.
pub struct Cc800Machine {
    pub ram: Vec<u8>,
    pub rom: Vec<u8>,
    pub nor: Vec<u8>,
    pub nor_info_block: [u8; 0x100],
    pub io: [u8; 0x80],
    /// Volume bank base tables (bank index -> ROM offset).
    pub vol0: [usize; 256],
    pub vol1: [usize; 256],
    /// BBS page targets for the current volume.
    pub bbs: [Page; 16],
    /// Window targets of the eight 8KB pages (pages 2-7 are banked).
    pub win: [Page; 8],
    /// Zero-page 0x40-0x7F base offset inside RAM.
    pub zp_off: usize,
    pub lcd_buff_addr: u16,
    /// Keypad matrix, `row * 8 + col`: 0 released, 1 pressed, 2 no key.
    pub keypad_matrix: [u8; 64],
    pub w08_port0_ol: u8,
    pub r08_port0_id: u8,
    pub w09_port1_ol: u8,
    pub r09_port1_id: u8,
    pub w15_port1_dir: u8,
    pub timers: SpdcTimers,
    /// NOR programming state
    pub fp_step: u8,
    pub fp_type: NorCmd,
    /// Audio / LCD-off standby
    pub is_play_music: bool,
    pub music_sample: i16,
    pub lcd_off: bool,
    pub do_warm_reset: bool,
    pub audio: Audio,
    pub lcd: Lcd,
}

/// Base ROM offset of `bank` in the volume selected by register 0x0D.
pub open spec fn cc_vol_base(io: Seq<u8>, bank: int) -> usize {
    (if io[0x0D] & 0x01 == 0 { bank * 0x8000 } else { (256 + bank) * 0x8000 }) as usize
}

/// BBS page `j`: page 0 is bank 0, page 1 RAM (volume 0) or NOR page 1
/// (volume 1), pages 2-3 the upper half of bank 0, then banks 1-3 in
/// 8KB quarters.
pub open spec fn cc_bbs(io: Seq<u8>, j: int) -> Page {
    let v0 = cc_vol_base(io, 0);
    if j == 0 {
        Page::Rom(v0)
    } else if j == 1 {
        if io[0x0D] & 0x01 == 0 { Page::Ram(0x4000) } else { Page::Nor(0x2000) }
    } else if j == 2 {
        Page::Rom((v0 + 0x4000) as usize)
    } else if j == 3 {
        Page::Rom((v0 + 0x6000) as usize)
    } else {
        Page::Rom((cc_vol_base(io, (j - 4) / 4 + 1) + ((j - 4) % 4) * 0x2000) as usize)
    }
}

/// A window into the NOR (when `roa`) or into the ROM.
pub open spec fn from_base_spec(roa: bool, offset: int) -> Page {
    if roa { Page::Nor(offset as usize) } else { Page::Rom(offset as usize) }
}

/// Target of banked page `i` (2-7) for the registers `io`.
pub open spec fn cc_window(io: Seq<u8>, i: int) -> Page {
    let bank = io[0x00];
    let roa = io[0x0A] & 0x80 != 0;
    let vol0 = io[0x0D] & 0x01 == 0;
    let base: int = if roa { (bank & 0x0F) * 0x8000 } else { cc_vol_base(io, bank as int) as int };
    if i == 6 {
        cc_bbs(io, (io[0x0A] & 0x0F) as int)
    } else if i == 7 {
        Page::Rom((cc_vol_base(io, 0) + 0x2000) as usize)
    } else if (i == 2 || i == 3) && bank == 0 && !roa {
        if vol0 {
            Page::Ram(0x4000)
        } else {
            Page::Nor(if i == 2 { 0usize } else { 0x2000usize })
        }
    } else {
        from_base_spec(roa, base + (i - 2) * 0x2000)
    }
}

/// Keys of a matrix position that conduct: what bit it adds to port 0 and
/// port 1 inputs.
pub open spec fn cc_contrib(key: u8, y: int, x: int, p1c: u8, p0c: u8, p1d: u8, p0d: u8) -> (u8, u8) {
    let ybit = 1u8 << (y as u8);
    let xbit = 1u8 << (x as u8);
    let y_send = p1c & ybit != 0;
    let p0cb: u8 = if x < 2 { xbit << 4u8 } else if x < 4 { 0x40 } else { 0x80 };
    let active = if y < 2 && (p1d == 0x02 || p1d == 0x01) { key != 1 } else { key != 2 && key != 0 };
    if active && y_send {
        if p1d & ybit != 0 && p0c & p0cb == 0 { (xbit, 0u8) } else { (0u8, 0u8) }
    } else if active && p0d & xbit != 0 && p0c & p0cb != 0 {
        (0u8, xbit)
    } else {
        (0u8, 0u8)
    }
}

/// Conducted bits of the first `n` matrix positions (row-major).
pub open spec fn cc_dest(m: Seq<u8>, n: nat, p1c: u8, p0c: u8, p1d: u8, p0d: u8) -> (u8, u8)
    decreases n,
{
    if n == 0 {
        (0u8, 0u8)
    } else {
        let (a, b) = cc_dest(m, (n - 1) as nat, p1c, p0c, p1d, p0d);
        let k = n - 1;
        let (c, d) = cc_contrib(m[k], k / 8, k % 8, p1c, p0c, p1d, p0d);
        (a | c, b | d)
    }
}

/// Port 0 and port 1 input registers for the matrix `m`, port-1
/// direction `p1c`, port-0 direction bits `p0c` and output latches.
pub open spec fn cc_keypad(m: Seq<u8>, p1c: u8, p0c: u8, w09: u8, w08: u8) -> (u8, u8) {
    let (d0, d1) = cc_dest(m, 64, p1c, p0c, w09, w08);
    let p1 = if p1c != 0xFF { w09 & p1c } else { w09 };
    let mask = ((p0c >> 4u8) & 0x03) | (if p0c & 0x40 != 0 { 0x0Cu8 } else { 0u8 }) | (if p0c & 0x80 != 0 {
        0xF0u8
    } else {
        0u8
    });
    let p0 = if p1c != 0xF0 { w08 & mask } else { w08 };
    (p0 | d0, p1 | d1)
}

/// Released-key bits of the first `n` columns of `row`.
pub open spec fn hot_bits(m: Seq<u8>, row: int, n: nat) -> u8
    decreases n,
{
    if n == 0 {
        0u8
    } else {
        let b = hot_bits(m, row, (n - 1) as nat);
        let c = n - 1;
        if m[row * 8 + c] != 1 { b | (1u8 << (c as u8)) } else { b }
    }
}

/// Hotkey row data of the inverted rows 0/1: the released-key bits, with
/// all released reading as 0.
pub open spec fn hotkey_spec(m: Seq<u8>, row: int) -> u8 {
    let b = hot_bits(m, row, 8);
    if b == 0xFF { 0 } else { b }
}

impl Cc800Machine {
    /// Buffer sizes, fixed volume tables and window targets inside their
    /// storage.
    pub open spec fn wf(&self) -> bool {
        &&& self.ram@.len() == RAM_SIZE
        &&& self.nor@.len() == NOR_SIZE
        &&& self.rom@.len() == ROM_SIZE
        &&& forall|k: int| 0 <= k < 256 ==> #[trigger] self.vol0@[k] == k * 0x8000
        &&& forall|k: int| 0 <= k < 256 ==> #[trigger] self.vol1@[k] == (256 + k) * 0x8000
        &&& self.win@[0] == Page::Ram(0) && self.win@[1] == Page::Ram(0)
        &&& forall|i: int|
            0 <= i < 8 ==> #[trigger] page_ok(self.win@[i], self.ram@.len(), self.rom@.len(), self.nor@.len())
        &&& forall|j: int|
            0 <= j < 16 ==> #[trigger] page_ok(self.bbs@[j], self.ram@.len(), self.rom@.len(), self.nor@.len())
        &&& self.zp_off <= 0x2C0
        &&& self.timers.wf()
        &&& self.audio.wf()
        &&& self.lcd.wf()
        &&& (self.music_sample == 1 || self.music_sample == -1)
    }

    /// Target of CPU address `addr` (the IO registers are not intercepted).
    pub open spec fn map_spec(&self, addr: u16) -> Page {
        if addr < 0x80 {
            Page::Ram((self.zp_off + (addr & 0x3F)) as usize)
        } else if addr < 0x4000 {
            Page::Ram(addr as usize)
        } else {
            let off = (addr & 0x1FFF) as int;
            match self.win@[(addr >> 13u16) as int] {
                Page::Ram(b) => Page::Ram((b + off) as usize),
                Page::Rom(b) => Page::Rom((b + off) as usize),
                Page::Nor(b) => Page::Nor((b + off) as usize),
            }
        }
    }

    /// Byte a debugger read of `addr` sees.
    pub open spec fn peek_spec(&self, addr: u16) -> u8 {
        if addr < 0x40 {
            self.io@[addr as int]
        } else {
            match self.map_spec(addr) {
                Page::Ram(o) => self.ram@[o as int],
                Page::Rom(o) => self.rom@[o as int],
                Page::Nor(o) => self.nor@[o as int],
            }
        }
    }

    /// Current NOR command state.
    pub open spec fn nor_state(&self) -> NorState {
        NorState { step: self.fp_step, cmd: self.fp_type, nor: self.nor@, info: self.nor_info_block@, dirty: false }
    }

    /// What a machine built from `files` holds: the images as loaded and
    /// the power-on state around them.
    pub open spec fn built_from(&self, files: RomFiles) -> bool {
        &&& self.rom@ == match files.rom {
            Some(d) => half_swap(d@.subrange(0, ROM_SIZE as int)),
            None => Seq::new(ROM_SIZE as nat, |i: int| 0u8),
        }
        &&& self.nor@ == match files.nor {
            Some(d) => half_swap(d@.subrange(0, NOR_SIZE as int)),
            None => Seq::new(NOR_SIZE as nat, |i: int| 0xFFu8),
        }
        &&& self.nor_info_block@ == self.nor@.subrange(0, 0x100)
        &&& self.ram@ == Seq::new(RAM_SIZE as nat, |i: int| 0u8)
        &&& self.win@[0] == Page::Ram(0) && self.win@[1] == Page::Ram(0)
        &&& forall|i: int| 2 <= i < 8 ==> #[trigger] self.win@[i] == cc_window(self.io@, i)
        &&& forall|j: int| 0 <= j < 16 ==> #[trigger] self.bbs@[j] == cc_bbs(self.io@, j)
        &&& !self.lcd_off && !self.do_warm_reset && !self.is_play_music
    }

    /// Create the machine and load its ROM files.
    pub fn new(files: &RomFiles) -> (r: Result<Self, MachineError>)
        ensures
            r matches Ok(m) ==> m.wf() && m.io@ == Seq::new(0x80, |i: int| 0u8) && m.zp_off == 0x40
                && m.fp_step == 0 && m.fp_type == NorCmd::NoCommand,
            r is Err <==> (files.rom is Some && files.rom.unwrap()@.len() < ROM_SIZE) || (files.nor is Some
                && files.nor.unwrap()@.len() < NOR_SIZE),
            files.rom is Some && files.rom.unwrap()@.len() < ROM_SIZE ==> r == Err::<Self, MachineError>(
                MachineError::RomTooSmall { expected: ROM_SIZE, got: files.rom.unwrap()@.len() as usize },
            ),
            !(files.rom is Some && files.rom.unwrap()@.len() < ROM_SIZE) && files.nor is Some
                && files.nor.unwrap()@.len() < NOR_SIZE ==> r == Err::<Self, MachineError>(
                MachineError::NorTooSmall { expected: NOR_SIZE, got: files.nor.unwrap()@.len() as usize },
            ),
            r matches Ok(m) ==> m.built_from(*files),
    {
        let mut vol0: [usize; 256] = [0; 256];
        let mut vol1: [usize; 256] = [0; 256];
        let mut b: usize = 0;
        while b < NUM_ROM_BANKS
            invariant
                b <= 256,
                forall|k: int| 0 <= k < b ==> #[trigger] vol0@[k] == k * 0x8000,
                forall|k: int| 0 <= k < b ==> #[trigger] vol1@[k] == (256 + k) * 0x8000,
            decreases 256 - b,
        {
            vol0[b] = b * BANK_SIZE;
            vol1[b] = (NUM_ROM_BANKS + b) * BANK_SIZE;
            b += 1;
        }
        let mut m = Cc800Machine {
            ram: vec![0; RAM_SIZE],
            rom: vec![0; ROM_SIZE],
            nor: vec![0xFF; NOR_SIZE],
            nor_info_block: filled(0),
            io: filled(0),
            vol0,
            vol1,
            bbs: [Page::Ram(0); 16],
            win: [Page::Ram(0); 8],
            zp_off: 0x40,
            lcd_buff_addr: 0x09C0,
            keypad_matrix: filled(2),
            w08_port0_ol: 0,
            r08_port0_id: 0,
            w09_port1_ol: 0,
            r09_port1_id: 0,
            w15_port1_dir: 0,
            timers: SpdcTimers::new(),
            fp_step: 0,
            fp_type: NorCmd::NoCommand,
            is_play_music: false,
            music_sample: 1,
            lcd_off: false,
            do_warm_reset: false,
            audio: Audio::new(),
            lcd: Lcd::new(),
        };
        proof {
            assert(m.io@ =~= Seq::new(0x80, |i: int| 0u8));
            assert(m.rom@ =~= Seq::new(ROM_SIZE as nat, |i: int| 0u8));
            assert(m.nor@ =~= Seq::new(NOR_SIZE as nat, |i: int| 0xFFu8));
            assert(m.ram@ =~= Seq::new(RAM_SIZE as nat, |i: int| 0u8));
        }
        m.update_map();
        match m.load_rom_impl(files) {
            Ok(()) => Ok(m),
            Err(e) => Err(e),
        }
    }

    /// What loading the images does: the first image that is too short is
    /// refused, with nothing changed by it or after it; the ROM takes the
    /// dump's first 16MB and the NOR its first 512KB, each with the 16KB
    /// halves of every bank swapped back; the info block is refreshed from
    /// the NOR.
    pub open spec fn load_rom_post(&self, after: Self, files: RomFiles, r: Result<(), MachineError>) -> bool {
        let rom_short = files.rom is Some && files.rom.unwrap()@.len() < ROM_SIZE;
        let nor_short = files.nor is Some && files.nor.unwrap()@.len() < NOR_SIZE;
        let mid = match files.rom {
            Some(d) => Cc800Machine { rom: after.rom, ..*self },
            None => *self,
        };
        if rom_short {
            &&& r == Err::<(), MachineError>(
                MachineError::RomTooSmall { expected: ROM_SIZE, got: files.rom.unwrap()@.len() as usize },
            )
            &&& after == *self
        } else {
            &&& files.rom is Some ==> after.rom@ == half_swap(files.rom.unwrap()@.subrange(0, ROM_SIZE as int))
            &&& if nor_short {
                &&& r == Err::<(), MachineError>(
                    MachineError::NorTooSmall { expected: NOR_SIZE, got: files.nor.unwrap()@.len() as usize },
                )
                &&& after == mid
            } else {
                &&& r is Ok
                &&& after.nor@ == match files.nor {
                    Some(d) => half_swap(d@.subrange(0, NOR_SIZE as int)),
                    None => self.nor@,
                }
                &&& after.nor_info_block@ == after.nor@.subrange(0, 0x100)
                &&& after == (Cc800Machine { nor: after.nor, nor_info_block: after.nor_info_block, ..mid })
            }
        }
    }

    /// What loading a NOR dump does: one shorter than 512KB is refused and
    /// nothing changes; otherwise its first 512KB, halves swapped back,
    /// becomes the NOR image and the info block is refreshed.
    pub open spec fn load_nor_post(&self, after: Self, data: Seq<u8>, r: Result<(), MachineError>) -> bool {
        if data.len() < NOR_SIZE {
            &&& r == Err::<(), MachineError>(MachineError::NorTooSmall { expected: NOR_SIZE, got: data.len() as usize })
            &&& after == *self
        } else {
            &&& r is Ok
            &&& after.nor@ == half_swap(data.subrange(0, NOR_SIZE as int))
            &&& after.nor_info_block@ == after.nor@.subrange(0, 0x100)
            &&& after == (Cc800Machine { nor: after.nor, nor_info_block: after.nor_info_block, ..*self })
        }
    }

    /// Load ROM and NOR dumps: the ROM must hold at least 16MB and the NOR
    /// at least 512KB; both are half-swapped back.  The info block is the
    /// first 256 bytes of the NOR image.
    pub fn load_rom_impl(&mut self, files: &RomFiles) -> (r: Result<(), MachineError>)
        requires
            old(self).wf(),
        ensures
            final(self).wf(),
            old(self).load_rom_post(*final(self), *files, r),
            final(self).io == old(self).io,
            final(self).fp_step == old(self).fp_step,
            final(self).fp_type == old(self).fp_type,
            final(self).zp_off == old(self).zp_off,
            r is Err <==> (files.rom is Some && files.rom.unwrap()@.len() < ROM_SIZE) || (files.nor is Some
                && files.nor.unwrap()@.len() < NOR_SIZE),
            files.rom is Some && files.rom.unwrap()@.len() < ROM_SIZE ==> r == Err::<(), MachineError>(
                MachineError::RomTooSmall { expected: ROM_SIZE, got: files.rom.unwrap()@.len() as usize },
            ),
            !(files.rom is Some && files.rom.unwrap()@.len() < ROM_SIZE) && files.nor is Some
                && files.nor.unwrap()@.len() < NOR_SIZE ==> r == Err::<(), MachineError>(
                MachineError::NorTooSmall { expected: NOR_SIZE, got: files.nor.unwrap()@.len() as usize },
            ),
            r is Ok ==> {
                &&& files.rom is Some ==> final(self).rom@ == half_swap(files.rom.unwrap()@.subrange(0, ROM_SIZE as int))
                &&& files.rom is None ==> final(self).rom == old(self).rom
                &&& files.nor is Some ==> final(self).nor@ == half_swap(files.nor.unwrap()@.subrange(0, NOR_SIZE as int))
                &&& files.nor is None ==> final(self).nor == old(self).nor
                &&& final(self).nor_info_block@ == final(self).nor@.subrange(0, 0x100)
            },
    {
        match &files.rom {
            Some(data) => {
                if data.len() < ROM_SIZE {
                    return Err(MachineError::RomTooSmall { expected: ROM_SIZE, got: data.len() });
                }
                let head = vstd::slice::slice_subrange(data.as_slice(), 0, ROM_SIZE);
                self.rom = swap_halves(head);
            },
            None => {},
        }
        match &files.nor {
            Some(data) => {
                if data.len() < NOR_SIZE {
                    return Err(MachineError::NorTooSmall { expected: NOR_SIZE, got: data.len() });
                }
                let head = vstd::slice::slice_subrange(data.as_slice(), 0, NOR_SIZE);
                self.nor = swap_halves(head);
            },
            None => {},
        }
        self.copy_info_block();
        Ok(())
    }

    /// Take the info block from the start of the NOR image.
    fn copy_info_block(&mut self)
        requires
            old(self).nor@.len() == NOR_SIZE,
        ensures
            final(self).nor_info_block@ == old(self).nor@.subrange(0, 0x100),
            *final(self) == (Cc800Machine { nor_info_block: final(self).nor_info_block, ..*old(self) }),
    {
        let mut i: usize = 0;
        while i < 0x100
            invariant
                i <= 0x100,
                self.nor@.len() == NOR_SIZE,
                *self == (Cc800Machine { nor_info_block: self.nor_info_block, ..*old(self) }),
                forall|k: int| 0 <= k < i ==> self.nor_info_block@[k] == self.nor@[k],
            decreases 0x100 - i,
        {
            self.nor_info_block[i] = self.nor[i];
            i += 1;
        }
        proof {
            assert(self.nor_info_block@ =~= self.nor@.subrange(0, 0x100));
        }
    }

    /// Recompute the BBS pages and bank windows from the registers.
    pub fn update_map(&mut self)
        requires
            old(self).rom@.len() == ROM_SIZE,
            old(self).nor@.len() == NOR_SIZE,
            old(self).ram@.len() == RAM_SIZE,
            forall|k: int| 0 <= k < 256 ==> #[trigger] old(self).vol0@[k] == k * 0x8000,
            forall|k: int| 0 <= k < 256 ==> #[trigger] old(self).vol1@[k] == (256 + k) * 0x8000,
            old(self).win@[0] == Page::Ram(0) && old(self).win@[1] == Page::Ram(0),
        ensures
            forall|i: int| 2 <= i < 8 ==> #[trigger] final(self).win@[i] == cc_window(old(self).io@, i),
            forall|j: int| 0 <= j < 16 ==> #[trigger] final(self).bbs@[j] == cc_bbs(old(self).io@, j),
            final(self).win@[0] == Page::Ram(0) && final(self).win@[1] == Page::Ram(0),
            forall|i: int|
                0 <= i < 8 ==> #[trigger] page_ok(final(self).win@[i], final(self).ram@.len(), final(self).rom@.len(), final(self).nor@.len()),
            forall|j: int|
                0 <= j < 16 ==> #[trigger] page_ok(final(self).bbs@[j], final(self).ram@.len(), final(self).rom@.len(), final(self).nor@.len()),
            *final(self) == (Cc800Machine { win: final(self).win, bbs: final(self).bbs, ..*old(self) }),
    {
        let bank = self.io[0x00];
        let vol = self.io[0x0D] & 0x01;
        let roa = self.io[0x0A] & 0x80 != 0;
        let v0 = if vol == 0 { self.vol0[0] } else { self.vol1[0] };
        self.bbs[0] = Page::Rom(v0);
        self.bbs[1] = if vol == 0 { Page::Ram(0x4000) } else { Page::Nor(0x2000) };
        self.bbs[2] = Page::Rom(v0 + 0x4000);
        self.bbs[3] = Page::Rom(v0 + 0x6000);
        let ghost w = self.win;
        let mut i: usize = 0;
        while i < 3
            invariant
                i <= 3,
                vol == self.io@[0x0D] & 0x01,
                v0 == cc_vol_base(self.io@, 0),
                self.io == old(self).io,
                self.vol0 == old(self).vol0,
                self.vol1 == old(self).vol1,
                self.win == w,
                forall|k: int| 0 <= k < 256 ==> #[trigger] self.vol0@[k] == k * 0x8000,
                forall|k: int| 0 <= k < 256 ==> #[trigger] self.vol1@[k] == (256 + k) * 0x8000,
                forall|j: int| 0 <= j < 4 + 4 * i ==> #[trigger] self.bbs@[j] == cc_bbs(self.io@, j),
                *self == (Cc800Machine { win: self.win, bbs: self.bbs, ..*old(self) }),
            decreases 3 - i,
        {
            let base = if vol == 0 { self.vol0[i + 1] } else { self.vol1[i + 1] };
            self.bbs[i * 4 + 4] = Page::Rom(base);
            self.bbs[i * 4 + 5] = Page::Rom(base + 0x2000);
            self.bbs[i * 4 + 6] = Page::Rom(base + 0x4000);
            self.bbs[i * 4 + 7] = Page::Rom(base + 0x6000);
            proof {
                assert forall|j: int| 4 + 4 * i <= j < 8 + 4 * i implies #[trigger] self.bbs@[j] == cc_bbs(self.io@, j) by {
                    assert((j - 4) / 4 == i && (j - 4) % 4 == j - 4 - 4 * i);
                }
            }
            i += 1;
        }
        let base: usize = if roa {
            proof {
                lemma_byte_fields(bank);
            }
            (bank as usize & 0x0F) * BANK_SIZE
        } else if vol == 0 {
            self.vol0[bank as usize]
        } else {
            self.vol1[bank as usize]
        };
        if bank == 0 && !roa {
            if vol == 0 {
                self.win[2] = Page::Ram(0x4000);
                self.win[3] = Page::Ram(0x4000);
            } else {
                self.win[2] = Page::Nor(0x0000);
                self.win[3] = Page::Nor(0x2000);
            }
        } else {
            self.win[2] = Page::from_base(roa, base);
            self.win[3] = Page::from_base(roa, base + 0x2000);
        }
        self.win[4] = Page::from_base(roa, base + 0x4000);
        self.win[5] = Page::from_base(roa, base + 0x6000);
        let bbs_idx = (self.io[0x0A] & 0x0F) as usize;
        proof {
            let ra = self.io@[0x0A];
            lemma_byte_fields(ra);
        }
        self.win[6] = self.bbs[bbs_idx];
        self.win[7] = Page::Rom(v0 + 0x2000);
        proof {
            assert forall|j: int| 0 <= j < 16 implies #[trigger] page_ok(
                self.bbs@[j],
                self.ram@.len(),
                self.rom@.len(),
                self.nor@.len(),
            ) by {
                if j >= 4 {
                    assert(0 <= (j - 4) / 4 < 3 && 0 <= (j - 4) % 4 < 4);
                }
            }
        }
    }

    /// Resolve a CPU address to a memory window target (no IO side effects).
    pub fn map_addr(&self, addr: u16) -> (r: Page)
        requires
            self.wf(),
        ensures
            r == self.map_spec(addr),
            page_ok_byte(r, self.ram@.len(), self.rom@.len(), self.nor@.len()),
    {
        if addr < 0x80 {
            proof {
                lemma_addr_fields(addr);
            }
            Page::Ram(self.zp_off + (addr as usize & 0x3F))
        } else if addr < 0x4000 {
            Page::Ram(addr as usize)
        } else {
            let page = (addr >> 13) as usize;
            let off = (addr & 0x1FFF) as usize;
            proof {
                lemma_addr_fields(addr);
                assert(page_ok(self.win@[page as int], self.ram@.len(), self.rom@.len(), self.nor@.len()));
            }
            match self.win[page] {
                Page::Ram(b) => Page::Ram(b + off),
                Page::Rom(b) => Page::Rom(b + off),
                Page::Nor(b) => Page::Nor(b + off),
            }
        }
    }

    /// Read a memory/IO address for debugging (no side effects).
    pub fn peek(&self, addr: u16) -> (r: u8)
        requires
            self.wf(),
        ensures
            r == self.peek_spec(addr),
    {
        if addr < 0x40 {
            return self.io[addr as usize];
        }
        match self.map_addr(addr) {
            Page::Ram(o) => self.ram[o],
            Page::Rom(o) => self.rom[o],
            Page::Nor(o) => self.nor[o],
        }
    }

    /// Read a little-endian 16-bit word for debugging.
    pub fn peek_u16(&self, addr: u16) -> (r: u16)
        requires
            self.wf(),
        ensures
            r == self.peek_spec(addr) as u16 + 256 * self.peek_spec(addr.wrapping_add(1)) as u16,
    {
        let lo = self.peek(addr) as u16;
        let hi = self.peek(addr.wrapping_add(1)) as u16;
        proof {
            lemma_word_halves(lo, hi);
        }
        (hi << 8) | lo
    }

    /// Hotkey row data for the inverted rows 0/1 (all released reads 0).
    pub fn hotkey_row_data(&self, row: usize) -> (r: u8)
        requires
            row < 8,
        ensures
            r == hotkey_spec(self.keypad_matrix@, row as int),
    {
        let mut bits: u8 = 0;
        let mut col: usize = 0;
        while col < 8
            invariant
                col <= 8,
                row < 8,
                bits == hot_bits(self.keypad_matrix@, row as int, col as nat),
            decreases 8 - col,
        {
            if self.keypad_matrix[row * 8 + col] != 1 {
                bits = bits | (1u8 << (col as u8));
            }
            col += 1;
        }
        if bits == 0xFF {
            0
        } else {
            bits
        }
    }

    /// Port conduction update of the 8x8 matrix: recompute the port 0 and
    /// port 1 input registers.
    pub fn update_keypad_registers(&mut self)
        ensures
            (final(self).r08_port0_id, final(self).r09_port1_id) == cc_keypad(
                old(self).keypad_matrix@,
                old(self).w15_port1_dir,
                old(self).io@[0x0F] & 0xF0,
                old(self).w09_port1_ol,
                old(self).w08_port0_ol,
            ),
            *final(self) == (Cc800Machine {
                r08_port0_id: final(self).r08_port0_id,
                r09_port1_id: final(self).r09_port1_id,
                ..*old(self)
            }),
    {
        let port1_control = self.w15_port1_dir;
        let port0_control = self.io[0x0F] & 0xF0;
        let port1_data = self.w09_port1_ol;
        let port0_data = self.w08_port0_ol;
        let mut tmp_dest0: u8 = 0;
        let mut tmp_dest1: u8 = 0;
        let mut k: usize = 0;
        while k < 64
            invariant
                k <= 64,
                (tmp_dest0, tmp_dest1) == cc_dest(self.keypad_matrix@, k as nat, port1_control, port0_control, port1_data, port0_data),
            decreases 64 - k,
        {
            let y = k / 8;
            let x = k % 8;
            let ybit = 1u8 << (y as u8);
            let xbit = 1u8 << (x as u8);
            let y_send = port1_control & ybit != 0;
            let p0cb: u8 = if x < 2 { xbit << 4u8 } else if x < 4 { 0x40 } else { 0x80 };
            let key = self.keypad_matrix[k];
            let active = if y < 2 && (port1_data == 0x02 || port1_data == 0x01) { key != 1 } else { key != 2 && key != 0 };
            let (c, d): (u8, u8) = if active && y_send {
                if port1_data & ybit != 0 && port0_control & p0cb == 0 { (xbit, 0u8) } else { (0u8, 0u8) }
            } else if active && port0_data & xbit != 0 && port0_control & p0cb != 0 {
                (0u8, xbit)
            } else {
                (0u8, 0u8)
            };
            tmp_dest0 = tmp_dest0 | c;
            tmp_dest1 = tmp_dest1 | d;
            k += 1;
        }
        let mut p1 = self.w09_port1_ol;
        let mut p0 = self.w08_port0_ol;
        if port1_control != 0xFF {
            p1 = p1 & port1_control;
        }
        if port1_control != 0xF0 {
            let port0_mask = ((port0_control >> 4) & 0x03) | (if port0_control & 0x40 != 0 { 0x0Cu8 } else { 0u8 }) | (
            if port0_control & 0x80 != 0 {
                0xF0u8
            } else {
                0u8
            });
            p0 = p0 & port0_mask;
        }
        self.r09_port1_id = p1 | tmp_dest1;
        self.r08_port0_id = p0 | tmp_dest0;
    }
}

/// IO registers after a write of `value` to register `addr` (matrix `m`).
pub open spec fn cc_io_regs(io: Seq<u8>, addr: u8, value: u8, m: Seq<u8>) -> Seq<u8> {
    if addr == 0x01 {
        io.update(0x40, value)
    } else if addr == 0x20 {
        io.update(0x20, if value == 0x80 || value == 0x40 { 0u8 } else { value })
    } else {
        let io1 = io.update(addr as int, value);
        if addr == 0x08 {
            let io2 = io1.update(0x41, value);
            let lcd_dot = hotkey_spec(m, 1) == value || value == 0 || hotkey_spec(m, 0) == 0xFB;
            io2.update(0x0B, if lcd_dot { io2[0x0B] & 0xFE } else { io2[0x0B] | 0x01 })
        } else if addr == 0x09 && value == 0x02 {
            io1.update(0x08, hotkey_spec(m, 1))
        } else if addr == 0x09 && value == 0x01 {
            io1.update(0x08, hotkey_spec(m, 0))
        } else {
            io1
        }
    }
}

impl Cc800Machine {
    /// The state after an IO register write, relative to the state `o`
    /// before it.
    pub open spec fn io_write_post(&self, o: Self, addr: u8, value: u8) -> bool {
        let m = o.keypad_matrix@;
        let io2 = cc_io_regs(o.io@, addr, value, m);
        let remap = addr == 0x00 || addr == 0x0A || addr == 0x0D;
        let w08 = if addr == 0x08 {
            value
        } else if addr == 0x09 && value == 0x02 {
            hotkey_spec(m, 1)
        } else if addr == 0x09 && value == 0x01 {
            hotkey_spec(m, 0)
        } else {
            o.w08_port0_ol
        };
        let w09 = if addr == 0x09 { value } else { o.w09_port1_ol };
        let w15 = if addr == 0x15 { value } else { o.w15_port1_dir };
        let rescan = addr == 0x08 || addr == 0x09 || addr == 0x15;
        &&& self.io@ == io2
        &&& remap ==> {
            &&& forall|i: int| 2 <= i < 8 ==> #[trigger] self.win@[i] == cc_window(io2, i)
            &&& forall|j: int| 0 <= j < 16 ==> #[trigger] self.bbs@[j] == cc_bbs(io2, j)
            &&& self.win@[0] == o.win@[0] && self.win@[1] == o.win@[1]
        }
        &&& !remap ==> self.win == o.win && self.bbs == o.bbs
        &&& self.timers == pc_timers_after_write(o.timers, addr, value)
        &&& self.lcd_off == (o.lcd_off || (addr == 0x05 && o.io@[0x05] & 0x08 != 0 && value & 0x0F == 0))
        &&& self.lcd_buff_addr == if addr == 0x06 { ((value as u16) * 16) as u16 } else { o.lcd_buff_addr }
        &&& self.is_play_music == if addr == 0x07 || addr == 0x19 { play_spec(io2) } else { o.is_play_music }
        &&& self.zp_off == if addr == 0x0F { zp_offset_spec(value) } else { o.zp_off }
        &&& self.music_sample == if addr == 0x18 && o.is_play_music {
            if value & 0x80 != 0 { 1i16 } else { -1i16 }
        } else {
            o.music_sample
        }
        &&& self.w08_port0_ol == w08
        &&& self.w09_port1_ol == w09
        &&& self.w15_port1_dir == w15
        &&& (self.r08_port0_id, self.r09_port1_id) == if rescan {
            cc_keypad(m, w15, io2[0x0F] & 0xF0, w09, w08)
        } else {
            (o.r08_port0_id, o.r09_port1_id)
        }
        &&& *self == (Cc800Machine {
            io: self.io,
            win: self.win,
            bbs: self.bbs,
            timers: self.timers,
            lcd_off: self.lcd_off,
            lcd_buff_addr: self.lcd_buff_addr,
            is_play_music: self.is_play_music,
            zp_off: self.zp_off,
            music_sample: self.music_sample,
            w08_port0_ol: self.w08_port0_ol,
            w09_port1_ol: self.w09_port1_ol,
            w15_port1_dir: self.w15_port1_dir,
            r08_port0_id: self.r08_port0_id,
            r09_port1_id: self.r09_port1_id,
            ..o
        })
    }

    /// Value an IO register read returns.
    pub open spec fn io_read_value(&self, addr: u8) -> u8 {
        let k = cc_keypad(
            self.keypad_matrix@,
            self.w15_port1_dir,
            self.io@[0x0F] & 0xF0,
            self.w09_port1_ol,
            self.w08_port0_ol,
        );
        if addr == 0x08 {
            k.0
        } else if addr == 0x09 {
            k.1
        } else {
            self.io@[addr as int]
        }
    }

    /// Music playback enable check (port config 0x07 vs CTV select 0x19).
    fn check_play(&mut self)
        ensures
            *final(self) == (Cc800Machine { is_play_music: play_spec(old(self).io@), ..*old(self) }),
    {
        let play = self.io[0x07] & 0x80 != 0 && self.io[0x19] & 0x80 == 0;
        self.is_play_music = play;
    }

    /// IO register read: 0x01 clears the interrupt flags (keeping the two
    /// latched high bits), 0x04/0x05 stop/start Timer 0, 0x06/0x07
    /// stop/start Timer 1, 0x08/0x09 rescan the keypad.
    pub fn io_read(&mut self, addr: u8) -> (r: u8)
        requires
            old(self).wf(),
            addr < 0x80,
        ensures
            final(self).wf(),
            r == old(self).io_read_value(addr),
            final(self).io@ == if addr == 0x01 { old(self).io@.update(0x01, old(self).io@[0x01] & 0xC0) } else { old(self).io@ },
            final(self).timers == if addr == 0x04 || addr == 0x05 {
                SpdcTimers { timer0run: addr == 0x05, ..old(self).timers }
            } else if addr == 0x06 || addr == 0x07 {
                SpdcTimers { timer1run: addr == 0x07, ..old(self).timers }
            } else {
                old(self).timers
            },
            (final(self).r08_port0_id, final(self).r09_port1_id) == if addr == 0x08 || addr == 0x09 {
                cc_keypad(
                    old(self).keypad_matrix@,
                    old(self).w15_port1_dir,
                    old(self).io@[0x0F] & 0xF0,
                    old(self).w09_port1_ol,
                    old(self).w08_port0_ol,
                )
            } else {
                (old(self).r08_port0_id, old(self).r09_port1_id)
            },
            *final(self) == (Cc800Machine {
                io: final(self).io,
                timers: final(self).timers,
                r08_port0_id: final(self).r08_port0_id,
                r09_port1_id: final(self).r09_port1_id,
                ..*old(self)
            }),
    {
        let reg = addr as usize;
        match addr {
            0x01 => {
                let value = self.io[reg];
                self.io[reg] = value & 0xC0;
                value
            },
            0x04 => {
                self.timers.timer0run = false;
                self.io[reg]
            },
            0x05 => {
                self.timers.timer0run = true;
                self.io[reg]
            },
            0x06 => {
                self.timers.timer1run = false;
                self.io[reg]
            },
            0x07 => {
                self.timers.timer1run = true;
                self.io[reg]
            },
            0x08 => {
                self.update_keypad_registers();
                self.r08_port0_id
            },
            0x09 => {
                self.update_keypad_registers();
                self.r09_port1_id
            },
            _ => self.io[reg],
        }
    }

    /// IO register write.
    pub fn io_write(&mut self, addr: u8, value: u8)
        requires
            old(self).wf(),
            addr < 0x80,
        ensures
            final(self).wf(),
            final(self).io_write_post(*old(self), addr, value),
    {
        let reg = addr as usize;
        match addr {
            0x00 | 0x0A | 0x0D => {
                self.io[reg] = value;
                self.update_map();
            },
            0x01 => {
                // Interrupt enable register (shadow byte 0x40).
                self.io[0x40] = value;
            },
            0x02 => {
                self.io[reg] = value;
                let v = value as u16 + self.timers.tm0r;
                self.timers.tm0v = if v > 255 { 255 } else { v };
                self.timers.tm0r = 0;
            },
            0x03 => {
                self.io[reg] = value;
                self.timers.tm1v2 = value as u16 * 2;
            },
            0x05 => {
                // Clock control: clearing the low nibble (while bit 3 was
                // set) turns the LCD off and enters standby.
                if self.io[reg] & 0x08 != 0 && value & 0x0F == 0 {
                    self.lcd_off = true;
                }
                self.io[reg] = value;
            },
            0x06 => {
                self.io[reg] = value;
                self.lcd_buff_addr = (value as u16) << 4;
                proof {
                    lemma_byte_pair(value, 0);
                }
            },
            0x07 | 0x19 => {
                self.io[reg] = value;
                self.check_play();
            },
            0x08 => {
                self.io[reg] = value;
                self.w08_port0_ol = value;
                self.io[0x41] = value;
                // The LCD dot-out direction bit follows the hotkey rows.
                let row6data = self.hotkey_row_data(1);
                let row7data = self.hotkey_row_data(0);
                let rb = self.io[0x0B];
                if row6data == value || value == 0 || row7data == 0xFB {
                    self.io[0x0B] = rb & 0xFE;
                } else {
                    self.io[0x0B] = rb | 0x01;
                }
                self.update_keypad_registers();
            },
            0x09 => {
                self.io[reg] = value;
                self.w09_port1_ol = value;
                // Rows 0/1 (hotkeys and power) are inverted and read
                // directly; the others go through the conduction model.
                if value == 0x02 {
                    let data = self.hotkey_row_data(1);
                    self.w08_port0_ol = data;
                    self.io[0x08] = data;
                } else if value == 0x01 {
                    let data = self.hotkey_row_data(0);
                    self.w08_port0_ol = data;
                    self.io[0x08] = data;
                }
                self.update_keypad_registers();
            },
            0x0F => {
                self.io[reg] = value;
                self.zp_off = zp_offset(value);
            },
            0x10 => {
                self.io[reg] = value;
                let r = self.timers.tma_reload;
                proof {
                    lemma_timer_fields(r, value);
                }
                self.timers.tma_reload = (r & 0xFF00) | value as u32;
            },
            0x11 => {
                self.io[reg] = value;
                let r = self.timers.tma_reload;
                proof {
                    lemma_timer_fields(r, value);
                }
                self.timers.tma_reload = (r & 0x00FF) | (value as u32) << 8;
                self.timers.tma_value = self.timers.tma_reload;
            },
            0x15 => {
                self.io[reg] = value;
                self.w15_port1_dir = value;
                self.update_keypad_registers();
            },
            0x18 => {
                self.io[reg] = value;
                if self.is_play_music {
                    self.music_sample = if value & 0x80 != 0 { 1 } else { -1 };
                }
            },
            0x20 => {
                // JG WAV control: 0x80/0x40 reset the waveform buffer.
                self.io[reg] = if value == 0x80 || value == 0x40 { 0 } else { value };
            },
            _ => {
                self.io[reg] = value;
            },
        }
        proof {
            assert(self.io@ =~= cc_io_regs(old(self).io@, addr, value, old(self).keypad_matrix@));
        }
    }

    /// What a CPU read of `addr` returning `r` does to the machine.
    pub open spec fn bus_read_post(&self, after: Self, addr: u16, r: u8) -> bool {
        &&& addr < 0x40 ==> r == self.io_read_value(addr as u8)
        &&& addr < 0x40 ==> after == (Cc800Machine {
                io: after.io,
                timers: after.timers,
                r08_port0_id: after.r08_port0_id,
                r09_port1_id: after.r09_port1_id,
                ..*self
            })
        &&& addr >= 0x40 ==> after == *self && r == match self.map_spec(addr) {
                Page::Ram(o) => self.ram@[o as int],
                Page::Rom(o) => self.rom@[o as int],
                Page::Nor(o) => nor_read_spec(self.fp_step, self.fp_type, self.nor@, self.nor_info_block@, addr, o, false),
            }
    }

    /// Execute a CPU read (with IO side effects).
    pub fn bus_read(&mut self, addr: u16) -> (r: u8)
        requires
            old(self).wf(),
        ensures
            final(self).wf(),
            old(self).bus_read_post(*final(self), addr, r),
    {
        if addr < 0x40 {
            return self.io_read(addr as u8);
        }
        match self.map_addr(addr) {
            Page::Ram(o) => self.ram[o],
            Page::Rom(o) => self.rom[o],
            Page::Nor(o) => nor_read(self.fp_step, self.fp_type, &self.nor, &self.nor_info_block, addr, o, false),
        }
    }

    /// What a CPU write of `value` to `addr` does to the machine.
    pub open spec fn bus_write_post(&self, after: Self, addr: u16, value: u8) -> bool {
        &&& addr < 0x40 ==> after.io_write_post(*self, addr as u8, value)
        &&& addr >= 0x40 ==> match self.map_spec(addr) {
                Page::Ram(o) => after.ram@ == self.ram@.update(o as int, value) && after == (Cc800Machine {
                    ram: after.ram,
                    ..*self
                }),
                Page::Rom(o) => after == *self,
                Page::Nor(o) => {
                    let t = nor_write_spec(self.nor_state(), addr, o, value, false);
                    &&& after.nor_state() == NorState { dirty: false, ..t }
                    &&& after == (Cc800Machine {
                        nor: after.nor,
                        nor_info_block: after.nor_info_block,
                        fp_step: after.fp_step,
                        fp_type: after.fp_type,
                        ..*self
                    })
                },
            }
    }

    /// Execute a CPU write: IO registers, RAM, or the NOR command sequence
    /// (ROM pages are read-only).
    pub fn bus_write(&mut self, addr: u16, value: u8)
        requires
            old(self).wf(),
        ensures
            final(self).wf(),
            old(self).bus_write_post(*final(self), addr, value),
    {
        if addr < 0x40 {
            self.io_write(addr as u8, value);
            return;
        }
        match self.map_addr(addr) {
            Page::Ram(o) => {
                self.ram[o] = value;
            },
            Page::Nor(o) => {
                let _ = nor_write(
                    &mut self.fp_step,
                    &mut self.fp_type,
                    &mut self.nor,
                    &mut self.nor_info_block,
                    addr,
                    o,
                    value,
                    false,
                );
            },
            Page::Rom(_) => {},
        }
    }

    /// Which model this machine implements.
    pub fn model(&self) -> (r: MachineModel)
        ensures
            r == MachineModel::Cc800,
    {
        MachineModel::Cc800
    }

    /// Whether the device is in (LCD-off) standby.
    pub fn is_sleeping(&self) -> (r: bool)
        ensures
            r == self.lcd_off,
    {
        self.lcd_off
    }

    /// What `set_key` does to the machine.
    pub open spec fn set_key_post(&self, after: Self, key_id: u8, pressed: bool) -> bool {
        &&& ({
                let row = key_id >> 3u8;
                let col = key_id & 7;
                if row >= 8 {
                    after == *self
                } else {
                    &&& after.keypad_matrix@ == self.keypad_matrix@.update(
                        row * 8 + col,
                        if pressed { 1u8 } else { 0u8 },
                    )
                    &&& after.do_warm_reset == (self.do_warm_reset || (pressed && row < 2 && self.lcd_off))
                    &&& after.lcd_off == (self.lcd_off || (pressed && row == 0 && col == 2))
                    &&& after == (Cc800Machine {
                        keypad_matrix: after.keypad_matrix,
                        do_warm_reset: after.do_warm_reset,
                        lcd_off: after.lcd_off,
                        ..*self
                    })
                }
            })
    }

    /// Set a key: row `key_id >> 3`, column `key_id & 7` (rows past 7 are
    /// ignored).  A press on rows 0/1 during standby arms the warm reset;
    /// the ON/OFF key (row 0, column 2) arms standby.
    pub fn set_key(&mut self, key_id: u8, pressed: bool)
        requires
            old(self).wf(),
        ensures
            final(self).wf(),
            old(self).set_key_post(*final(self), key_id, pressed),
    {
        let row = (key_id >> 3) as usize;
        let col = (key_id & 7) as usize;
        if row >= 8 {
            return;
        }
        proof {
            lemma_byte_fields(key_id);
        }
        self.keypad_matrix[row * 8 + col] = if pressed { 1 } else { 0 };
        if pressed && row < 2 && self.lcd_off {
            self.do_warm_reset = true;
        }
        if pressed && row == 0 && col == 2 {
            self.lcd_off = true;
        }
    }

    /// What a warm reset does to the machine and the CPU.
    pub open spec fn warm_reset_post(&self, after: Self, cpu1: Cpu) -> bool {
        &&& !after.do_warm_reset && !after.lcd_off
        &&& after.io@ == self.io@.update(0x01, self.io@[0x01] | INT_TIMER_A).update(0x02, self.io@[0x02] | 0x01)
        &&& cpu1.pc == (after.peek_spec(RESET_VECTOR) as u16 + 256 * after.peek_spec(
            (RESET_VECTOR + 1) as u16,
        ) as u16) as u16
        &&& cpu1.sp == 0xFF
        &&& cpu1.a == 0 && cpu1.x == 0 && cpu1.y == 0
        &&& cpu1.ps == FLAG_I | FLAG_U
        &&& !cpu1.irq_pending && !cpu1.nmi_pending
        &&& after == (Cc800Machine { io: after.io, do_warm_reset: false, lcd_off: false, ..*self })
    }

    /// Watchdog warm reset (a key pressed during standby): leave standby,
    /// flag Timer A and bit 0 of register 0x02, and restart the CPU at the
    /// reset vector.
    pub fn warm_reset(&mut self, cpu: &mut Cpu)
        requires
            old(self).wf(),
        ensures
            final(self).wf(),
            old(self).warm_reset_post(*final(self), *final(cpu)),
    {
        self.do_warm_reset = false;
        self.lcd_off = false;
        let v1 = self.io[0x01];
        self.io[0x01] = v1 | INT_TIMER_A;
        let v2 = self.io[0x02];
        self.io[0x02] = v2 | 0x01;
        let vector = self.peek_u16(RESET_VECTOR);
        cpu.reset(vector);
    }

    /// What `step` does to the machine and the CPU, taking `n` cycles.
    pub open spec fn step_post(&self, after: Self, cpu0: Cpu, cpu1: Cpu, n: u64) -> bool {
        &&& 2 <= n <= 7
        &&& if self.do_warm_reset {
                exists|w: Self, cw: Cpu| #[trigger] self.warm_reset_post(w, cw) && w.run_post(after, cw, cpu1, n)
            } else {
                self.run_post(after, cpu0, cpu1, n)
            }
        &&& after.rom@ == self.rom@
    }

    /// One instruction from `cpu0` and the timers it advances, with no warm
    /// reset pending.
    pub open spec fn run_post(&self, after: Self, cpu0: Cpu, cpu1: Cpu, n: u64) -> bool {
        let (c, k) = s_step(cpu0, cpu1.trace@);
        &&& k == n
        &&& cpu1 == (Cpu { irq_pending: cpu1.irq_pending, nmi_pending: cpu1.nmi_pending, ..c })
        &&& c.irq_pending ==> cpu1.irq_pending
        &&& c.nmi_pending ==> cpu1.nmi_pending
        &&& exists|mid: Self| #[trigger] serves_all(*self, cpu1.trace@, mid)
                && after == (Cc800Machine { timers: after.timers, io: after.io, ..mid })
                && periodic_post(mid.timers, mid.io@, c, after.timers, after.io@, cpu1, n)
    }

    /// Perform a pending warm reset, execute one CPU instruction and
    /// advance the periodic timers; returns the cycles consumed.
    pub fn step(&mut self, cpu: &mut Cpu) -> (n: u64)
        requires
            old(self).wf(),
        ensures
            final(self).wf(),
            old(self).step_post(*final(self), *old(cpu), *final(cpu), n),
    {
        if self.do_warm_reset {
            self.warm_reset(cpu);
        }
        let ghost c0 = *cpu;
        let ghost m0 = *self;
        let cycles = cpu.step(self);
        let ghost mid = *self;
        let ghost cm = *cpu;
        proof {
            lemma_step_cycles(c0, cpu.trace@);
        }
        tick_periodic(&mut self.timers, &mut self.io, cpu, cycles);
        proof {
            assert(serves_all(m0, cpu.trace@, mid)
                && *self == (Cc800Machine { timers: self.timers, io: self.io, ..mid })
                && periodic_post(mid.timers, mid.io@, cm, self.timers, self.io@, *cpu, cycles));
        }
        cycles
    }

    /// What `end_of_frame` does to the machine and the CPU.
    pub open spec fn end_of_frame_post(&self, after: Self, cpu0: Cpu, cpu1: Cpu) -> bool {
        &&& cpu1 == cpu0
        &&& !self.lcd_off ==> {
                let addr = (self.lcd_buff_addr as int % 0x4000) as usize;
                &&& after.lcd.fb() == self.ram@.subrange(addr as int, addr + 1600)
                &&& after.lcd.dirty_spec()
            }
        &&& self.lcd_off ==> after.lcd == self.lcd
        &&& after.audio.output_buffer@ == self.audio.output_buffer@ + Seq::new(
                1470,
                |k: int| if self.is_play_music { (self.music_sample * 8192) as i16 } else { 0i16 },
            )
        &&& after.ram == self.ram
        &&& after.io == self.io
        &&& after.nor == self.nor
        &&& after.rom == self.rom
    }

    /// Frame end: unless in standby, copy the LCD framebuffer from RAM
    /// (address masked to 14 bits); output one frame of beeper level.
    pub fn end_of_frame(&mut self, cpu: &mut Cpu)
        requires
            old(self).wf(),
        ensures
            final(self).wf(),
            old(self).end_of_frame_post(*final(self), *old(cpu), *final(cpu)),
    {
        if !self.lcd_off {
            let addr = (self.lcd_buff_addr as usize) & 0x3FFF;
            proof {
                let a = self.lcd_buff_addr;
                lemma_addr_fields(a);
            }
            self.lcd.copy_from(self.ram.as_slice(), addr);
        }
        let level: i16 = if self.is_play_music { self.music_sample * 8192 } else { 0 };
        self.audio.output_frame(level);
    }

    /// Move pending audio samples to `out`.
    pub fn drain_audio(&mut self, out: &mut Vec<i16>)
        requires
            old(self).wf(),
        ensures
            final(self).wf(),
            final(out)@ == old(out)@ + old(self).audio.output_buffer@,
            final(self).audio.output_buffer@.len() == 0,
            *final(self) == (Cc800Machine { audio: final(self).audio, ..*old(self) }),
    {
        self.audio.drain_audio(out);
    }

    /// What `reset` does to the machine.
    pub open spec fn reset_post(&self, after: Self) -> bool {
        &&& after.ram@ == Seq::new(RAM_SIZE as nat, |i: int| 0u8)
        &&& after.io@ == Seq::new(0x80, |i: int| 0u8)
        &&& after.zp_off == 0x40
        &&& after.lcd_buff_addr == 0x09C0
        &&& after.keypad_matrix@ == Seq::new(64, |i: int| 2u8)
        &&& after.fp_step == 0 && after.fp_type == NorCmd::NoCommand
        &&& !after.lcd_off && !after.do_warm_reset
        &&& after.rom == self.rom
        &&& after.nor == self.nor
        &&& forall|i: int| 2 <= i < 8 ==> #[trigger] after.win@[i] == cc_window(after.io@, i)
    }

    /// Reset to power-on state (images are kept).
    pub fn reset(&mut self)
        requires
            old(self).wf(),
        ensures
            final(self).wf(),
            old(self).reset_post(*final(self)),
    {
        fill_all(&mut self.ram, 0);
        self.io = filled(0);
        self.zp_off = 0x40;
        self.lcd_buff_addr = 0x09C0;
        self.keypad_matrix = filled(2);
        self.w08_port0_ol = 0;
        self.r08_port0_id = 0;
        self.w09_port1_ol = 0;
        self.r09_port1_id = 0;
        self.w15_port1_dir = 0;
        self.timers = SpdcTimers::new();
        self.fp_step = 0;
        self.fp_type = NorCmd::NoCommand;
        self.is_play_music = false;
        self.music_sample = 1;
        self.lcd_off = false;
        self.do_warm_reset = false;
        self.audio.reset();
        self.lcd.reset();
        proof {
            assert(self.io@ =~= Seq::new(0x80, |i: int| 0u8));
            assert(self.keypad_matrix@ =~= Seq::new(64, |i: int| 2u8));
        }
        self.update_map();
    }

    /// Load ROM and NOR images (see [`Cc800Machine::load_rom_impl`]).
    pub fn load_rom(&mut self, files: &RomFiles) -> (r: Result<(), MachineError>)
        requires
            old(self).wf(),
        ensures
            final(self).wf(),
            r is Err <==> (files.rom is Some && files.rom.unwrap()@.len() < ROM_SIZE) || (files.nor is Some
                && files.nor.unwrap()@.len() < NOR_SIZE),
            files.rom is Some && files.rom.unwrap()@.len() < ROM_SIZE ==> r == Err::<(), MachineError>(
                MachineError::RomTooSmall { expected: ROM_SIZE, got: files.rom.unwrap()@.len() as usize },
            ),
            !(files.rom is Some && files.rom.unwrap()@.len() < ROM_SIZE) && files.nor is Some
                && files.nor.unwrap()@.len() < NOR_SIZE ==> r == Err::<(), MachineError>(
                MachineError::NorTooSmall { expected: NOR_SIZE, got: files.nor.unwrap()@.len() as usize },
            ),
            r is Ok ==> {
                &&& files.rom is Some ==> final(self).rom@ == half_swap(files.rom.unwrap()@.subrange(0, ROM_SIZE as int))
                &&& files.rom is None ==> final(self).rom == old(self).rom
                &&& files.nor is Some ==> half_swap(final(self).nor@) == files.nor.unwrap()@.subrange(0, NOR_SIZE as int)
                &&& files.nor is None ==> final(self).nor == old(self).nor
            },
            old(self).load_rom_post(*final(self), *files, r),
    {
        proof {
            if files.nor is Some && files.nor.unwrap()@.len() >= NOR_SIZE {
                law_half_swap_involution(files.nor.unwrap()@.subrange(0, NOR_SIZE as int));
            }
        }
        self.load_rom_impl(files)
    }

    /// Replace the NOR image by the first 512KB of a dump, half-swapped
    /// back, and refresh the info block.
    pub fn load_nor_data(&mut self, data: &[u8]) -> (r: Result<(), MachineError>)
        requires
            old(self).wf(),
        ensures
            final(self).wf(),
            old(self).load_nor_post(*final(self), data@, r),
    {
        if data.len() < NOR_SIZE {
            return Err(MachineError::NorTooSmall { expected: NOR_SIZE, got: data.len() });
        }
        let head = vstd::slice::slice_subrange(data, 0, NOR_SIZE);
        self.nor = swap_halves(head);
        self.copy_info_block();
        Ok(())
    }

    /// The NOR image in dump layout (halves swapped).
    pub fn save_nor_data(&self) -> (r: Vec<u8>)
        ensures
            r@ == half_swap(self.nor@),
    {
        swap_halves(self.nor.as_slice())
    }
}

impl Cc800Machine {
    /// The save state `save_state` captures with `cpu`.
    pub open spec fn save_state_post(&self, cpu: Cpu, r: SaveState) -> bool {
        &&& r.cpu == cpu
        &&& r.ram@ == self.ram@
        &&& r.io@ == self.io@.subrange(0, 0x40)
        &&& r.lcd_addr == self.lcd_buff_addr as u32
    }

    /// Capture a save state (the first 64 IO registers; blank timer,
    /// input and flash components).
    pub fn save_state(&self, cpu: &Cpu) -> (r: SaveState)
        requires
            self.wf(),
        ensures
            self.save_state_post(*cpu, r),
            r.wf(),
    {
        let io_part = vstd::slice::slice_subrange(self.io.as_slice(), 0, 0x40);
        SaveState::new(
            cpu,
            self.ram.as_slice(),
            io_part,
            &Timer::new(),
            &Input::new(),
            &self.audio,
            &Flash::new(),
            self.lcd_buff_addr as u32,
        )
    }

    /// What `load_state` restores from `state`.
    pub open spec fn load_state_post(&self, after: Self, cpu1: Cpu, state: SaveState) -> bool {
        &&& cpu1 == state.cpu
        &&& after.io@.subrange(0, 0x40) == if state.io@.len() >= 0x40 {
                state.io@.subrange(0, 0x40)
            } else {
                self.io@.subrange(0, 0x40)
            }
        &&& after.io@.subrange(0x40, 0x80) == Seq::new(0x40, |i: int| 0u8)
        &&& after.ram@ == if state.ram@.len() >= RAM_SIZE {
                state.ram@.subrange(0, RAM_SIZE as int)
            } else {
                self.ram@
            }
        &&& after.lcd_buff_addr == state.lcd_addr as u16
        &&& after.lcd.lcd_addr == state.lcd_addr
        &&& after.zp_off == 0x40
        &&& !after.timers.timer0run && !after.timers.timer1run
        &&& after.rom == self.rom
        &&& after.nor == self.nor
        &&& !after.lcd_off && !after.do_warm_reset
    }

    /// Restore a save state: the first 64 IO registers (when present,
    /// the rest cleared), RAM (when large enough), the LCD address, and
    /// a fresh timer and window state.
    pub fn load_state(&mut self, cpu: &mut Cpu, state: &SaveState)
        requires
            old(self).wf(),
        ensures
            final(self).wf(),
            old(self).load_state_post(*final(self), *final(cpu), *state),
    {
        *cpu = state.cpu;
        if state.io.len() >= 0x40 {
            let mut i: usize = 0;
            while i < 0x40
                invariant
                    i <= 0x40,
                    state.io@.len() >= 0x40,
                    forall|k: int| 0 <= k < i ==> self.io@[k] == state.io@[k],
                    forall|k: int| i <= k < 0x80 ==> self.io@[k] == old(self).io@[k],
                    *self == (Cc800Machine { io: self.io, ..*old(self) }),
                decreases 0x40 - i,
            {
                self.io[i] = state.io[i];
                i += 1;
            }
        }
        let ghost io_low = self.io@.subrange(0, 0x40);
        let mut j: usize = 0x40;
        while j < 0x80
            invariant
                0x40 <= j <= 0x80,
                self.io@.subrange(0, 0x40) == io_low,
                forall|k: int| 0x40 <= k < j ==> self.io@[k] == 0,
                *self == (Cc800Machine { io: self.io, ..*old(self) }),
            decreases 0x80 - j,
        {
            self.io[j] = 0;
            proof {
                assert(self.io@.subrange(0, 0x40) =~= io_low);
            }
            j += 1;
        }
        proof {
            assert(self.io@.subrange(0x40, 0x80) =~= Seq::new(0x40, |i: int| 0u8));
            if state.io@.len() >= 0x40 {
                assert(self.io@.subrange(0, 0x40) =~= state.io@.subrange(0, 0x40));
            } else {
                assert(self.io@.subrange(0, 0x40) =~= old(self).io@.subrange(0, 0x40));
            }
        }
        if state.ram.len() >= RAM_SIZE {
            copy_into(&mut self.ram, 0, state.ram.as_slice(), 0, RAM_SIZE);
            proof {
                assert(self.ram@ =~= state.ram@.subrange(0, RAM_SIZE as int));
            }
        }
        self.lcd_buff_addr = state.lcd_addr as u16;
        self.lcd.lcd_addr = state.lcd_addr;
        self.zp_off = 0x40;
        self.timers.timer0run = false;
        self.timers.timer1run = false;
        self.timers.tm0v = 0;
        self.timers.tm0r = 0;
        self.timers.tm1v2 = 0;
        self.timers.tma_value = 0;
        self.timers.tma_reload = 0;
        self.lcd_off = false;
        self.do_warm_reset = false;
        self.update_map();
    }
}

impl CpuBus for Cc800Machine {
    open spec fn bus_inv(&self) -> bool {
        self.wf()
    }

    open spec fn bus_kept(&self) -> Seq<u8> {
        self.rom@
    }

    open spec fn serves(&self, ev: BusEvent, after: Self) -> bool {
        match ev {
            BusEvent::Read(a, v) => self.bus_read_post(after, a, v),
            BusEvent::Write(a, v) => self.bus_write_post(after, a, v),
        }
    }

    fn read(&mut self, addr: u16) -> (v: u8) {
        let ghost before = *self;
        let v = self.bus_read(addr);
        proof {
            assert(before.serves(BusEvent::Read(addr, v), *self));
        }
        v
    }

    fn write(&mut self, addr: u16, value: u8) {
        self.bus_write(addr, value)
    }
}

impl Machine for Cc800Machine {
    open spec fn machine_inv(&self) -> bool {
        self.wf()
    }

    open spec fn machine_model(&self) -> MachineModel {
        MachineModel::Cc800
    }

    open spec fn debug_byte(&self, addr: u16) -> u8 {
        self.peek_spec(addr)
    }

    open spec fn lcd_view(&self) -> Lcd {
        self.lcd
    }

    open spec fn asleep(&self) -> bool {
        self.lcd_off
    }

    open spec fn nor_image(&self) -> Option<Seq<u8>> {
        Some(half_swap(self.nor@))
    }

    open spec fn firmware_identity(&self) -> u64 {
        fnv1a(self.rom@)
    }


    fn model(&self) -> (r: MachineModel) {
        MachineModel::Cc800
    }

    fn reset(&mut self)
        ensures
            old(self).reset_post(*final(self)),
    {
        Cc800Machine::reset(self)
    }

    fn load_rom(&mut self, files: &RomFiles) -> (r: Result<(), MachineError>)
        ensures
            old(self).load_rom_post(*final(self), *files, r),
    {
        Cc800Machine::load_rom(self, files)
    }

    fn set_key(&mut self, key_id: u8, pressed: bool)
        ensures
            old(self).set_key_post(*final(self), key_id, pressed),
    {
        Cc800Machine::set_key(self, key_id, pressed)
    }

    fn is_sleeping(&self) -> (r: bool) {
        Cc800Machine::is_sleeping(self)
    }

    fn step(&mut self, cpu: &mut Cpu) -> (n: u64)
        ensures
            old(self).step_post(*final(self), *old(cpu), *final(cpu), n),
    {
        Cc800Machine::step(self, cpu)
    }

    fn end_of_frame(&mut self, cpu: &mut Cpu)
        ensures
            old(self).end_of_frame_post(*final(self), *old(cpu), *final(cpu)),
    {
        Cc800Machine::end_of_frame(self, cpu)
    }

    fn peek(&self, addr: u16) -> (r: u8) {
        Cc800Machine::peek(self, addr)
    }

    fn peek_u16(&self, addr: u16) -> (r: u16) {
        Cc800Machine::peek_u16(self, addr)
    }

    fn lcd(&self) -> (r: &Lcd) {
        &self.lcd
    }

    fn drain_audio(&mut self, out: &mut Vec<i16>)
        ensures
            final(out)@ == old(out)@ + old(self).audio.output_buffer@,
            final(self).audio.output_buffer@.len() == 0,
    {
        Cc800Machine::drain_audio(self, out)
    }

    fn load_nor(&mut self, data: &[u8]) -> (r: Result<(), MachineError>)
        ensures
            old(self).load_nor_post(*final(self), data@, r),
    {
        self.load_nor_data(data)
    }

    fn save_nor(&self) -> (r: Result<Vec<u8>, MachineError>) {
        Ok(self.save_nor_data())
    }

    fn set_speed_up(&mut self, speed_up: bool) {
        // Only the NC1020 timer has a speed-up mode.
    }

    fn save_state(&self, cpu: &Cpu) -> (r: SaveState)
        ensures
            self.save_state_post(*cpu, r),
    {
        Cc800Machine::save_state(self, cpu)
    }

    fn persistent_state_identity(&self) -> (r: u64) {
        persistent_identity(self.rom.as_slice())
    }

    fn load_state(&mut self, cpu: &mut Cpu, state: &SaveState)
        ensures
            old(self).load_state_post(*final(self), *final(cpu), *state),
    {
        Cc800Machine::load_state(self, cpu, state)
    }
}

/// A CPU write to an address that RAM stands behind is given back by the
/// next CPU read of that address.
pub proof fn law_ram_write_then_read(m0: Cc800Machine, m1: Cc800Machine, m2: Cc800Machine, addr: u16, value: u8, v: u8)
    requires
        m0.wf(),
        addr >= 0x40,
        m0.map_spec(addr) is Ram,
        m0.bus_write_post(m1, addr, value),
        m1.bus_read_post(m2, addr, v),
    ensures
        v == value,
        m2 == m1,
{
    lemma_addr_fields(addr);
    if addr >= 0x4000 {
        assert(page_ok(m0.win@[(addr >> 13u16) as int], m0.ram@.len(), m0.rom@.len(), m0.nor@.len()));
    }
    assert(page_ok_byte(m0.map_spec(addr), m0.ram@.len(), m0.rom@.len(), m0.nor@.len()));
}


/// The LCD frame follows register 0x06: after `value` is written there,
/// the frame drawn at the end of the frame is the 1600 RAM bytes from
/// (`value` * 16) % 0x4000.
pub proof fn law_frame_from_register_06(a: Cc800Machine, mid: Cc800Machine, b: Cc800Machine, value: u8, c0: Cpu, c1: Cpu)
    requires
        mid.io_write_post(a, 0x06, value),
        !mid.lcd_off,
        mid.end_of_frame_post(b, c0, c1),
    ensures
        b.lcd.fb() == mid.ram@.subrange((value * 16) % 0x4000, (value * 16) % 0x4000 + 1600),
{
}

} // verus!
