//! PC1000 machine (SPDC1016 SoC).
//!
//! The ROM dump is stored linearly (no half swap) and the bank window
//! uses its own page order:
//!
//!  0x0000-0x003F  IO registers
//!  0x0040-0x007F  zero-page switchable window (register 0x0F)
//!  0x0080-0x3FFF  RAM pages 0-1
//!  0x4000-0x5FFF  bank window page 0 (bank + 0x4000; RAM at boot)
//!  0x6000-0x7FFF  bank window page 1 (bank + 0x6000; RAM mirror at boot)
//!  0x8000-0x9FFF  bank window page 2 (bank + 0x0000)
//!  0xA000-0xBFFF  bank window page 3 (bank + 0x2000)
//!  0xC000-0xDFFF  BBS page (register 0x0A bits 0-3)
//!  0xE000-0xFFFF  fixed BIOS page (volume bank 0 + 0x6000)
//!
//! ROM layout (12MB): obj1 + obj2 + obj3.  Volume 0 covers obj1+obj2;
//! volume 1 covers obj1 + obj3.  A 16MB layout (obj1 at 0, obj2 at 4MB,
//! obj3 at 12MB) is accepted too.  NOR Flash is 512KB in 16 banks of 32KB.

use vstd::prelude::*;
use crate::bits::{lemma_addr_fields, lemma_byte_fields, lemma_byte_pair, lemma_timer_fields, lemma_word_halves};
use crate::audio::Audio;
use crate::bytes::{half_swap, law_half_swap_involution, swap_halves, copy_into, fill_all, filled};
use crate::cpu_laws::lemma_step_cycles;
use crate::cpu::{BusEvent, Cpu, CpuBus, s_step, serves_all};
use crate::lcd::Lcd;
use crate::machine::{Machine, MachineModel, MachineError, RomFiles};
use crate::save::{fnv1a, persistent_identity, SaveState};
use crate::timer::Timer;
use crate::input::{lemma_column_bit, lemma_row_select, Input};
use crate::flash::Flash;

use crate::spdc::{
    NorCmd,
    NorState,
    Page,
    SpdcTimers,
    nor_read,
    nor_read_spec,
    nor_write,
    nor_write_spec,
    periodic_post,
    tick_periodic,
    zp_offset,
    zp_offset_spec,
};

verus! {

/// ROM bank size (32KB).
pub const BANK_SIZE: usize = 0x8000;
/// Canonical ROM size (obj1 + obj2 + obj3, 12MB).
pub const ROM_SIZE_12M: usize = 0xC0_0000;
/// ROM size of the Android/PC1000EMUX layout (16MB).
pub const ROM_SIZE_16M: usize = 0x100_0000;
/// NOR Flash size (512KB).
pub const NOR_SIZE: usize = 0x8_0000;
/// Number of ROM banks per volume.
pub const NUM_ROM_BANKS: usize = 256;
/// Internal RAM size (64KB).
pub const RAM_SIZE: usize = 0x1_0000;

/// PC1000 machine.
pub struct Pc1000Machine {
    pub ram: Vec<u8>,
    pub rom: Vec<u8>,
    pub nor: Vec<u8>,
    pub nor_info_block: [u8; 0x100],
    /// The NOR dump was stored half-swapped (swapped back on save).
    pub nor_swapped: bool,
    pub io: [u8; 0x80],
    /// Volume bank base tables (bank index -> ROM offset).
    pub vol0: [usize; 256],
    pub vol1: [usize; 256],
    /// BBS page ROM offsets for the current volume.
    pub bbs: [usize; 16],
    /// Window targets of the eight 8KB pages (pages 2-7 are banked).
    pub win: [Page; 8],
    /// Zero-page 0x40-0x7F base offset inside RAM.
    pub zp_off: usize,
    pub lcd_buff_addr: u16,
    /// Keypad: `key_posi[7 - row]` holds the pressed column bits.
    pub key_posi: [u8; 8],
    pub timers: SpdcTimers,
    /// NOR programming state
    pub fp_step: u8,
    pub fp_type: NorCmd,
    /// DSP / audio
    pub dsp_sleep: bool,
    pub dsp_ret: u8,
    pub is_play_music: bool,
    pub music_sample: i16,
    pub nor_dirty: bool,
    pub audio: Audio,
    pub lcd: Lcd,
}

/// Base ROM offset of `bank` in the volume selected by register 0x0D.
pub open spec fn pc_vol_base(io: Seq<u8>, vol0: Seq<usize>, vol1: Seq<usize>, bank: int) -> usize {
    if io[0x0D] & 0x01 == 0 {
        vol0[bank]
    } else {
        vol1[bank]
    }
}

/// BBS page `j`: banks 0-3 of the volume, each split into
/// {+0x4000, +0x6000, +0x0000, +0x2000}.
pub open spec fn pc_bbs(io: Seq<u8>, vol0: Seq<usize>, vol1: Seq<usize>, j: int) -> usize {
    let base = pc_vol_base(io, vol0, vol1, j / 4);
    let q = j % 4;
    (if q == 0 {
        base + 0x4000
    } else if q == 1 {
        base + 0x6000
    } else if q == 2 {
        base as int
    } else {
        base + 0x2000
    }) as usize
}

/// Target of banked page `i` (2-7) for the registers `io`.
pub open spec fn pc_window(io: Seq<u8>, vol0: Seq<usize>, vol1: Seq<usize>, i: int) -> Page {
    let bank = io[0x00];
    let roa = io[0x0A] & 0x80 != 0;
    let base = pc_vol_base(io, vol0, vol1, bank as int);
    if i == 6 {
        let bbs_idx = (io[0x0A] & 0x0F) as int;
        if bbs_idx == 1 {
            Page::Ram(0x4000)
        } else {
            Page::Rom(pc_bbs(io, vol0, vol1, bbs_idx))
        }
    } else if i == 7 {
        Page::Rom(pc_bbs(io, vol0, vol1, 1))
    } else if roa {
        let nb = (bank & 0x0F) as int * 0x8000;
        Page::Nor(
            (if i == 2 {
                nb + 0x4000
            } else if i == 3 {
                nb + 0x6000
            } else if i == 4 {
                nb
            } else {
                nb + 0x2000
            }) as usize,
        )
    } else if i == 2 || i == 3 {
        if bank == 0 {
            Page::Ram(0x4000)
        } else {
            Page::Rom((base + if i == 2 { 0x4000int } else { 0x6000int }) as usize)
        }
    } else {
        Page::Rom((base + if i == 4 { 0int } else { 0x2000int }) as usize)
    }
}

/// Volume 1 base of `bank` in the 12MB layout.
pub open spec fn vol1_12m(b: int) -> usize {
    (if b < 128 { b * 0x8000 } else { (b + 128) * 0x8000 }) as usize
}

/// Volume 1 base of `bank` in the 16MB layout.
pub open spec fn vol1_16m(b: int) -> usize {
    (if b < 128 { 0x80_0000 } else { (b + 256) * 0x8000 }) as usize
}

/// Keypad row driven by a write to port 1 (register 0x09).
pub open spec fn scan_row(value: u8) -> Option<int> {
    if value == 0x80 {
        Some(0)
    } else if value == 0x40 {
        Some(1)
    } else if value == 0x20 {
        Some(2)
    } else if value == 0x10 {
        Some(3)
    } else if value == 0x08 {
        Some(4)
    } else if value == 0x04 {
        Some(5)
    } else {
        None
    }
}

/// IO registers after a write of `value` to register `addr`.
pub open spec fn pc_io_regs(io: Seq<u8>, addr: u8, value: u8, key_posi: Seq<u8>) -> Seq<u8> {
    if addr == 0x01 {
        io.update(0x40, value)
    } else {
        let io1 = io.update(addr as int, value);
        if addr == 0x08 {
            io1.update(0x41, value)
        } else if addr == 0x09 && scan_row(value) is Some {
            io1.update(0x08, key_posi[scan_row(value).unwrap()])
        } else {
            io1
        }
    }
}

/// Timers after a write of `value` to register `addr`.
pub open spec fn pc_timers_after_write(t: SpdcTimers, addr: u8, value: u8) -> SpdcTimers {
    if addr == 0x02 {
        SpdcTimers { tm0v: if value + t.tm0r > 255 { 255 } else { (value + t.tm0r) as u16 }, tm0r: 0, ..t }
    } else if addr == 0x03 {
        SpdcTimers { tm1v2: (value * 2) as u16, ..t }
    } else if addr == 0x10 {
        SpdcTimers { tma_reload: (t.tma_reload & 0xFF00) | (value as u32), ..t }
    } else if addr == 0x11 {
        let r = (t.tma_reload & 0x00FF) | ((value as u32) << 8u32);
        SpdcTimers { tma_reload: r, tma_value: r, ..t }
    } else {
        t
    }
}

/// Port 3 keyboard bit 0 for the power key and the hotkey rows.
pub open spec fn pc_port3_bit(io: Seq<u8>, kp: Seq<u8>) -> u8 {
    let p0_dir = io[0x0F] & 0xF0;
    let p1_dir = io[0x15] & 0x03;
    let port0 = io[0x41];
    let b0: u8 = if p0_dir == 0xF0 {
        if port0 == 0x00 {
            if kp[6] == 0 && kp[7] & 0x01 == 0 { 1 } else { 0 }
        } else if port0 == 0x7F {
            if kp[6] & 0x80 == 0 { 1 } else { 0 }
        } else if port0 == 0xBF {
            if kp[6] & 0x40 == 0 { 1 } else { 0 }
        } else if port0 == 0xDF {
            if kp[6] & 0x20 == 0 { 1 } else { 0 }
        } else if port0 == 0xEF {
            if kp[6] & 0x10 == 0 { 1 } else { 0 }
        } else if port0 == 0xF7 {
            if kp[6] & 0x08 == 0 { 1 } else { 0 }
        } else if port0 == 0xFB {
            if kp[6] & 0x04 == 0 { 1 } else { 0 }
        } else if port0 == 0xFD {
            if kp[6] & 0x02 == 0 { 1 } else { 0 }
        } else if port0 == 0xFE {
            if kp[6] & 0x01 == 0 { 1 } else { 0 }
        } else if port0 == 0xFF {
            if kp[7] & 0x01 == 0 { 1 } else { 0 }
        } else {
            1
        }
    } else {
        1
    };
    let p1 = io[0x09];
    if b0 == 1 && p1_dir == 3 {
        if p1 == 0xFE {
            if kp[7] & 0x02 == 0 { 1 } else { 0 }
        } else if p1 == 0xFD {
            if kp[7] & 0x04 == 0 { 1 } else { 0 }
        } else if p1 & 0x03 == 0 {
            if kp[7] & 0x06 == 0 { 1 } else { 0 }
        } else {
            b0
        }
    } else {
        b0
    }
}

/// Whether a ROM dump's NOR image is stored half-swapped: the info-block
/// signature sits at offset 0 instead of 0x4000.
pub open spec fn nor_sig_at(d: Seq<u8>, off: int) -> bool {
    d.subrange(off, off + 7) == seq![0x2Au8, 0xBD, 0xF0, 0xD4, 0xB6, 0xBC, 0xFB]
}

/// A byte target that lies inside its storage.
pub open spec fn page_ok_byte(p: Page, ram_len: nat, rom_len: nat, nor_len: nat) -> bool {
    match p {
        Page::Ram(o) => o < ram_len,
        Page::Rom(o) => o < rom_len,
        Page::Nor(o) => o < nor_len,
    }
}

/// A window target that lies inside its storage.
pub open spec fn page_ok(p: Page, ram_len: nat, rom_len: nat, nor_len: nat) -> bool {
    match p {
        Page::Ram(b) => b + 0x2000 <= ram_len,
        Page::Rom(b) => b + 0x2000 <= rom_len,
        Page::Nor(b) => b + 0x2000 <= nor_len,
    }
}

impl Pc1000Machine {
    /// Buffer sizes, table ranges and window targets inside their storage.
    pub open spec fn wf(&self) -> bool {
        &&& self.ram@.len() == RAM_SIZE
        &&& self.nor@.len() == NOR_SIZE
        &&& self.rom@.len() >= 0x8000
        &&& self.rom@.len() <= usize::MAX
        &&& self.win@[0] == Page::Ram(0) && self.win@[1] == Page::Ram(0)
        &&& forall|b: int| 0 <= b < 256 ==> #[trigger] self.vol0@[b] + 0x8000 <= self.rom@.len()
        &&& forall|b: int| 0 <= b < 256 ==> #[trigger] self.vol1@[b] + 0x8000 <= self.rom@.len()
        &&& forall|j: int| 0 <= j < 16 ==> #[trigger] self.bbs@[j] + 0x2000 <= self.rom@.len()
        &&& forall|i: int|
            0 <= i < 8 ==> #[trigger] page_ok(self.win@[i], self.ram@.len(), self.rom@.len(), self.nor@.len())
        &&& self.zp_off <= 0x2C0
        &&& self.timers.wf()
        &&& self.audio.wf()
        &&& self.lcd.wf()
        &&& (self.music_sample == 1 || self.music_sample == -1)
    }

    /// Target of CPU address `addr` (the IO registers are not intercepted).
    pub open spec fn map_spec(&self, addr: u16) -> Page {
        if addr < 0x80 {
            Page::Ram((self.zp_off + (addr & 0x3F)) as usize)
        } else if addr < 0x4000 {
            Page::Ram(addr as usize)
        } else {
            let off = (addr & 0x1FFF) as int;
            match self.win@[(addr >> 13u16) as int] {
                Page::Ram(b) => Page::Ram((b + off) as usize),
                Page::Rom(b) => Page::Rom((b + off) as usize),
                Page::Nor(b) => Page::Nor((b + off) as usize),
            }
        }
    }

    /// Byte a debugger read of `addr` sees.
    pub open spec fn peek_spec(&self, addr: u16) -> u8 {
        if addr < 0x40 {
            self.io@[addr as int]
        } else {
            match self.map_spec(addr) {
                Page::Ram(o) => self.ram@[o as int],
                Page::Rom(o) => self.rom@[o as int],
                Page::Nor(o) => self.nor@[o as int],
            }
        }
    }

    /// The NOR image in the layout its dump was stored in.
    pub open spec fn nor_dump(&self) -> Seq<u8> {
        if self.nor_swapped {
            half_swap(self.nor@)
        } else {
            self.nor@
        }
    }

    /// Current NOR command state.
    pub open spec fn nor_state(&self) -> NorState {
        NorState {
            step: self.fp_step,
            cmd: self.fp_type,
            nor: self.nor@,
            info: self.nor_info_block@,
            dirty: self.nor_dirty,
        }
    }

    /// Fill the volume tables with the 12MB layout.
    fn layout_12m(&mut self)
        ensures
            forall|b: int| 0 <= b < 256 ==> #[trigger] final(self).vol0@[b] == b * 0x8000,
            forall|b: int| 0 <= b < 256 ==> #[trigger] final(self).vol1@[b] == vol1_12m(b),
            *final(self) == (Pc1000Machine { vol0: final(self).vol0, vol1: final(self).vol1, ..*old(self) }),
    {
        let mut b: usize = 0;
        while b < NUM_ROM_BANKS
            invariant
                b <= 256,
                forall|k: int| 0 <= k < b ==> #[trigger] self.vol0@[k] == k * 0x8000,
                forall|k: int| 0 <= k < b ==> #[trigger] self.vol1@[k] == vol1_12m(k),
                *self == (Pc1000Machine { vol0: self.vol0, vol1: self.vol1, ..*old(self) }),
            decreases 256 - b,
        {
            self.vol0[b] = b * BANK_SIZE;
            if b < 128 {
                self.vol1[b] = b * BANK_SIZE;
            } else {
                self.vol1[b] = (b + 128) * BANK_SIZE;
            }
            b += 1;
        }
    }

    /// Fill the volume tables with the 16MB layout.
    fn layout_16m(&mut self)
        ensures
            forall|b: int| 0 <= b < 256 ==> #[trigger] final(self).vol0@[b] == b * 0x8000,
            forall|b: int| 0 <= b < 256 ==> #[trigger] final(self).vol1@[b] == vol1_16m(b),
            *final(self) == (Pc1000Machine { vol0: final(self).vol0, vol1: final(self).vol1, ..*old(self) }),
    {
        let mut b: usize = 0;
        while b < NUM_ROM_BANKS
            invariant
                b <= 256,
                forall|k: int| 0 <= k < b ==> #[trigger] self.vol0@[k] == k * 0x8000,
                forall|k: int| 0 <= k < b ==> #[trigger] self.vol1@[k] == vol1_16m(k),
                *self == (Pc1000Machine { vol0: self.vol0, vol1: self.vol1, ..*old(self) }),
            decreases 256 - b,
        {
            self.vol0[b] = b * BANK_SIZE;
            if b < 128 {
                self.vol1[b] = 0x80_0000;
            } else {
                self.vol1[b] = (b + 256) * BANK_SIZE;
            }
            b += 1;
        }
    }

    /// What a machine built from `files` holds: the images as loaded and
    /// the power-on state around them.
    pub open spec fn built_from(&self, files: RomFiles) -> bool {
        &&& self.rom@ == match files.rom {
            Some(d) => d@,
            None => Seq::new(ROM_SIZE_12M as nat, |i: int| 0u8),
        }
        &&& forall|b: int| 0 <= b < 256 ==> #[trigger] self.vol0@[b] == b * 0x8000
        &&& forall|b: int| 0 <= b < 256 ==> #[trigger] self.vol1@[b] == if self.rom@.len() == ROM_SIZE_16M {
            vol1_16m(b)
        } else {
            vol1_12m(b)
        }
        &&& self.win@[0] == Page::Ram(0) && self.win@[1] == Page::Ram(0)
        &&& forall|i: int| 2 <= i < 8 ==> #[trigger] self.win@[i] == pc_window(self.io@, self.vol0@, self.vol1@, i)
        &&& forall|j: int| 0 <= j < 16 ==> #[trigger] self.bbs@[j] == pc_bbs(self.io@, self.vol0@, self.vol1@, j)
        &&& match files.nor {
            Some(dump) => {
                let d = dump@.subrange(0, NOR_SIZE as int);
                let swapped = !nor_sig_at(d, 0x4000) && nor_sig_at(d, 0);
                &&& self.nor@ == if swapped { half_swap(d) } else { d }
                &&& self.nor_swapped == swapped
            },
            None => self.nor@ == Seq::new(NOR_SIZE as nat, |i: int| 0xFFu8) && !self.nor_swapped,
        }
        &&& self.nor_info_block@ == self.nor@.subrange(0x4000, 0x4100)
        &&& self.ram@ == Seq::new(RAM_SIZE as nat, |i: int| 0u8)
        &&& !self.nor_dirty && !self.is_play_music
    }

    /// Create the machine and load its ROM files.
    pub fn new(files: &RomFiles) -> (r: Result<Self, MachineError>)
        ensures
            r matches Ok(m) ==> m.wf() && m.io@ == Seq::new(0x80, |i: int| 0u8) && m.zp_off == 0x40
                && m.nor_state().step == 0 && m.nor_state().cmd == NorCmd::NoCommand,
            r is Err <==> (files.rom is Some && files.rom.unwrap()@.len() != ROM_SIZE_12M && files.rom.unwrap()@.len()
                != ROM_SIZE_16M) || (files.nor is Some && files.nor.unwrap()@.len() < NOR_SIZE),
            files.rom is Some && files.rom.unwrap()@.len() != ROM_SIZE_12M && files.rom.unwrap()@.len()
                != ROM_SIZE_16M ==> r == Err::<Self, MachineError>(
                MachineError::RomSizeInvalid { got: files.rom.unwrap()@.len() as usize },
            ),
            !(files.rom is Some && files.rom.unwrap()@.len() != ROM_SIZE_12M && files.rom.unwrap()@.len()
                != ROM_SIZE_16M) && files.nor is Some && files.nor.unwrap()@.len() < NOR_SIZE
                ==> r == Err::<Self, MachineError>(
                MachineError::NorTooSmall { expected: NOR_SIZE, got: files.nor.unwrap()@.len() as usize },
            ),
            r matches Ok(m) ==> m.built_from(*files),
    {
        let mut m = Pc1000Machine {
            ram: vec![0; RAM_SIZE],
            rom: vec![0; ROM_SIZE_12M],
            nor: vec![0xFF; NOR_SIZE],
            nor_info_block: filled(0),
            nor_swapped: false,
            io: filled(0),
            vol0: [0; 256],
            vol1: [0; 256],
            bbs: [0; 16],
            win: [Page::Ram(0); 8],
            zp_off: 0x40,
            lcd_buff_addr: 0x09C0,
            key_posi: filled(0),
            timers: SpdcTimers::new(),
            fp_step: 0,
            fp_type: NorCmd::NoCommand,
            dsp_sleep: false,
            dsp_ret: 0,
            is_play_music: false,
            music_sample: 1,
            nor_dirty: false,
            audio: Audio::new(),
            lcd: Lcd::new(),
        };
        proof {
            assert(m.io@ =~= Seq::new(0x80, |i: int| 0u8));
            assert(m.rom@ =~= Seq::new(ROM_SIZE_12M as nat, |i: int| 0u8));
            assert(m.nor@ =~= Seq::new(NOR_SIZE as nat, |i: int| 0xFFu8));
            assert(m.ram@ =~= Seq::new(RAM_SIZE as nat, |i: int| 0u8));
        }
        m.layout_12m();
        m.update_map();
        match m.load_rom_impl(files) {
            Ok(()) => Ok(m),
            Err(e) => Err(e),
        }
    }

    /// What loading the images does: a ROM dump that is neither 12MB nor
    /// 16MB is refused with nothing changed; a good one is taken as it is,
    /// its volume bank tables laid out for its size and the windows and BBS
    /// pages remapped; then a NOR dump shorter than 512KB is refused with
    /// the NOR left as it was; a good one is taken (its first 512KB,
    /// half-swapped back when only its first half carries the signature)
    /// and the info block refreshed from NOR offset 0x4000.
    pub open spec fn load_rom_post(&self, after: Self, files: RomFiles, r: Result<(), MachineError>) -> bool {
        let rom_bad = files.rom is Some && files.rom.unwrap()@.len() != ROM_SIZE_12M
            && files.rom.unwrap()@.len() != ROM_SIZE_16M;
        let nor_short = files.nor is Some && files.nor.unwrap()@.len() < NOR_SIZE;
        if rom_bad {
            &&& r == Err::<(), MachineError>(MachineError::RomSizeInvalid { got: files.rom.unwrap()@.len() as usize })
            &&& after == *self
        } else {
            &&& match files.rom {
                Some(d) => {
                    &&& after.rom@ == d@
                    &&& forall|b: int| 0 <= b < 256 ==> #[trigger] after.vol0@[b] == b * 0x8000
                    &&& forall|b: int| 0 <= b < 256 ==> #[trigger] after.vol1@[b] == if d@.len() == ROM_SIZE_12M {
                        vol1_12m(b)
                    } else {
                        vol1_16m(b)
                    }
                    &&& after.win@[0] == self.win@[0] && after.win@[1] == self.win@[1]
                    &&& forall|i: int| 2 <= i < 8 ==> #[trigger] after.win@[i] == pc_window(self.io@, after.vol0@, after.vol1@, i)
                    &&& forall|j: int| 0 <= j < 16 ==> #[trigger] after.bbs@[j] == pc_bbs(self.io@, after.vol0@, after.vol1@, j)
                },
                None => {
                    &&& after.rom == self.rom
                    &&& after.vol0 == self.vol0 && after.vol1 == self.vol1
                    &&& after.win == self.win && after.bbs == self.bbs
                },
            }
            &&& if nor_short {
                &&& r == Err::<(), MachineError>(
                    MachineError::NorTooSmall { expected: NOR_SIZE, got: files.nor.unwrap()@.len() as usize },
                )
                &&& after.nor == self.nor
                &&& after.nor_swapped == self.nor_swapped
                &&& after.nor_info_block == self.nor_info_block
            } else {
                &&& r is Ok
                &&& match files.nor {
                    Some(dump) => {
                        let d = dump@.subrange(0, NOR_SIZE as int);
                        let swapped = !nor_sig_at(d, 0x4000) && nor_sig_at(d, 0);
                        &&& after.nor@ == if swapped { half_swap(d) } else { d }
                        &&& after.nor_swapped == swapped
                    },
                    None => after.nor == self.nor && after.nor_swapped == self.nor_swapped,
                }
                &&& after.nor_info_block@ == after.nor@.subrange(0x4000, 0x4100)
            }
            &&& after == (Pc1000Machine {
                rom: after.rom,
                vol0: after.vol0,
                vol1: after.vol1,
                win: after.win,
                bbs: after.bbs,
                nor: after.nor,
                nor_swapped: after.nor_swapped,
                nor_info_block: after.nor_info_block,
                ..*self
            })
        }
    }

    /// What loading a NOR dump does: one shorter than 512KB is refused and
    /// nothing changes; otherwise its first 512KB becomes the NOR image as
    /// it stands and the image counts as saved.
    pub open spec fn load_nor_post(&self, after: Self, data: Seq<u8>, r: Result<(), MachineError>) -> bool {
        if data.len() < NOR_SIZE {
            &&& r == Err::<(), MachineError>(MachineError::NorTooSmall { expected: NOR_SIZE, got: data.len() as usize })
            &&& after == *self
        } else {
            &&& r is Ok
            &&& after.nor@ == data.subrange(0, NOR_SIZE as int)
            &&& after == (Pc1000Machine { nor: after.nor, nor_dirty: false, ..*self })
        }
    }

    /// Load ROM and NOR images.  The ROM must be 12MB or 16MB (its layout
    /// chooses the volume tables); the NOR dump must hold at least 512KB,
    /// and is swapped back when its info-block signature shows the
    /// half-swapped layout.  The info block is taken from NOR 0x4000.
    #[verifier::rlimit(50)]
    pub fn load_rom_impl(&mut self, files: &RomFiles) -> (r: Result<(), MachineError>)
        requires
            old(self).wf(),
        ensures
            final(self).wf(),
            old(self).load_rom_post(*final(self), *files, r),
            final(self).io == old(self).io,
            final(self).zp_off == old(self).zp_off,
            final(self).fp_step == old(self).fp_step,
            final(self).fp_type == old(self).fp_type,
            files.rom is Some && files.rom.unwrap()@.len() != ROM_SIZE_12M && files.rom.unwrap()@.len()
                != ROM_SIZE_16M ==> r == Err::<(), MachineError>(
                MachineError::RomSizeInvalid { got: files.rom.unwrap()@.len() as usize },
            ),
            r is Err <==> (files.rom is Some && files.rom.unwrap()@.len() != ROM_SIZE_12M && files.rom.unwrap()@.len()
                != ROM_SIZE_16M) || (files.nor is Some && files.nor.unwrap()@.len() < NOR_SIZE),
            r is Ok ==> {
                &&& files.rom is Some ==> final(self).rom@ == files.rom.unwrap()@
                &&& files.rom is None ==> final(self).rom == old(self).rom
                &&& files.nor is Some ==> {
                    let d = files.nor.unwrap()@.subrange(0, NOR_SIZE as int);
                    let swapped = !nor_sig_at(d, 0x4000) && nor_sig_at(d, 0);
                    &&& final(self).nor@ == if swapped { half_swap(d) } else { d }
                    &&& final(self).nor_swapped == swapped
                    &&& final(self).nor_dump() == d
                }
                &&& files.nor is None ==> final(self).nor == old(self).nor
                &&& final(self).nor_info_block@ == final(self).nor@.subrange(0x4000, 0x4100)
            },
    {
        let ghost m0 = *self;
        match &files.rom {
            Some(data) => {
                let n = data.len();
                if n == ROM_SIZE_12M {
                    self.rom = data.clone();
                    self.layout_12m();
                } else if n == ROM_SIZE_16M {
                    self.rom = data.clone();
                    self.layout_16m();
                } else {
                    return Err(MachineError::RomSizeInvalid { got: n });
                }
                self.update_map();
            },
            None => {},
        }
        let ghost m1 = *self;
        assert(m1 == (Pc1000Machine { rom: m1.rom, vol0: m1.vol0, vol1: m1.vol1, win: m1.win, bbs: m1.bbs, ..m0 }));
        match &files.nor {
            Some(data) => {
                if data.len() < NOR_SIZE {
                    return Err(MachineError::NorTooSmall { expected: NOR_SIZE, got: data.len() });
                }
                copy_into(&mut self.nor, 0, data.as_slice(), 0, NOR_SIZE);
                self.nor_swapped = false;
                proof {
                    assert(self.nor@ =~= data@.subrange(0, NOR_SIZE as int));
                }
                let at_4000 = self.has_sig(0x4000);
                let at_0 = self.has_sig(0);
                if !at_4000 && at_0 {
                    self.nor = swap_halves(self.nor.as_slice());
                    self.nor_swapped = true;
                    proof {
                        law_half_swap_involution(data@.subrange(0, NOR_SIZE as int));
                    }
                }
            },
            None => {},
        }
        self.copy_info_block();
        Ok(())
    }

    /// Take the info block from NOR offset 0x4000.
    fn copy_info_block(&mut self)
        requires
            old(self).nor@.len() == NOR_SIZE,
        ensures
            final(self).nor_info_block@ == old(self).nor@.subrange(0x4000, 0x4100),
            *final(self) == (Pc1000Machine { nor_info_block: final(self).nor_info_block, ..*old(self) }),
    {
        let mut i: usize = 0;
        while i < 0x100
            invariant
                i <= 0x100,
                self.nor@.len() == NOR_SIZE,
                *self == (Pc1000Machine { nor_info_block: self.nor_info_block, ..*old(self) }),
                forall|k: int| 0 <= k < i ==> self.nor_info_block@[k] == self.nor@[0x4000 + k],
            decreases 0x100 - i,
        {
            self.nor_info_block[i] = self.nor[0x4000 + i];
            i += 1;
        }
        proof {
            assert(self.nor_info_block@ =~= self.nor@.subrange(0x4000, 0x4100));
        }
    }

    /// Whether the info-block signature sits at NOR offset `off`.
    fn has_sig(&self, off: usize) -> (r: bool)
        requires
            off + 7 <= self.nor@.len(),
            self.nor@.len() == NOR_SIZE,
        ensures
            r == nor_sig_at(self.nor@, off as int),
    {
        let sig: [u8; 7] = [0x2A, 0xBD, 0xF0, 0xD4, 0xB6, 0xBC, 0xFB];
        let mut i: usize = 0;
        while i < 7
            invariant
                i <= 7,
                off + 7 <= self.nor@.len(),
                self.nor@.len() == NOR_SIZE,
                sig@ == seq![0x2Au8, 0xBD, 0xF0, 0xD4, 0xB6, 0xBC, 0xFB],
                forall|k: int| 0 <= k < i ==> self.nor@[off + k] == sig@[k],
            decreases 7 - i,
        {
            if self.nor[off + i] != sig[i] {
                proof {
                    assert(self.nor@.subrange(off as int, off + 7)[i as int] != sig@[i as int]);
                }
                return false;
            }
            i += 1;
        }
        proof {
            assert(self.nor@.subrange(off as int, off + 7) =~= sig@);
        }
        true
    }

    /// Recompute the bank windows and BBS pages from the registers.
    pub fn update_map(&mut self)
        requires
            old(self).rom@.len() >= 0x8000,
            old(self).rom@.len() <= usize::MAX,
            forall|b: int| 0 <= b < 256 ==> #[trigger] old(self).vol0@[b] + 0x8000 <= old(self).rom@.len(),
            forall|b: int| 0 <= b < 256 ==> #[trigger] old(self).vol1@[b] + 0x8000 <= old(self).rom@.len(),
            old(self).nor@.len() == NOR_SIZE,
            old(self).ram@.len() == RAM_SIZE,
            forall|i: int|
                0 <= i < 2 ==> #[trigger] page_ok(old(self).win@[i], old(self).ram@.len(), old(self).rom@.len(), old(self).nor@.len()),
        ensures
            forall|i: int| 2 <= i < 8 ==> #[trigger] final(self).win@[i] == pc_window(old(self).io@, old(self).vol0@, old(self).vol1@, i),
            final(self).win@[0] == old(self).win@[0] && final(self).win@[1] == old(self).win@[1],
            forall|j: int| 0 <= j < 16 ==> #[trigger] final(self).bbs@[j] == pc_bbs(old(self).io@, old(self).vol0@, old(self).vol1@, j),
            forall|j: int| 0 <= j < 16 ==> #[trigger] final(self).bbs@[j] + 0x2000 <= final(self).rom@.len(),
            forall|i: int|
                0 <= i < 8 ==> #[trigger] page_ok(final(self).win@[i], final(self).ram@.len(), final(self).rom@.len(), final(self).nor@.len()),
            *final(self) == (Pc1000Machine { win: final(self).win, bbs: final(self).bbs, ..*old(self) }),
    {
        let bank = self.io[0x00];
        let vol = self.io[0x0D] & 0x01;
        let roa = self.io[0x0A] & 0x80 != 0;
        if roa {
            proof {
                lemma_byte_fields(bank);
            }
            let nb = (bank as usize & 0x0F) * BANK_SIZE;
            self.win[2] = Page::Nor(nb + 0x4000);
            self.win[3] = Page::Nor(nb + 0x6000);
            self.win[4] = Page::Nor(nb);
            self.win[5] = Page::Nor(nb + 0x2000);
        } else {
            let base = if vol == 0 { self.vol0[bank as usize] } else { self.vol1[bank as usize] };
            if bank == 0 {
                self.win[2] = Page::Ram(0x4000);
                self.win[3] = Page::Ram(0x4000);
            } else {
                self.win[2] = Page::Rom(base + 0x4000);
                self.win[3] = Page::Rom(base + 0x6000);
            }
            self.win[4] = Page::Rom(base);
            self.win[5] = Page::Rom(base + 0x2000);
        }
        let ghost w = self.win;
        let mut i: usize = 0;
        while i < 4
            invariant
                i <= 4,
                self.win == w,
                self.rom@.len() <= usize::MAX,
                vol == self.io@[0x0D] & 0x01,
                self.io == old(self).io,
                self.vol0 == old(self).vol0,
                self.vol1 == old(self).vol1,
                self.rom == old(self).rom,
                forall|b: int| 0 <= b < 256 ==> #[trigger] self.vol0@[b] + 0x8000 <= self.rom@.len(),
                forall|b: int| 0 <= b < 256 ==> #[trigger] self.vol1@[b] + 0x8000 <= self.rom@.len(),
                forall|j: int| 0 <= j < 4 * i ==> #[trigger] self.bbs@[j] == pc_bbs(self.io@, self.vol0@, self.vol1@, j),
                *self == (Pc1000Machine { win: self.win, bbs: self.bbs, ..*old(self) }),
            decreases 4 - i,
        {
            let base = if vol == 0 { self.vol0[i] } else { self.vol1[i] };
            self.bbs[i * 4] = base + 0x4000;
            self.bbs[i * 4 + 1] = base + 0x6000;
            self.bbs[i * 4 + 2] = base;
            self.bbs[i * 4 + 3] = base + 0x2000;
            proof {
                assert forall|j: int| 4 * i <= j < 4 * i + 4 implies #[trigger] self.bbs@[j] == pc_bbs(
                    self.io@,
                    self.vol0@,
                    self.vol1@,
                    j,
                ) by {
                    assert(j / 4 == i && j % 4 == j - 4 * i);
                }
            }
            i += 1;
        }
        let bbs_idx = (self.io[0x0A] & 0x0F) as usize;
        proof {
            let ra = self.io@[0x0A];
            lemma_byte_fields(ra);
            assert(1int / 4 == 0 && 1int % 4 == 1);
        }
        self.win[6] = if bbs_idx == 1 { Page::Ram(0x4000) } else { Page::Rom(self.bbs[bbs_idx]) };
        self.win[7] = Page::Rom(self.bbs[1]);
        proof {
            assert forall|j: int| 0 <= j < 16 implies #[trigger] self.bbs@[j] + 0x2000 <= self.rom@.len() by {
                assert(0 <= j / 4 < 4);
            }
        }
    }

    /// Resolve a CPU address to a memory window target (no IO side effects).
    pub fn map_addr(&self, addr: u16) -> (r: Page)
        requires
            self.wf(),
        ensures
            r == self.map_spec(addr),
            page_ok_byte(r, self.ram@.len(), self.rom@.len(), self.nor@.len()),
    {
        if addr < 0x80 {
            proof {
                lemma_addr_fields(addr);
            }
            Page::Ram(self.zp_off + (addr as usize & 0x3F))
        } else if addr < 0x4000 {
            Page::Ram(addr as usize)
        } else {
            let page = (addr >> 13) as usize;
            let off = (addr & 0x1FFF) as usize;
            proof {
                lemma_addr_fields(addr);
                assert(page_ok(self.win@[page as int], self.ram@.len(), self.rom@.len(), self.nor@.len()));
            }
            match self.win[page] {
                Page::Ram(b) => Page::Ram(b + off),
                Page::Rom(b) => Page::Rom(b + off),
                Page::Nor(b) => Page::Nor(b + off),
            }
        }
    }

    /// Read a memory/IO address for debugging (no side effects).
    pub fn peek(&self, addr: u16) -> (r: u8)
        requires
            self.wf(),
        ensures
            r == self.peek_spec(addr),
    {
        if addr < 0x40 {
            return self.io[addr as usize];
        }
        match self.map_addr(addr) {
            Page::Ram(o) => self.ram[o],
            Page::Rom(o) => self.rom[o],
            Page::Nor(o) => self.nor[o],
        }
    }

    /// Read a little-endian 16-bit word for debugging.
    pub fn peek_u16(&self, addr: u16) -> (r: u16)
        requires
            self.wf(),
        ensures
            r == self.peek_spec(addr) as u16 + 256 * self.peek_spec(addr.wrapping_add(1)) as u16,
    {
        let lo = self.peek(addr) as u16;
        let hi = self.peek(addr.wrapping_add(1)) as u16;
        proof {
            lemma_word_halves(lo, hi);
        }
        (hi << 8) | lo
    }

    /// What a CPU read of `addr` returning `r` does to the machine.
    pub open spec fn bus_read_post(&self, after: Self, addr: u16, r: u8) -> bool {
        &&& addr < 0x40 ==> r == self.io_read_value(addr as u8) && after.io@ == if addr == 0x01 {
                self.io@.update(0x01, self.io@[0x01] & 0xC0)
            } else {
                self.io@
            } && after == (Pc1000Machine { io: after.io, ..self.after_io_read(addr as u8) })
        &&& addr >= 0x40 ==> after == *self && r == match self.map_spec(addr) {
                Page::Ram(o) => self.ram@[o as int],
                Page::Rom(o) => self.rom@[o as int],
                Page::Nor(o) => nor_read_spec(self.fp_step, self.fp_type, self.nor@, self.nor_info_block@, addr, o, false),
            }
    }

    /// Execute a CPU read (with IO side effects).
    pub fn bus_read(&mut self, addr: u16) -> (r: u8)
        requires
            old(self).wf(),
        ensures
            final(self).wf(),
            old(self).bus_read_post(*final(self), addr, r),
    {
        if addr < 0x40 {
            return self.io_read(addr as u8);
        }
        match self.map_addr(addr) {
            Page::Ram(o) => self.ram[o],
            Page::Rom(o) => self.rom[o],
            Page::Nor(o) => nor_read(self.fp_step, self.fp_type, &self.nor, &self.nor_info_block, addr, o, false),
        }
    }

    /// What a CPU write of `value` to `addr` does to the machine.
    pub open spec fn bus_write_post(&self, after: Self, addr: u16, value: u8) -> bool {
        &&& addr < 0x40 ==> after.io_write_post(*self, addr as u8, value)
        &&& addr >= 0x40 ==> match self.map_spec(addr) {
                Page::Ram(o) => after.ram@ == self.ram@.update(o as int, value) && after == (Pc1000Machine {
                    ram: after.ram,
                    ..*self
                }),
                Page::Rom(o) => after == *self,
                Page::Nor(o) => {
                    let t = nor_write_spec(self.nor_state(), addr, o, value, false);
                    &&& after.nor_state() == t
                    &&& after == (Pc1000Machine {
                        nor: after.nor,
                        nor_info_block: after.nor_info_block,
                        fp_step: after.fp_step,
                        fp_type: after.fp_type,
                        nor_dirty: after.nor_dirty,
                        ..*self
                    })
                },
            }
    }

    /// Execute a CPU write: IO registers, RAM, or the NOR command sequence
    /// (ROM pages are read-only).
    pub fn bus_write(&mut self, addr: u16, value: u8)
        requires
            old(self).wf(),
        ensures
            final(self).wf(),
            old(self).bus_write_post(*final(self), addr, value),
    {
        if addr < 0x40 {
            self.io_write(addr as u8, value);
            return;
        }
        match self.map_addr(addr) {
            Page::Ram(o) => {
                self.ram[o] = value;
            },
            Page::Nor(o) => {
                let dirty = nor_write(
                    &mut self.fp_step,
                    &mut self.fp_type,
                    &mut self.nor,
                    &mut self.nor_info_block,
                    addr,
                    o,
                    value,
                    false,
                );
                if dirty {
                    self.nor_dirty = true;
                }
            },
            Page::Rom(_) => {},
        }
    }

    /// Value an IO register read returns.
    pub open spec fn io_read_value(&self, addr: u8) -> u8 {
        if addr == 0x04 || addr == 0x05 {
            self.timers.tm0v as u8
        } else if addr == 0x06 || addr == 0x07 {
            (self.timers.tm1v2 / 2) as u8
        } else if addr == 0x0B {
            (self.io@[0x0B] & 0xFE) | pc_port3_bit(self.io@, self.key_posi@)
        } else if addr == 0x20 {
            (if self.dsp_sleep { 0x80u8 } else { 0u8 }) | (if self.is_play_music { 0x30u8 } else { 0u8 }) | 0x40u8
        } else if addr == 0x21 {
            self.dsp_ret
        } else {
            self.io@[addr as int]
        }
    }

    /// State other than the IO registers after an IO register read:
    /// 0x04/0x05 stop/start
    /// Timer 0, 0x06/0x07 stop/start Timer 1, and reading the DSP return
    /// value 0x5A turns it into 0xFF (anything else into 0).
    pub open spec fn after_io_read(&self, addr: u8) -> Self {
        if addr == 0x04 || addr == 0x05 {
            Pc1000Machine { timers: SpdcTimers { timer0run: addr == 0x05, ..self.timers }, ..*self }
        } else if addr == 0x06 || addr == 0x07 {
            Pc1000Machine { timers: SpdcTimers { timer1run: addr == 0x07, ..self.timers }, ..*self }
        } else if addr == 0x21 {
            Pc1000Machine { dsp_ret: if self.dsp_ret == 0x5A { 0xFF } else { 0 }, ..*self }
        } else {
            *self
        }
    }

    /// IO register read.
    pub fn io_read(&mut self, addr: u8) -> (r: u8)
        requires
            old(self).wf(),
            addr < 0x80,
        ensures
            final(self).wf(),
            r == old(self).io_read_value(addr),
            final(self).io@ == if addr == 0x01 { old(self).io@.update(0x01, old(self).io@[0x01] & 0xC0) } else { old(self).io@ },
            *final(self) == (Pc1000Machine { io: final(self).io, ..old(self).after_io_read(addr) }),
    {
        let reg = addr as usize;
        match addr {
            0x01 => {
                let value = self.io[reg];
                self.io[reg] = value & 0xC0;
                value
            },
            0x04 => {
                self.timers.timer0run = false;
                self.timers.tm0v as u8
            },
            0x05 => {
                self.timers.timer0run = true;
                self.timers.tm0v as u8
            },
            0x06 => {
                self.timers.timer1run = false;
                (self.timers.tm1v2 / 2) as u8
            },
            0x07 => {
                self.timers.timer1run = true;
                (self.timers.tm1v2 / 2) as u8
            },
            0x0B => self.read_port3(),
            0x20 => {
                let busy: u8 = if self.is_play_music { 0x30 } else { 0 };
                (if self.dsp_sleep { 0x80u8 } else { 0u8 }) | busy | 0x40
            },
            0x21 => {
                let ret = self.dsp_ret;
                self.dsp_ret = if ret == 0x5A { 0xFF } else { 0 };
                ret
            },
            _ => self.io[reg],
        }
    }
}

/// Whether the beeper plays: port config bit 7 set and CTV select bit 7
/// clear.
pub open spec fn play_spec(io: Seq<u8>) -> bool {
    io[0x07] & 0x80 != 0 && io[0x19] & 0x80 == 0
}

/// DSP command word of a write of `value` to register 0x23.
pub open spec fn dsp_word(value: u8, low: u8) -> u16 {
    ((value as u16) * 256 + low as u16) as u16
}

impl Pc1000Machine {
    /// The state after an IO register write, relative to the state `o`
    /// before it.
    pub open spec fn io_write_post(&self, o: Self, addr: u8, value: u8) -> bool {
        let io2 = pc_io_regs(o.io@, addr, value, o.key_posi@);
        let remap = addr == 0x00 || addr == 0x0A || addr == 0x0D;
        let cmd = dsp_word(value, o.io@[0x22]);
        &&& self.io@ == io2
        &&& remap ==> {
            &&& forall|i: int| 2 <= i < 8 ==> #[trigger] self.win@[i] == pc_window(io2, o.vol0@, o.vol1@, i)
            &&& self.win@[0] == o.win@[0] && self.win@[1] == o.win@[1]
            &&& forall|j: int| 0 <= j < 16 ==> #[trigger] self.bbs@[j] == pc_bbs(io2, o.vol0@, o.vol1@, j)
        }
        &&& !remap ==> self.win == o.win && self.bbs == o.bbs
        &&& self.timers == pc_timers_after_write(o.timers, addr, value)
        &&& self.is_play_music == if addr == 0x07 || addr == 0x19 { play_spec(io2) } else { o.is_play_music }
        &&& self.lcd_buff_addr == if addr == 0x06 { ((value as u16) * 16) as u16 } else { o.lcd_buff_addr }
        &&& self.zp_off == if addr == 0x0F { zp_offset_spec(value) } else { o.zp_off }
        &&& self.music_sample == if addr == 0x18 && o.is_play_music {
            if value & 0x80 != 0 { 1i16 } else { -1i16 }
        } else {
            o.music_sample
        }
        &&& self.dsp_sleep == if addr == 0x20 && (value == 0x40 || value == 0x80) {
            false
        } else if addr == 0x23 && cmd == 0x8000 {
            true
        } else if addr == 0x23 && cmd == 0xFFFF {
            false
        } else {
            o.dsp_sleep
        }
        &&& self.dsp_ret == if addr == 0x23 && cmd == 0xD001 { 0x5Au8 } else { o.dsp_ret }
        &&& *self == (Pc1000Machine {
            io: self.io,
            win: self.win,
            bbs: self.bbs,
            timers: self.timers,
            is_play_music: self.is_play_music,
            lcd_buff_addr: self.lcd_buff_addr,
            zp_off: self.zp_off,
            music_sample: self.music_sample,
            dsp_sleep: self.dsp_sleep,
            dsp_ret: self.dsp_ret,
            ..o
        })
    }

    /// Port 3 keyboard read (power key and hotkey rows in bit 0).
    pub fn read_port3(&self) -> (r: u8)
        ensures
            r == (self.io@[0x0B] & 0xFE) | pc_port3_bit(self.io@, self.key_posi@),
    {
        let p0_dir = self.io[0x0F] & 0xF0;
        let p1_dir = self.io[0x15] & 0x03;
        let kp = self.key_posi;
        let mut b0: u8 = 1;
        if p0_dir == 0xF0 {
            let port0 = self.io[0x41];
            b0 = match port0 {
                0x00 => if kp[6] == 0 && kp[7] & 0x01 == 0 { 1 } else { 0 },
                0x7F => if kp[6] & 0x80 == 0 { 1 } else { 0 },
                0xBF => if kp[6] & 0x40 == 0 { 1 } else { 0 },
                0xDF => if kp[6] & 0x20 == 0 { 1 } else { 0 },
                0xEF => if kp[6] & 0x10 == 0 { 1 } else { 0 },
                0xF7 => if kp[6] & 0x08 == 0 { 1 } else { 0 },
                0xFB => if kp[6] & 0x04 == 0 { 1 } else { 0 },
                0xFD => if kp[6] & 0x02 == 0 { 1 } else { 0 },
                0xFE => if kp[6] & 0x01 == 0 { 1 } else { 0 },
                0xFF => if kp[7] & 0x01 == 0 { 1 } else { 0 },
                _ => 1,
            };
        }
        if b0 == 1 && p1_dir == 3 {
            let p1 = self.io[0x09];
            b0 = if p1 == 0xFE {
                if kp[7] & 0x02 == 0 { 1 } else { 0 }
            } else if p1 == 0xFD {
                if kp[7] & 0x04 == 0 { 1 } else { 0 }
            } else if p1 & 0x03 == 0 {
                if kp[7] & 0x06 == 0 { 1 } else { 0 }
            } else {
                b0
            };
        }
        (self.io[0x0B] & 0xFE) | b0
    }

    /// Music playback enable check (port config 0x07 vs CTV select 0x19).
    fn check_play(&mut self)
        ensures
            *final(self) == (Pc1000Machine { is_play_music: play_spec(old(self).io@), ..*old(self) }),
    {
        let play = self.io[0x07] & 0x80 != 0 && self.io[0x19] & 0x80 == 0;
        self.is_play_music = play;
    }

    /// DSP command decoder: 0x8000 sleeps, 0xD001 queues the status reply
    /// 0x5A, 0xFFFF wakes.
    fn dsp_cmd(&mut self, cmd: u16)
        ensures
            *final(self) == (Pc1000Machine {
                dsp_sleep: if cmd == 0x8000 { true } else if cmd == 0xFFFF { false } else { old(self).dsp_sleep },
                dsp_ret: if cmd == 0xD001 { 0x5A } else { old(self).dsp_ret },
                ..*old(self)
            }),
    {
        if cmd == 0x8000 {
            self.dsp_sleep = true;
        } else if cmd == 0xD001 {
            self.dsp_ret = 0x5A;
        }
        if cmd == 0xFFFF {
            self.dsp_sleep = false;
        }
    }

    /// IO register write.
    pub fn io_write(&mut self, addr: u8, value: u8)
        requires
            old(self).wf(),
            addr < 0x80,
        ensures
            final(self).wf(),
            final(self).io_write_post(*old(self), addr, value),
    {
        let reg = addr as usize;
        match addr {
            0x00 | 0x0A | 0x0D => {
                self.io[reg] = value;
                self.update_map();
            },
            0x01 => {
                // Interrupt enable register (shadow byte 0x40).
                self.io[0x40] = value;
            },
            0x02 => {
                self.io[reg] = value;
                let v = value as u16 + self.timers.tm0r;
                self.timers.tm0v = if v > 255 { 255 } else { v };
                self.timers.tm0r = 0;
            },
            0x03 => {
                self.io[reg] = value;
                self.timers.tm1v2 = value as u16 * 2;
            },
            0x07 | 0x19 => {
                self.io[reg] = value;
                self.check_play();
            },
            0x08 => {
                self.io[reg] = value;
                self.io[0x41] = value;
            },
            0x09 => {
                self.io[reg] = value;
                // The selected port-1 line drives its matrix row into port 0.
                let row: usize = match value {
                    0x80 => 0,
                    0x40 => 1,
                    0x20 => 2,
                    0x10 => 3,
                    0x08 => 4,
                    0x04 => 5,
                    _ => 8,
                };
                if row < 8 {
                    self.io[0x08] = self.key_posi[row];
                }
            },
            0x06 => {
                self.io[reg] = value;
                self.lcd_buff_addr = (value as u16) << 4;
                proof {
                    lemma_byte_pair(value, 0);
                }
            },
            0x0F => {
                self.io[reg] = value;
                self.zp_off = zp_offset(value);
            },
            0x10 => {
                self.io[reg] = value;
                let r = self.timers.tma_reload;
                proof {
                    lemma_timer_fields(r, value);
                }
                self.timers.tma_reload = (r & 0xFF00) | value as u32;
            },
            0x11 => {
                self.io[reg] = value;
                let r = self.timers.tma_reload;
                proof {
                    lemma_timer_fields(r, value);
                }
                self.timers.tma_reload = (r & 0x00FF) | (value as u32) << 8;
                self.timers.tma_value = self.timers.tma_reload;
            },
            0x18 => {
                self.io[reg] = value;
                if self.is_play_music {
                    self.music_sample = if value & 0x80 != 0 { 1 } else { -1 };
                }
            },
            0x20 => {
                // DSP control: 0x40 reset / 0x80 wake-up.
                if value == 0x40 || value == 0x80 {
                    self.dsp_sleep = false;
                }
                self.io[reg] = value;
            },
            0x23 => {
                self.io[reg] = value;
                let cmd = (value as u16) << 8 | self.io[0x22] as u16;
                proof {
                    let low = self.io@[0x22];
                    lemma_byte_pair(value, low);
                }
                self.dsp_cmd(cmd);
            },
            _ => {
                self.io[reg] = value;
            },
        }
        proof {
            assert(self.io@ =~= pc_io_regs(old(self).io@, addr, value, old(self).key_posi@));
        }
    }

    /// Which model this machine implements.
    pub fn model(&self) -> (r: MachineModel)
        ensures
            r == MachineModel::Pc1000,
    {
        MachineModel::Pc1000
    }

    /// Whether the device is in sleep mode (the PC1000 never reports it).
    pub fn is_sleeping(&self) -> (r: bool)
        ensures
            !r,
    {
        false
    }

    /// What `set_key` does to the machine.
    pub open spec fn set_key_post(&self, after: Self, key_id: u8, pressed: bool) -> bool {
        &&& ({
                let row = key_id >> 3u8;
                let bit = 1u8 << (key_id & 7);
                let pos = 7 - row;
                if row >= 8 {
                    after.key_posi == self.key_posi
                } else {
                    after.key_posi@ == self.key_posi@.update(
                        pos,
                        if pressed { self.key_posi@[pos] | bit } else { self.key_posi@[pos] & !bit },
                    )
                }
            })
        &&& after == (Pc1000Machine { key_posi: after.key_posi, ..*self })
    }

    /// Set a key: `key_id` encodes row `key_id >> 3` and column
    /// `key_id & 7`; rows past 7 are ignored.
    pub fn set_key(&mut self, key_id: u8, pressed: bool)
        requires
            old(self).wf(),
        ensures
            final(self).wf(),
            old(self).set_key_post(*final(self), key_id, pressed),
    {
        let row = (key_id >> 3) as usize;
        let col = key_id & 7;
        if row >= 8 {
            return;
        }
        proof {
            lemma_byte_fields(key_id);
        }
        let bit = 1u8 << col;
        let pos = 7 - row;
        if pressed {
            self.key_posi[pos] = self.key_posi[pos] | bit;
        } else {
            self.key_posi[pos] = self.key_posi[pos] & !bit;
        }
        proof {
            assert(self.key_posi@ =~= old(self).key_posi@.update(
                pos as int,
                if pressed { old(self).key_posi@[pos as int] | bit } else { old(self).key_posi@[pos as int] & !bit },
            ));
        }
    }

    /// What `step` does to the machine and the CPU, taking `n` cycles.
    pub open spec fn step_post(&self, after: Self, cpu0: Cpu, cpu1: Cpu, n: u64) -> bool {
        &&& 2 <= n <= 7
        &&& ({
                let (c, k) = s_step(cpu0, cpu1.trace@);
                &&& k == n
                &&& cpu1 == (Cpu { irq_pending: cpu1.irq_pending, nmi_pending: cpu1.nmi_pending, ..c })
                &&& c.irq_pending ==> cpu1.irq_pending
                &&& c.nmi_pending ==> cpu1.nmi_pending
                &&& exists|mid: Self| #[trigger] serves_all(*self, cpu1.trace@, mid)
                        && after == (Pc1000Machine { timers: after.timers, io: after.io, ..mid })
                        && periodic_post(mid.timers, mid.io@, c, after.timers, after.io@, cpu1, n)
            })
        &&& after.rom@ == self.rom@
    }

    /// Execute one CPU instruction and advance the periodic timers; returns
    /// the number of cycles consumed.
    pub fn step(&mut self, cpu: &mut Cpu) -> (n: u64)
        requires
            old(self).wf(),
        ensures
            final(self).wf(),
            old(self).step_post(*final(self), *old(cpu), *final(cpu), n),
    {
        let ghost c0 = *cpu;
        let ghost m0 = *self;
        let cycles = cpu.step(self);
        let ghost mid = *self;
        let ghost cm = *cpu;
        proof {
            lemma_step_cycles(c0, cpu.trace@);
        }
        tick_periodic(&mut self.timers, &mut self.io, cpu, cycles);
        proof {
            assert(serves_all(m0, cpu.trace@, mid)
                && *self == (Pc1000Machine { timers: self.timers, io: self.io, ..mid })
                && periodic_post(mid.timers, mid.io@, cm, self.timers, self.io@, *cpu, cycles));
        }
        cycles
    }

    /// What `end_of_frame` does to the machine and the CPU.
    pub open spec fn end_of_frame_post(&self, after: Self, cpu0: Cpu, cpu1: Cpu) -> bool {
        &&& cpu1 == cpu0
        &&& after.lcd.lcd_addr == self.lcd.lcd_addr
        &&& ({
                let addr = (self.lcd_buff_addr as int % 0x4000) as usize;
                &&& after.lcd.fb() == self.ram@.subrange(addr as int, addr + 1600)
                &&& after.lcd.dirty_spec()
            })
        &&& after.audio.output_buffer@ == self.audio.output_buffer@ + Seq::new(
                1470,
                |k: int| if self.is_play_music { (self.music_sample * 8192) as i16 } else { 0i16 },
            )
        &&& after.ram == self.ram
        &&& after.io == self.io
        &&& after.nor == self.nor
        &&& after.rom == self.rom
    }

    /// Frame end: copy the LCD framebuffer from RAM (address masked to
    /// 14 bits) and output one frame of beeper level (8192 times the
    /// square-wave sample while playing, else 0).
    pub fn end_of_frame(&mut self, cpu: &mut Cpu)
        requires
            old(self).wf(),
        ensures
            final(self).wf(),
            old(self).end_of_frame_post(*final(self), *old(cpu), *final(cpu)),
    {
        let addr = (self.lcd_buff_addr as usize) & 0x3FFF;
        proof {
            let a = self.lcd_buff_addr;
            lemma_addr_fields(a);
        }
        self.lcd.copy_from(self.ram.as_slice(), addr);
        let level: i16 = if self.is_play_music { self.music_sample * 8192 } else { 0 };
        self.audio.output_frame(level);
    }

    /// Move pending audio samples to `out`.
    pub fn drain_audio(&mut self, out: &mut Vec<i16>)
        requires
            old(self).wf(),
        ensures
            final(self).wf(),
            final(out)@ == old(out)@ + old(self).audio.output_buffer@,
            final(self).audio.output_buffer@.len() == 0,
            *final(self) == (Pc1000Machine { audio: final(self).audio, ..*old(self) }),
    {
        self.audio.drain_audio(out);
    }

    /// What `reset` does to the machine.
    pub open spec fn reset_post(&self, after: Self) -> bool {
        &&& after.ram@ == Seq::new(RAM_SIZE as nat, |i: int| 0u8)
        &&& after.io@ == Seq::new(0x80, |i: int| 0u8)
        &&& after.zp_off == 0x40
        &&& after.lcd_buff_addr == 0x09C0
        &&& after.key_posi@ == seq![0u8; 8]
        &&& after.fp_step == 0 && after.fp_type == NorCmd::NoCommand
        &&& !after.timers.timer0run && !after.timers.timer1run
        &&& after.rom == self.rom
        &&& after.nor == self.nor
        &&& forall|i: int| 2 <= i < 8 ==> #[trigger] after.win@[i] == pc_window(after.io@, after.vol0@, after.vol1@, i)
    }

    /// Reset to power-on state (images and volume tables are kept).
    pub fn reset(&mut self)
        requires
            old(self).wf(),
        ensures
            final(self).wf(),
            old(self).reset_post(*final(self)),
    {
        fill_all(&mut self.ram, 0);
        self.io = filled(0);
        self.zp_off = 0x40;
        self.lcd_buff_addr = 0x09C0;
        self.key_posi = filled(0);
        self.timers = SpdcTimers::new();
        self.fp_step = 0;
        self.fp_type = NorCmd::NoCommand;
        self.dsp_sleep = false;
        self.dsp_ret = 0;
        self.is_play_music = false;
        self.music_sample = 1;
        self.nor_dirty = false;
        self.audio.reset();
        self.lcd.reset();
        proof {
            assert(self.io@ =~= Seq::new(0x80, |i: int| 0u8));
            assert(self.key_posi@ =~= seq![0u8; 8]);
        }
        self.update_map();
    }

    /// Load ROM and NOR images (see [`Pc1000Machine::load_rom_impl`]).
    pub fn load_rom(&mut self, files: &RomFiles) -> (r: Result<(), MachineError>)
        requires
            old(self).wf(),
        ensures
            final(self).wf(),
            r is Err <==> (files.rom is Some && files.rom.unwrap()@.len() != ROM_SIZE_12M && files.rom.unwrap()@.len()
                != ROM_SIZE_16M) || (files.nor is Some && files.nor.unwrap()@.len() < NOR_SIZE),
            files.rom is Some && files.rom.unwrap()@.len() != ROM_SIZE_12M && files.rom.unwrap()@.len()
                != ROM_SIZE_16M ==> r == Err::<(), MachineError>(
                MachineError::RomSizeInvalid { got: files.rom.unwrap()@.len() as usize },
            ),
            r is Ok ==> {
                &&& files.rom is Some ==> final(self).rom@ == files.rom.unwrap()@
                &&& files.rom is None ==> final(self).rom == old(self).rom
                &&& files.nor is Some ==> final(self).nor_dump() == files.nor.unwrap()@.subrange(0, NOR_SIZE as int)
                &&& files.nor is None ==> final(self).nor == old(self).nor
            },
            old(self).load_rom_post(*final(self), *files, r),
    {
        self.load_rom_impl(files)
    }

    /// Replace the NOR image by the first 512KB of a dump (at least 512KB).
    pub fn load_nor_data(&mut self, data: &[u8]) -> (r: Result<(), MachineError>)
        requires
            old(self).wf(),
        ensures
            final(self).wf(),
            old(self).load_nor_post(*final(self), data@, r),
    {
        if data.len() < NOR_SIZE {
            return Err(MachineError::NorTooSmall { expected: NOR_SIZE, got: data.len() });
        }
        copy_into(&mut self.nor, 0, data, 0, NOR_SIZE);
        proof {
            assert(self.nor@ =~= data@.subrange(0, NOR_SIZE as int));
        }
        self.nor_dirty = false;
        Ok(())
    }

    /// The NOR image in the layout it was loaded from (half-swapped back
    /// when the dump was half-swapped).
    pub fn save_nor_data(&self) -> (r: Vec<u8>)
        ensures
            r@ == self.nor_dump(),
    {
        if self.nor_swapped {
            swap_halves(self.nor.as_slice())
        } else {
            self.nor.clone()
        }
    }
}

impl Pc1000Machine {
    /// The save state `save_state` captures with `cpu`.
    pub open spec fn save_state_post(&self, cpu: Cpu, r: SaveState) -> bool {
        &&& r.cpu == cpu
        &&& r.ram@ == self.ram@
        &&& r.io@ == self.io@.subrange(0, 0x40)
        &&& r.lcd_addr == self.lcd_buff_addr as u32
    }

    /// Capture a save state (the first 64 IO registers; blank timer,
    /// input and flash components).
    pub fn save_state(&self, cpu: &Cpu) -> (r: SaveState)
        requires
            self.wf(),
        ensures
            self.save_state_post(*cpu, r),
            r.wf(),
    {
        let io_part = vstd::slice::slice_subrange(self.io.as_slice(), 0, 0x40);
        SaveState::new(
            cpu,
            self.ram.as_slice(),
            io_part,
            &Timer::new(),
            &Input::new(),
            &self.audio,
            &Flash::new(),
            self.lcd_buff_addr as u32,
        )
    }

    /// What `load_state` restores from `state`.
    pub open spec fn load_state_post(&self, after: Self, cpu1: Cpu, state: SaveState) -> bool {
        &&& cpu1 == state.cpu
        &&& after.io@.subrange(0, 0x40) == if state.io@.len() >= 0x40 {
                state.io@.subrange(0, 0x40)
            } else {
                self.io@.subrange(0, 0x40)
            }
        &&& after.io@.subrange(0x40, 0x80) == Seq::new(0x40, |i: int| 0u8)
        &&& after.ram@ == if state.ram@.len() >= RAM_SIZE {
                state.ram@.subrange(0, RAM_SIZE as int)
            } else {
                self.ram@
            }
        &&& after.lcd_buff_addr == state.lcd_addr as u16
        &&& after.lcd.lcd_addr == state.lcd_addr
        &&& after.zp_off == 0x40
        &&& !after.timers.timer0run && !after.timers.timer1run
        &&& after.rom == self.rom
        &&& after.nor == self.nor
        &&& after.key_posi@ == seq![0u8; 8]
        &&& !after.dsp_sleep && after.dsp_ret == 0 && !after.is_play_music
    }

    /// Restore a save state: the first 64 IO registers (when present,
    /// the rest cleared), RAM (when large enough), the LCD address, and
    /// a fresh timer and window state.
    pub fn load_state(&mut self, cpu: &mut Cpu, state: &SaveState)
        requires
            old(self).wf(),
        ensures
            final(self).wf(),
            old(self).load_state_post(*final(self), *final(cpu), *state),
    {
        *cpu = state.cpu;
        if state.io.len() >= 0x40 {
            let mut i: usize = 0;
            while i < 0x40
                invariant
                    i <= 0x40,
                    state.io@.len() >= 0x40,
                    forall|k: int| 0 <= k < i ==> self.io@[k] == state.io@[k],
                    forall|k: int| i <= k < 0x80 ==> self.io@[k] == old(self).io@[k],
                    *self == (Pc1000Machine { io: self.io, ..*old(self) }),
                decreases 0x40 - i,
            {
                self.io[i] = state.io[i];
                i += 1;
            }
        }
        let ghost io_low = self.io@.subrange(0, 0x40);
        let mut j: usize = 0x40;
        while j < 0x80
            invariant
                0x40 <= j <= 0x80,
                self.io@.subrange(0, 0x40) == io_low,
                forall|k: int| 0x40 <= k < j ==> self.io@[k] == 0,
                *self == (Pc1000Machine { io: self.io, ..*old(self) }),
            decreases 0x80 - j,
        {
            self.io[j] = 0;
            proof {
                assert(self.io@.subrange(0, 0x40) =~= io_low);
            }
            j += 1;
        }
        proof {
            assert(self.io@.subrange(0x40, 0x80) =~= Seq::new(0x40, |i: int| 0u8));
            if state.io@.len() >= 0x40 {
                assert(self.io@.subrange(0, 0x40) =~= state.io@.subrange(0, 0x40));
            } else {
                assert(self.io@.subrange(0, 0x40) =~= old(self).io@.subrange(0, 0x40));
            }
        }
        if state.ram.len() >= RAM_SIZE {
            copy_into(&mut self.ram, 0, state.ram.as_slice(), 0, RAM_SIZE);
            proof {
                assert(self.ram@ =~= state.ram@.subrange(0, RAM_SIZE as int));
            }
        }
        self.lcd_buff_addr = state.lcd_addr as u16;
        self.lcd.lcd_addr = state.lcd_addr;
        self.zp_off = 0x40;
        self.timers.timer0run = false;
        self.timers.timer1run = false;
        self.timers.tm0v = 0;
        self.timers.tm0r = 0;
        self.timers.tm1v2 = 0;
        self.timers.tma_value = 0;
        self.timers.tma_reload = 0;
        self.key_posi = filled(0);
        self.dsp_sleep = false;
        self.dsp_ret = 0;
        self.is_play_music = false;
        proof {
            assert(self.key_posi@ =~= seq![0u8; 8]);
        }
        self.update_map();
    }
}

impl CpuBus for Pc1000Machine {
    open spec fn bus_inv(&self) -> bool {
        self.wf()
    }

    open spec fn bus_kept(&self) -> Seq<u8> {
        self.rom@
    }

    open spec fn serves(&self, ev: BusEvent, after: Self) -> bool {
        match ev {
            BusEvent::Read(a, v) => self.bus_read_post(after, a, v),
            BusEvent::Write(a, v) => self.bus_write_post(after, a, v),
        }
    }

    fn read(&mut self, addr: u16) -> (v: u8) {
        let ghost before = *self;
        let v = self.bus_read(addr);
        proof {
            assert(before.serves(BusEvent::Read(addr, v), *self));
        }
        v
    }

    fn write(&mut self, addr: u16, value: u8) {
        self.bus_write(addr, value)
    }
}

impl Machine for Pc1000Machine {
    open spec fn machine_inv(&self) -> bool {
        self.wf()
    }

    open spec fn machine_model(&self) -> MachineModel {
        MachineModel::Pc1000
    }

    open spec fn debug_byte(&self, addr: u16) -> u8 {
        self.peek_spec(addr)
    }

    open spec fn lcd_view(&self) -> Lcd {
        self.lcd
    }

    open spec fn asleep(&self) -> bool {
        false
    }

    open spec fn nor_image(&self) -> Option<Seq<u8>> {
        Some(self.nor_dump())
    }

    open spec fn firmware_identity(&self) -> u64 {
        fnv1a(self.rom@)
    }


    fn model(&self) -> (r: MachineModel) {
        MachineModel::Pc1000
    }

    fn reset(&mut self)
        ensures
            old(self).reset_post(*final(self)),
    {
        Pc1000Machine::reset(self)
    }

    fn load_rom(&mut self, files: &RomFiles) -> (r: Result<(), MachineError>)
        ensures
            old(self).load_rom_post(*final(self), *files, r),
    {
        Pc1000Machine::load_rom(self, files)
    }

    fn set_key(&mut self, key_id: u8, pressed: bool)
        ensures
            old(self).set_key_post(*final(self), key_id, pressed),
    {
        Pc1000Machine::set_key(self, key_id, pressed)
    }

    fn is_sleeping(&self) -> (r: bool) {
        Pc1000Machine::is_sleeping(self)
    }

    fn step(&mut self, cpu: &mut Cpu) -> (n: u64)
        ensures
            old(self).step_post(*final(self), *old(cpu), *final(cpu), n),
    {
        Pc1000Machine::step(self, cpu)
    }

    fn end_of_frame(&mut self, cpu: &mut Cpu)
        ensures
            old(self).end_of_frame_post(*final(self), *old(cpu), *final(cpu)),
    {
        Pc1000Machine::end_of_frame(self, cpu)
    }

    fn peek(&self, addr: u16) -> (r: u8) {
        Pc1000Machine::peek(self, addr)
    }

    fn peek_u16(&self, addr: u16) -> (r: u16) {
        Pc1000Machine::peek_u16(self, addr)
    }

    fn lcd(&self) -> (r: &Lcd) {
        &self.lcd
    }

    fn drain_audio(&mut self, out: &mut Vec<i16>)
        ensures
            final(out)@ == old(out)@ + old(self).audio.output_buffer@,
            final(self).audio.output_buffer@.len() == 0,
    {
        Pc1000Machine::drain_audio(self, out)
    }

    fn load_nor(&mut self, data: &[u8]) -> (r: Result<(), MachineError>)
        ensures
            old(self).load_nor_post(*final(self), data@, r),
    {
        self.load_nor_data(data)
    }

    fn save_nor(&self) -> (r: Result<Vec<u8>, MachineError>) {
        Ok(self.save_nor_data())
    }

    fn set_speed_up(&mut self, speed_up: bool) {
        // Only the NC1020 timer has a speed-up mode.
    }

    fn save_state(&self, cpu: &Cpu) -> (r: SaveState)
        ensures
            self.save_state_post(*cpu, r),
    {
        Pc1000Machine::save_state(self, cpu)
    }

    fn persistent_state_identity(&self) -> (r: u64) {
        persistent_identity(self.rom.as_slice())
    }

    fn load_state(&mut self, cpu: &mut Cpu, state: &SaveState)
        ensures
            old(self).load_state_post(*final(self), *final(cpu), *state),
    {
        Pc1000Machine::load_state(self, cpu, state)
    }
}

/// A CPU write to an address that RAM stands behind is given back by the
/// next CPU read of that address.
pub proof fn law_ram_write_then_read(m0: Pc1000Machine, m1: Pc1000Machine, m2: Pc1000Machine, addr: u16, value: u8, v: u8)
    requires
        m0.wf(),
        addr >= 0x40,
        m0.map_spec(addr) is Ram,
        m0.bus_write_post(m1, addr, value),
        m1.bus_read_post(m2, addr, v),
    ensures
        v == value,
        m2 == m1,
{
    lemma_addr_fields(addr);
    if addr >= 0x4000 {
        assert(page_ok(m0.win@[(addr >> 13u16) as int], m0.ram@.len(), m0.rom@.len(), m0.nor@.len()));
    }
    assert(page_ok_byte(m0.map_spec(addr), m0.ram@.len(), m0.rom@.len(), m0.nor@.len()));
}


proof fn lemma_key_fields(k: u8)
    by (bit_vector)
    ensures
        k >> 3u8 == k / 8,
        k & 7u8 == k % 8,
{
}

/// The PC1000 keypad: driving keypad row `r` (2 to 7) with the single bit
/// `1 << r` on port 1 (register 0x09) latches that row's pressed-column
/// bits into register 0x08, so after pressing key `k` (row `k / 8` from 2
/// on, column `k % 8`) the scan of its row reports bit `k % 8`, and after
/// releasing it that bit is clear.
pub proof fn law_pc1000_key_scan(a: Pc1000Machine, b: Pc1000Machine, k: u8, pressed: bool, io: Seq<u8>)
    requires
        16 <= k < 64,
        io.len() > 0x41,
        a.set_key_post(b, k, pressed),
    ensures
        pressed ==> pc_io_regs(io, 0x09, 1u8 << (k / 8), b.key_posi@)[0x08] & (1u8 << (k % 8)) != 0,
        !pressed ==> pc_io_regs(io, 0x09, 1u8 << (k / 8), b.key_posi@)[0x08] & (1u8 << (k % 8)) == 0,
        pc_io_regs(io, 0x09, 1u8 << (k / 8), b.key_posi@)[0x08] == b.key_posi@[7 - k / 8],
{
    lemma_key_fields(k);
    lemma_row_select(k / 8);
    lemma_column_bit(a.key_posi@[7 - k / 8], k % 8);
}


/// The LCD frame follows register 0x06: after `value` is written there,
/// the frame drawn at the end of the frame is the 1600 RAM bytes from
/// (`value` * 16) % 0x4000.
pub proof fn law_frame_from_register_06(a: Pc1000Machine, mid: Pc1000Machine, b: Pc1000Machine, value: u8, c0: Cpu, c1: Cpu)
    requires
        mid.io_write_post(a, 0x06, value),
        mid.end_of_frame_post(b, c0, c1),
    ensures
        b.lcd.fb() == mid.ram@.subrange((value * 16) % 0x4000, (value * 16) % 0x4000 + 1600),
{
}

} // verus!
