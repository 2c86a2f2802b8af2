//! NC1020 memory system with bank switching.
//!
//! Memory map:
//!   0x0000-0x003F: IO registers
//!   0x0040-0x007F: zero-page window, switchable through register 0x0F
//!   0x0080-0x1FFF: zero page, stack and RAM page 0
//!   0x2000-0x3FFF: RAM page 1 (page 2 when register 0x0A bit 2 is set)
//!   0x4000-0xBFFF: 32KB bank window (register 0x00: 0x00-0x1F NOR, 0x80-0xFF ROM)
//!   0xC000-0xDFFF: BBS page (register 0x0A bits 0-3)
//!   0xE000-0xFFFF: fixed BIOS page, the second page of the volume's first bank
//!
//! The sixteen 8KB BBS pages are held in one buffer of 16 x 8KB.

use vstd::prelude::*;
use crate::bits::{lemma_addr_fields, lemma_byte_fields};
use crate::bytes::{splice, run, copy_into, copy_within, fill_all};

verus! {

/// Total RAM size (32KB)
pub const RAM_SIZE: usize = 0x8000;
/// ROM bank size (32KB)
pub const BANK_SIZE: usize = 0x8000;
/// ROM size: 768 banks of 32KB (three volumes of 256 banks)
pub const ROM_SIZE: usize = 0x180_0000;
/// NOR Flash size: 32 banks of 32KB
pub const NOR_SIZE: usize = 0x10_0000;
/// Number of ROM volumes
pub const ROM_VOLUME_COUNT: usize = 3;
/// Number of ROM banks (256 per volume)
pub const ROM_BANKS: usize = 0x300;
/// Number of NOR banks
pub const NOR_BANKS: usize = 0x20;
/// Memory page size (8KB)
pub const PAGE_SIZE: usize = 0x2000;
/// IO register limit (addresses below this are IO)
pub const IO_LIMIT: u16 = 0x40;
/// Size of the BBS page buffer (16 pages of 8KB)
pub const BBS_SIZE: usize = 0x2_0000;

/// Memory region type
#[derive(Clone, Copy, Debug, PartialEq, Eq, Structural)]
pub enum MemRegion {
    /// RAM
    Ram,
    /// ROM
    Rom,
    /// NOR Flash
    Nor,
    /// BBS (banked ROM page)
    Bbs,
    /// Invalid/unmapped
    Invalid,
}

/// Memory system state
#[derive(Clone)]
pub struct Memory {
    /// Main RAM (32KB)
    pub ram: Vec<u8>,
    /// IO registers (64 bytes, at 0x0000-0x003F)
    pub io: Vec<u8>,
    /// Backup of the zero-page window while it is switched away
    pub bak_40: Vec<u8>,
    /// Current memory page mapping (8 pages of 8KB each)
    pub page_map: [u8; 8],
    /// BBS pages: 16 pages of 8KB, page `i` at offset `i * 0x2000`
    pub bbs_pages: Vec<u8>,
    /// Current bank index (from register 0x00)
    pub current_bank: u8,
    /// Current volume index (from register 0x0D)
    pub current_volume: u8,
    /// Current ROA/BBS value (from register 0x0A)
    pub current_roa_bbs: u8,
    /// Current zero page switch value (from register 0x0F)
    pub current_zp_switch: u8,
    /// Whether the bank region is writable (NOR Flash)
    pub bank_writable: bool,
}

/// First ROM bank of the volume selected by register 0x0D.
pub open spec fn volume_base(vol: u8) -> int {
    if vol & 3 == 1 {
        0x100
    } else if vol & 3 == 3 {
        0x200
    } else {
        0
    }
}

/// RAM offset that stands behind the zero-page window for switch value
/// `index` (only its low three bits count).
pub open spec fn zp40_ptr(index: u8) -> usize {
    let i = index & 7;
    if i == 0 {
        0x40
    } else if i == 1 {
        0xC0
    } else if i == 2 || i == 5 {
        0x4040
    } else if i == 3 || i == 6 {
        0x6040
    } else {
        0x2040
    }
}

/// RAM and backup after switching the zero-page window from `old_v` to
/// `new_v`: the window's bytes are saved to the old location (to the
/// backup when that is location 0), and loaded from the new one (back
/// from the backup for location 0).
pub open spec fn zp_switch_spec(ram: Seq<u8>, bak: Seq<u8>, old_v: u8, new_v: u8) -> (Seq<u8>, Seq<u8>) {
    let oi = old_v & 7;
    let ni = new_v & 7;
    let p = zp40_ptr(ni) as int;
    if ni == oi {
        (ram, bak)
    } else if oi != 0 {
        let r1 = splice(ram, zp40_ptr(oi) as int, ram.subrange(0x40, 0x80));
        if ni == 0 {
            (splice(r1, 0x40, bak), bak)
        } else {
            (splice(r1, 0x40, r1.subrange(p, p + 0x40)), r1.subrange(0x40, 0x80))
        }
    } else {
        (splice(ram, 0x40, ram.subrange(p, p + 0x40)), ram.subrange(0x40, 0x80))
    }
}

/// The BBS buffer with its first `n` 32KB quarters loaded from banks
/// `0..n` of volume `vol` (a bank past the end of `rom` is skipped).
pub open spec fn bbs_fill(bbs: Seq<u8>, rom: Seq<u8>, vol: u8, n: int) -> Seq<u8> {
    Seq::new(
        bbs.len(),
        |k: int|
            {
                let bo = (volume_base(vol) + k / 0x8000) * 0x8000;
                if k < n * 0x8000 && bo + 0x8000 <= rom.len() {
                    rom[bo + k % 0x8000]
                } else {
                    bbs[k]
                }
            },
    )
}

/// BBS pages after a refresh: banks 0-3 of the volume, with page 1 taken
/// from RAM page 3.
pub open spec fn bbs_spec(bbs: Seq<u8>, rom: Seq<u8>, ram: Seq<u8>, vol: u8) -> Seq<u8> {
    splice(bbs_fill(bbs, rom, vol, 4), 0x2000, ram.subrange(0x6000, 0x8000))
}

impl Memory {
    /// Buffer sizes.
    pub open spec fn wf(&self) -> bool {
        &&& self.ram@.len() == RAM_SIZE
        &&& self.io@.len() == 0x40
        &&& self.bak_40@.len() == 0x40
        &&& self.bbs_pages@.len() == BBS_SIZE
    }

    /// Region and offset behind CPU address `addr`.
    pub open spec fn map_spec(&self, addr: u16) -> (MemRegion, usize) {
        let page = addr >> 13u16;
        let offset = (addr & 0x1FFF) as usize;
        let bank = self.current_bank;
        if page == 0 {
            (MemRegion::Ram, offset)
        } else if page == 1 {
            if self.current_roa_bbs & 0x04 != 0 {
                (MemRegion::Ram, (0x4000 + offset) as usize)
            } else {
                (MemRegion::Ram, (0x2000 + offset) as usize)
            }
        } else if page <= 5 {
            let quarter: int = (page - 2) * 0x2000;
            if bank < 0x20 {
                (MemRegion::Nor, (bank * 0x8000 + quarter + offset) as usize)
            } else if bank >= 0x80 {
                (MemRegion::Rom, ((volume_base(self.current_volume) + bank - 0x80) * 0x8000 + quarter + offset) as usize)
            } else {
                (MemRegion::Invalid, 0usize)
            }
        } else if page == 6 {
            (MemRegion::Bbs, ((self.current_roa_bbs & 0x0F) * 0x2000 + offset) as usize)
        } else {
            (MemRegion::Rom, (volume_base(self.current_volume) * 0x8000 + 0x2000 + offset) as usize)
        }
    }

    /// Create a new memory system
    pub fn new() -> (r: Self)
        ensures
            r.wf(),
            r.ram@ == run(0x8000, 0),
            r.io@ == run(0x40, 0),
            r.bak_40@ == run(0x40, 0),
            r.bbs_pages@ == run(0x2_0000, 0),
            r.current_bank == 0 && r.current_volume == 0,
            r.current_roa_bbs == 0 && r.current_zp_switch == 0,
            !r.bank_writable,
    {
        let r = Memory {
            ram: vec![0; RAM_SIZE],
            io: vec![0; 0x40],
            bak_40: vec![0; 0x40],
            page_map: [0; 8],
            bbs_pages: vec![0; BBS_SIZE],
            current_bank: 0,
            current_volume: 0,
            current_roa_bbs: 0,
            current_zp_switch: 0,
            bank_writable: false,
        };
        assert(r.ram@ =~= run(0x8000, 0));
        assert(r.io@ =~= run(0x40, 0));
        assert(r.bak_40@ =~= run(0x40, 0));
        assert(r.bbs_pages@ =~= run(0x2_0000, 0));
        r
    }

    /// Reset memory to its initial state (the BBS pages are kept).
    pub fn reset(&mut self)
        requires
            old(self).wf(),
        ensures
            final(self).wf(),
            final(self).ram@ == run(0x8000, 0),
            final(self).io@ == run(0x40, 0),
            final(self).bak_40@ == run(0x40, 0),
            final(self).bbs_pages@ == old(self).bbs_pages@,
            final(self).page_map == old(self).page_map,
            final(self).current_bank == 0 && final(self).current_volume == 0,
            final(self).current_roa_bbs == 0 && final(self).current_zp_switch == 0,
            !final(self).bank_writable,
    {
        fill_all(&mut self.ram, 0);
        fill_all(&mut self.io, 0);
        fill_all(&mut self.bak_40, 0);
        self.current_bank = 0;
        self.current_volume = 0;
        self.current_roa_bbs = 0;
        self.current_zp_switch = 0;
        self.bank_writable = false;
    }

    /// Read a byte of RAM pages 0-1 (0 above 0x3FFF; banked regions are
    /// read through the machine).
    pub fn peek(&self, addr: u16) -> (r: u8)
        requires
            self.wf(),
        ensures
            r == if addr < 0x4000 { self.ram@[addr as int] } else { 0u8 },
    {
        let page = (addr >> 13) as usize;
        let offset = (addr & 0x1FFF) as usize;
        proof {
            lemma_addr_fields(addr);
        }
        match page {
            0 => self.ram[offset],
            1 => self.ram[0x2000 + offset],
            _ => 0,
        }
    }

    /// Write a byte of RAM pages 0-1 (writes above 0x3FFF are ignored).
    pub fn poke(&mut self, addr: u16, value: u8)
        requires
            old(self).wf(),
        ensures
            final(self).wf(),
            final(self).ram@ == if addr < 0x4000 { old(self).ram@.update(addr as int, value) } else { old(self).ram@ },
            final(self).io == old(self).io,
            final(self).bak_40 == old(self).bak_40,
            final(self).bbs_pages == old(self).bbs_pages,
            final(self).current_bank == old(self).current_bank,
            final(self).current_volume == old(self).current_volume,
            final(self).current_roa_bbs == old(self).current_roa_bbs,
            final(self).current_zp_switch == old(self).current_zp_switch,
            final(self).bank_writable == old(self).bank_writable,
            final(self).page_map == old(self).page_map,
    {
        let page = (addr >> 13) as usize;
        let offset = (addr & 0x1FFF) as usize;
        proof {
            lemma_addr_fields(addr);
        }
        match page {
            0 => self.ram[offset] = value,
            1 => self.ram[0x2000 + offset] = value,
            _ => {},
        }
    }

    /// RAM offset behind the zero-page window for switch value `index`.
    pub fn get_zp40_ptr(&self, index: u8) -> (r: usize)
        ensures
            r == zp40_ptr(index),
    {
        proof {
            lemma_byte_fields(index);
        }
        match index & 0x07 {
            0 => 0x0040,
            1 => 0x00C0,
            2 => 0x4040,
            3 => 0x6040,
            4 => 0x2040,
            5 => 0x4040,
            6 => 0x6040,
            7 => 0x2040,
            _ => 0x0040,
        }
    }

    /// Handle a write of `new_value` to the zero-page switch (register 0x0F).
    pub fn switch_zp40(&mut self, new_value: u8)
        requires
            old(self).wf(),
        ensures
            final(self).wf(),
            (final(self).ram@, final(self).bak_40@) == zp_switch_spec(
                old(self).ram@,
                old(self).bak_40@,
                old(self).current_zp_switch,
                new_value,
            ),
            final(self).current_zp_switch == new_value,
            final(self).io == old(self).io,
            final(self).bbs_pages == old(self).bbs_pages,
            final(self).page_map == old(self).page_map,
            final(self).current_bank == old(self).current_bank,
            final(self).current_volume == old(self).current_volume,
            final(self).current_roa_bbs == old(self).current_roa_bbs,
            final(self).bank_writable == old(self).bank_writable,
    {
        let old_value = self.current_zp_switch;
        let new_idx = new_value & 0x07;
        let old_idx = old_value & 0x07;
        if new_idx != old_idx {
            if old_idx != 0 {
                let old_ptr = self.get_zp40_ptr(old_idx);
                proof {
                    lemma_byte_fields(old_value);
                }
                copy_within(&mut self.ram, 0x40, old_ptr, 0x40);
                let ghost r1 = self.ram@;
                let new_ptr = self.get_zp40_ptr(new_idx);
                if new_idx == 0 {
                    copy_into(&mut self.ram, 0x40, self.bak_40.as_slice(), 0, 0x40);
                } else {
                    copy_into(&mut self.bak_40, 0, self.ram.as_slice(), 0x40, 0x40);
                    proof {
                        lemma_byte_fields(new_value);
                    }
                    copy_within(&mut self.ram, new_ptr, 0x40, 0x40);
                }
            } else {
                copy_into(&mut self.bak_40, 0, self.ram.as_slice(), 0x40, 0x40);
                let new_ptr = self.get_zp40_ptr(new_idx);
                proof {
                    lemma_byte_fields(new_value);
                }
                copy_within(&mut self.ram, new_ptr, 0x40, 0x40);
            }
        }
        self.current_zp_switch = new_value;
        proof {
            let z = zp_switch_spec(old(self).ram@, old(self).bak_40@, old_value, new_value);
            assert(self.ram@ =~= z.0);
            assert(self.bak_40@ =~= z.1);
        }
    }

    /// Load BBS quarters 0-3 from the volume's first four banks, then page 1
    /// from RAM page 3.
    fn fill_bbs(&mut self, rom: &[u8])
        requires
            old(self).wf(),
        ensures
            final(self).wf(),
            final(self).bbs_pages@ == bbs_spec(old(self).bbs_pages@, rom@, old(self).ram@, old(self).current_volume),
            final(self).ram == old(self).ram,
            final(self).io == old(self).io,
            final(self).bak_40 == old(self).bak_40,
            final(self).page_map == old(self).page_map,
            final(self).current_bank == old(self).current_bank,
            final(self).current_volume == old(self).current_volume,
            final(self).current_roa_bbs == old(self).current_roa_bbs,
            final(self).current_zp_switch == old(self).current_zp_switch,
            final(self).bank_writable == old(self).bank_writable,
    {
        let vol = self.current_volume & 0x03;
        let volume_offset: usize = if vol == 0x01 {
            0x100
        } else if vol == 0x03 {
            0x200
        } else {
            0
        };
        let rl = rom.len();
        let mut i: usize = 0;
        proof {
            assert(self.bbs_pages@ =~= bbs_fill(old(self).bbs_pages@, rom@, self.current_volume, 0));
        }
        while i < 4
            invariant
                i <= 4,
                rl == rom@.len(),
                volume_offset == volume_base(old(self).current_volume),
                self.wf(),
                *self == (Memory { bbs_pages: self.bbs_pages, ..*old(self) }),
                self.bbs_pages@ == bbs_fill(old(self).bbs_pages@, rom@, old(self).current_volume, i as int),
            decreases 4 - i,
        {
            let bank_offset = (volume_offset + i) * BANK_SIZE;
            if bank_offset <= rl && BANK_SIZE <= rl - bank_offset {
                copy_into(&mut self.bbs_pages, i * BANK_SIZE, rom, bank_offset, BANK_SIZE);
            }
            proof {
                let prev = bbs_fill(old(self).bbs_pages@, rom@, old(self).current_volume, i as int);
                let next = bbs_fill(old(self).bbs_pages@, rom@, old(self).current_volume, i + 1);
                assert forall|k: int| 0 <= k < BBS_SIZE implies #[trigger] self.bbs_pages@[k] == next[k] by {
                    if i * 0x8000 <= k < (i + 1) * 0x8000 {
                        assert(k / 0x8000 == i && k % 0x8000 == k - i * 0x8000) by (nonlinear_arith)
                            requires i * 0x8000 <= k < (i + 1) * 0x8000;
                    } else if k < i * 0x8000 {
                        assert(k / 0x8000 < i) by (nonlinear_arith)
                            requires 0 <= k < i * 0x8000;
                    }
                }
                assert(self.bbs_pages@ =~= next);
            }
            i += 1;
        }
        copy_into(&mut self.bbs_pages, 0x2000, self.ram.as_slice(), 0x6000, 0x2000);
    }

    /// Refresh the BBS pages for the current volume.  The NOR image takes
    /// no part in it.
    pub fn update_bbs_pages(&mut self, rom: &[u8], nor: &[u8])
        requires
            old(self).wf(),
        ensures
            final(self).wf(),
            final(self).bbs_pages@ == bbs_spec(old(self).bbs_pages@, rom@, old(self).ram@, old(self).current_volume),
            *final(self) == (Memory { bbs_pages: final(self).bbs_pages, ..*old(self) }),
    {
        self.fill_bbs(rom);
    }

    /// Handle a write to register 0x0D (volume select): the BBS pages are
    /// refreshed when the volume changes.
    pub fn write_volume(&mut self, value: u8, rom: &[u8])
        requires
            old(self).wf(),
        ensures
            final(self).wf(),
            final(self).io@ == old(self).io@.update(0x0D, value),
            final(self).current_volume == value,
            final(self).bbs_pages@ == if value != old(self).current_volume {
                bbs_spec(old(self).bbs_pages@, rom@, old(self).ram@, value)
            } else {
                old(self).bbs_pages@
            },
            final(self).ram == old(self).ram,
            final(self).bak_40 == old(self).bak_40,
            final(self).page_map == old(self).page_map,
            final(self).current_bank == old(self).current_bank,
            final(self).current_roa_bbs == old(self).current_roa_bbs,
            final(self).current_zp_switch == old(self).current_zp_switch,
            final(self).bank_writable == old(self).bank_writable,
    {
        let old_value = self.current_volume;
        self.io[0x0D] = value;
        self.current_volume = value;
        if value != old_value {
            self.fill_bbs(rom);
        }
    }

    /// Handle a write to register 0x0A (ROA/BBS control).
    pub fn write_roa_bbs(&mut self, value: u8)
        requires
            old(self).wf(),
        ensures
            final(self).wf(),
            final(self).io@ == old(self).io@.update(0x0A, value),
            *final(self) == (Memory { io: final(self).io, current_roa_bbs: value, ..*old(self) }),
    {
        self.io[0x0A] = value;
        self.current_roa_bbs = value;
    }

    /// Handle a write to register 0x00 (bank switch); NOR banks (below
    /// 0x20) are writable.
    pub fn write_bank_switch(&mut self, value: u8)
        requires
            old(self).wf(),
        ensures
            final(self).wf(),
            final(self).io@ == old(self).io@.update(0x00, value),
            *final(self) == (Memory {
                io: final(self).io,
                current_bank: value,
                bank_writable: value < 0x20,
                ..*old(self)
            }),
    {
        self.io[0x00] = value;
        self.current_bank = value;
        self.bank_writable = value < 0x20;
    }

    /// The current bank index.
    pub fn current_bank(&self) -> (r: u8)
        ensures
            r == self.current_bank,
    {
        self.current_bank
    }

    /// Whether the current bank is a (writable) NOR bank.
    pub fn is_nor_bank(&self) -> (r: bool)
        ensures
            r == (self.current_bank < 0x20),
    {
        self.current_bank < 0x20
    }

    /// The region and offset behind CPU address `addr`.
    pub fn map_address(&self, addr: u16) -> (r: (MemRegion, usize))
        ensures
            r == self.map_spec(addr),
    {
        let page = (addr >> 13) as usize;
        let offset = (addr & 0x1FFF) as usize;
        proof {
            lemma_addr_fields(addr);
        }
        let vol = self.current_volume & 0x03;
        let volume_offset: usize = if vol == 0x01 {
            0x100
        } else if vol == 0x03 {
            0x200
        } else {
            0
        };
        match page {
            0 => (MemRegion::Ram, offset),
            1 => {
                if self.current_roa_bbs & 0x04 != 0 {
                    (MemRegion::Ram, 0x4000 + offset)
                } else {
                    (MemRegion::Ram, 0x2000 + offset)
                }
            },
            2 | 3 | 4 | 5 => {
                let quarter: usize = (page - 2) * PAGE_SIZE;
                if self.current_bank < 0x20 {
                    (MemRegion::Nor, self.current_bank as usize * BANK_SIZE + quarter + offset)
                } else if self.current_bank >= 0x80 {
                    let bank_idx = volume_offset + (self.current_bank - 0x80) as usize;
                    (MemRegion::Rom, bank_idx * BANK_SIZE + quarter + offset)
                } else {
                    (MemRegion::Invalid, 0)
                }
            },
            6 => {
                let bbs_idx = (self.current_roa_bbs & 0x0F) as usize;
                (MemRegion::Bbs, bbs_idx * PAGE_SIZE + offset)
            },
            _ => (MemRegion::Rom, volume_offset * BANK_SIZE + 0x2000 + offset),
        }
    }
}

impl Default for Memory {
    fn default() -> (r: Self)
        ensures
            r.wf(),
            r.ram@ == run(0x8000, 0),
            r.current_bank == 0 && r.current_volume == 0,
    {
        Self::new()
    }
}


proof fn lemma_page_split(a: u16)
    by (bit_vector)
    ensures
        (a >> 13u16) as int * 8192 + (a & 0x1FFFu16) as int == a as int,
{
}

/// The NC1020 address map: 0x0000-0x1FFF is RAM; 0x2000-0x3FFF is RAM,
/// moved up 8KB while bit 2 of the ROA/BBS register is set; the 32KB
/// window 0x4000-0xBFFF shows NOR bank `b` for a bank register `b` below
/// 0x20, ROM bank `b - 0x80` of the current volume for `b` from 0x80, and
/// nothing in between; 0xC000-0xDFFF shows the BBS page the low four bits
/// of the ROA/BBS register select; 0xE000-0xFFFF shows the second 8KB of
/// the current volume's first ROM bank.
pub proof fn law_address_map(m: Memory, addr: u16)
    ensures
        ({
            let (region, offset) = m.map_spec(addr);
            let bank = m.current_bank as int;
            let a = addr as int;
            &&& a < 0x2000 ==> region == MemRegion::Ram && offset == a
            &&& 0x2000 <= a < 0x4000 ==> region == MemRegion::Ram
                && offset == a + if m.current_roa_bbs & 0x04 != 0 { 0x2000int } else { 0 }
            &&& 0x4000 <= a < 0xC000 && bank < 0x20 ==> region == MemRegion::Nor && offset == bank * 0x8000 + a - 0x4000
            &&& 0x4000 <= a < 0xC000 && bank >= 0x80 ==> region == MemRegion::Rom
                && offset == (volume_base(m.current_volume) + bank - 0x80) * 0x8000 + a - 0x4000
            &&& 0x4000 <= a < 0xC000 && 0x20 <= bank < 0x80 ==> region == MemRegion::Invalid
            &&& 0xC000 <= a < 0xE000 ==> region == MemRegion::Bbs
                && offset == (m.current_roa_bbs & 0x0F) * 0x2000 + a - 0xC000
            &&& 0xE000 <= a ==> region == MemRegion::Rom
                && offset == volume_base(m.current_volume) * 0x8000 + 0x2000 + a - 0xE000
        }),
{
    lemma_page_split(addr);
    lemma_addr_fields(addr);
}

} // verus!
