//! NC1020 machine.
//!
//! The NC1020 (SPDC1024 SoC) boots from a 24MB ROM dump (three 8MB
//! volumes) plus a 1MB NOR Flash.  Both dumps store every 32KB bank with
//! its 16KB halves swapped; they are swapped back on load, and the NOR
//! image is swapped again when it is written out.

use vstd::prelude::*;
use crate::bits::{lemma_addr_fields, lemma_word_halves};
use crate::audio::{Audio, control_post, command_post};
use crate::bytes::{half_swap, swap_halves, law_half_swap_involution};
use crate::cpu_laws::lemma_step_cycles;
use crate::cpu::{BusEvent, Cpu, CpuBus, RESET_VECTOR, s_step, serves_all};
use crate::flash::{Flash, FlashStep};
use crate::input::{Input, scan_spec};
use crate::io::{IoHandler, io_read_spec};
use crate::lcd::{Lcd, lcd_address};
use crate::machine::{Machine, MachineModel, MachineError, RomFiles};
use crate::memory::{
    Memory,
    MemRegion,
    bbs_spec,
    zp_switch_spec,
    IO_LIMIT,
    NOR_SIZE,
    RAM_SIZE,
    ROM_SIZE,
};
use crate::timer::{Timer, add32, clock_write_post};
use crate::save::{SaveState, same_timer, same_audio, same_flash, copy_timer, copy_audio, copy_flash};
use crate::bytes::copy_into;

verus! {

/// NC1020 machine.
pub struct Nc1020Machine {
    pub memory: Memory,
    pub input: Input,
    pub timer: Timer,
    pub audio: Audio,
    pub lcd: Lcd,
    pub flash: Flash,
    pub rom: Vec<u8>,
    pub nor: Vec<u8>,
}

/// Byte at `offset` of an image, 0 past its end.
pub open spec fn byte_at(img: Seq<u8>, offset: usize) -> u8 {
    if (offset as int) < img.len() {
        img[offset as int]
    } else {
        0
    }
}

/// IO registers after a CPU write of `value` to register `addr`.
pub open spec fn nc1020_io_regs(io: Seq<u8>, addr: u8, value: u8, matrix: [u8; 8]) -> Seq<u8> {
    let io1 = io.update(addr as int, value);
    if addr == 0x06 {
        io1.update(0x09, io1[0x09] & 0xFE)
    } else if addr == 0x08 {
        io1.update(0x0B, io1[0x0B] & 0xFE)
    } else if addr == 0x09 {
        io1.update(0x08, scan_spec(matrix, value))
    } else if addr == 0x20 && (value == 0x80 || value == 0x40) {
        io1.update(0x20, 0)
    } else if addr == 0x23 && value == 0x80 {
        io1.update(0x20, 0x80)
    } else if addr == 0x3F && io[0x3E] == 0x0B {
        io1.update(0x3D, 0xF8)
    } else {
        io1
    }
}

impl Nc1020Machine {
    /// Component invariants and image sizes.
    pub open spec fn wf(&self) -> bool {
        &&& self.memory.wf()
        &&& self.timer.wf()
        &&& self.audio.wf()
        &&& self.lcd.wf()
        &&& self.flash.wf()
        &&& self.nor@.len() == NOR_SIZE
    }

    /// The byte a read of `addr` outside the IO registers returns.
    pub open spec fn mem_spec(&self, addr: u16) -> u8 {
        let (region, offset) = self.memory.map_spec(addr);
        match region {
            MemRegion::Ram => byte_at(self.memory.ram@, offset),
            MemRegion::Rom => byte_at(self.rom@, offset),
            MemRegion::Nor => byte_at(self.nor@, offset),
            MemRegion::Bbs => byte_at(self.memory.bbs_pages@, offset),
            MemRegion::Invalid => 0,
        }
    }

    /// The byte a CPU read of `addr` returns.
    pub open spec fn read_spec(&self, addr: u16) -> u8 {
        if addr < 0x40 {
            io_read_spec(addr as u8, self.memory.io@, self.input, self.timer)
        } else {
            self.mem_spec(addr)
        }
    }

    /// The byte the debugger sees at `addr` (IO registers raw).
    pub open spec fn peek_spec(&self, addr: u16) -> u8 {
        if addr < 0x40 {
            self.memory.io@[addr as int]
        } else {
            self.mem_spec(addr)
        }
    }

    /// A machine with blank (zero) images.
    fn blank() -> (r: Self)
        ensures
            r.wf(),
            r.rom@ == Seq::new(ROM_SIZE as nat, |i: int| 0u8),
            r.nor@ == Seq::new(NOR_SIZE as nat, |i: int| 0u8),
            r.power_on(),
    {
        let r = Nc1020Machine {
            memory: Memory::new(),
            input: Input::new(),
            timer: Timer::new(),
            audio: Audio::new(),
            lcd: Lcd::new(),
            flash: Flash::new(),
            rom: vec![0; ROM_SIZE],
            nor: vec![0; NOR_SIZE],
        };
        assert(r.rom@ =~= Seq::new(ROM_SIZE as nat, |i: int| 0u8));
        assert(r.nor@ =~= Seq::new(NOR_SIZE as nat, |i: int| 0u8));
        r
    }

    /// The power-on state of everything but the images: RAM and IO
    /// registers cleared, bank 0 (NOR bank 0 in the window), volume 0, no
    /// ROA/BBS or zero-page switch, an idle flash controller, no key down.
    pub open spec fn power_on(&self) -> bool {
        &&& self.memory.ram@ == Seq::new(RAM_SIZE as nat, |i: int| 0u8)
        &&& self.memory.io@ == Seq::new(0x40, |i: int| 0u8)
        &&& self.memory.current_bank == 0
        &&& self.memory.current_volume == 0
        &&& self.memory.current_roa_bbs == 0
        &&& self.memory.current_zp_switch == 0
        &&& !self.memory.bank_writable
        &&& self.flash.step == FlashStep::Idle
        &&& self.input.matrix@ == seq![0u8; 8]
        &&& !self.input.slept
    }

    /// What a machine built from `files` holds: the images as loaded and
    /// the power-on state around them.
    pub open spec fn built_from(&self, files: RomFiles) -> bool {
        &&& self.wf()
        &&& self.power_on()
        &&& self.rom@ == match files.rom {
            Some(d) => half_swap(d@),
            None => Seq::new(ROM_SIZE as nat, |i: int| 0u8),
        }
        &&& self.nor@ == match files.nor {
            Some(d) => half_swap(d@.subrange(0, NOR_SIZE as int)),
            None => Seq::new(NOR_SIZE as nat, |i: int| 0u8),
        }
    }

    /// Create the machine and load its ROM / NOR images.
    pub fn new(files: &RomFiles) -> (r: Result<Self, MachineError>)
        ensures
            r is Err <==> (files.rom matches Some(d) && d@.len() < ROM_SIZE) || (files.nor matches Some(d)
                && d@.len() < NOR_SIZE),
            files.rom is Some && files.rom.unwrap()@.len() < ROM_SIZE ==> r == Err::<Self, MachineError>(
                MachineError::RomTooSmall { expected: ROM_SIZE, got: files.rom.unwrap()@.len() as usize },
            ),
            !(files.rom is Some && files.rom.unwrap()@.len() < ROM_SIZE) && files.nor is Some
                && files.nor.unwrap()@.len() < NOR_SIZE ==> r == Err::<Self, MachineError>(
                MachineError::NorTooSmall { expected: NOR_SIZE, got: files.nor.unwrap()@.len() as usize },
            ),
            r matches Ok(m) ==> m.built_from(*files),
    {
        let mut m = Nc1020Machine::blank();
        match m.load_rom(files) {
            Ok(()) => Ok(m),
            Err(e) => Err(e),
        }
    }

    /// What loading a ROM and a NOR image does: the first image that is too
    /// short is refused, with nothing changed by it or after it; a ROM
    /// image is taken half-swapped and refreshes the BBS pages, a NOR image
    /// is taken half-swapped (its first 1MB).
    pub open spec fn load_rom_post(&self, after: Self, files: RomFiles, r: Result<(), MachineError>) -> bool {
        let rom_short = files.rom is Some && files.rom.unwrap()@.len() < ROM_SIZE;
        let nor_short = files.nor is Some && files.nor.unwrap()@.len() < NOR_SIZE;
        let mid = match files.rom {
            Some(d) => Nc1020Machine {
                memory: Memory {
                    bbs_pages: after.memory.bbs_pages,
                    ..self.memory
                },
                rom: after.rom,
                ..*self
            },
            None => *self,
        };
        if rom_short {
            &&& r == Err::<(), MachineError>(
                MachineError::RomTooSmall { expected: ROM_SIZE, got: files.rom.unwrap()@.len() as usize },
            )
            &&& after == *self
        } else {
            &&& files.rom is Some ==> {
                &&& after.rom@ == half_swap(files.rom.unwrap()@)
                &&& after.memory.bbs_pages@ == bbs_spec(
                    self.memory.bbs_pages@,
                    half_swap(files.rom.unwrap()@),
                    self.memory.ram@,
                    self.memory.current_volume,
                )
            }
            &&& if nor_short {
                &&& r == Err::<(), MachineError>(
                    MachineError::NorTooSmall { expected: NOR_SIZE, got: files.nor.unwrap()@.len() as usize },
                )
                &&& after == mid
            } else {
                &&& r is Ok
                &&& after.nor@ == match files.nor {
                    Some(d) => half_swap(d@.subrange(0, NOR_SIZE as int)),
                    None => self.nor@,
                }
                &&& after == (Nc1020Machine { nor: after.nor, ..mid })
            }
        }
    }

    /// What loading a NOR dump does: one shorter than 1MB is refused and
    /// nothing changes; otherwise its first 1MB, half-swapped, becomes the
    /// NOR image and nothing else changes.
    pub open spec fn load_nor_post(&self, after: Self, data: Seq<u8>, r: Result<(), MachineError>) -> bool {
        if data.len() < NOR_SIZE {
            &&& r == Err::<(), MachineError>(MachineError::NorTooSmall { expected: NOR_SIZE, got: data.len() as usize })
            &&& after == *self
        } else {
            &&& r is Ok
            &&& after.nor@ == half_swap(data.subrange(0, NOR_SIZE as int))
            &&& after == (Nc1020Machine { nor: after.nor, ..*self })
        }
    }

    /// Load the ROM image and then the NOR image, where given; the first
    /// one that is too short is refused.
    pub fn load_rom(&mut self, files: &RomFiles) -> (r: Result<(), MachineError>)
        requires
            old(self).wf(),
        ensures
            final(self).wf(),
            old(self).load_rom_post(*final(self), *files, r),
    {
        match &files.rom {
            Some(data) => {
                match self.load_rom_data(data.as_slice()) {
                    Ok(()) => {},
                    Err(e) => {
                        return Err(e);
                    },
                }
            },
            None => {},
        }
        match &files.nor {
            Some(data) => {
                match self.load_nor_data(data.as_slice()) {
                    Ok(()) => {},
                    Err(e) => {
                        return Err(e);
                    },
                }
            },
            None => {},
        }
        Ok(())
    }

    /// Load a ROM dump: it must hold at least the 24MB of the three volumes;
    /// every complete bank is half-swapped back, and the BBS pages are
    /// refreshed.
    pub fn load_rom_data(&mut self, data: &[u8]) -> (r: Result<(), MachineError>)
        requires
            old(self).wf(),
        ensures
            final(self).wf(),
            data@.len() < ROM_SIZE ==> r == Err::<(), MachineError>(
                MachineError::RomTooSmall { expected: ROM_SIZE, got: data@.len() as usize },
            ) && *final(self) == *old(self),
            data@.len() >= ROM_SIZE ==> r is Ok && final(self).rom@ == half_swap(data@) && final(self).nor
                == old(self).nor && final(self).memory.bbs_pages@ == bbs_spec(
                old(self).memory.bbs_pages@,
                half_swap(data@),
                old(self).memory.ram@,
                old(self).memory.current_volume,
            ) && *final(self) == (Nc1020Machine {
                rom: final(self).rom,
                memory: Memory { bbs_pages: final(self).memory.bbs_pages, ..old(self).memory },
                ..*old(self)
            }),
    {
        if data.len() < ROM_SIZE {
            return Err(MachineError::RomTooSmall { expected: ROM_SIZE, got: data.len() });
        }
        self.rom = swap_halves(data);
        self.memory.update_bbs_pages(self.rom.as_slice(), self.nor.as_slice());
        Ok(())
    }

    /// Load a NOR dump: it must hold at least 1MB; the first 1MB is
    /// half-swapped back into the NOR image.
    pub fn load_nor_data(&mut self, data: &[u8]) -> (r: Result<(), MachineError>)
        requires
            old(self).wf(),
        ensures
            final(self).wf(),
            old(self).load_nor_post(*final(self), data@, r),
    {
        if data.len() < NOR_SIZE {
            return Err(MachineError::NorTooSmall { expected: NOR_SIZE, got: data.len() });
        }
        let head = vstd::slice::slice_subrange(data, 0, NOR_SIZE);
        self.nor = swap_halves(head);
        Ok(())
    }

    /// The NOR image in dump layout (halves swapped back), ready to be
    /// written out.
    pub fn save_nor_data(&self) -> (r: Vec<u8>)
        ensures
            r@ == half_swap(self.nor@),
    {
        swap_halves(self.nor.as_slice())
    }

    /// Which model this machine implements.
    pub fn model(&self) -> (r: MachineModel)
        ensures
            r == MachineModel::Nc1020,
    {
        MachineModel::Nc1020
    }

    /// What `reset` does to the machine.
    pub open spec fn reset_post(&self, after: Self) -> bool {
        &&& after.rom == self.rom
        &&& after.nor == self.nor
        &&& after.memory.ram@ == Seq::new(RAM_SIZE as nat, |i: int| 0u8)
        &&& after.memory.io@ == Seq::new(0x40, |i: int| 0u8)
        &&& after.memory.current_bank == 0 && after.memory.current_volume == 0
        &&& after.memory.current_roa_bbs == 0 && after.memory.current_zp_switch == 0
        &&& after.memory.bbs_pages@ == bbs_spec(
                self.memory.bbs_pages@,
                self.rom@,
                Seq::new(RAM_SIZE as nat, |i: int| 0u8),
                0,
            )
        &&& after.lcd.lcd_addr == 0
        &&& after.flash.step == FlashStep::Idle
        &&& after.input.matrix@ == seq![0u8; 8]
        &&& !after.input.slept
    }

    /// Reset every component; the images are kept and the BBS pages are
    /// rebuilt from them.
    pub fn reset(&mut self)
        requires
            old(self).wf(),
        ensures
            final(self).wf(),
            old(self).reset_post(*final(self)),
    {
        self.memory.reset();
        self.lcd.reset();
        self.input.reset();
        self.timer.reset();
        self.audio.reset();
        self.flash.reset();
        self.memory.update_bbs_pages(self.rom.as_slice(), self.nor.as_slice());
        proof {
            assert(self.memory.ram@ =~= Seq::new(RAM_SIZE as nat, |i: int| 0u8));
            assert(self.memory.io@ =~= Seq::new(0x40, |i: int| 0u8));
        }
    }

    /// What `set_key` does to the machine.
    pub open spec fn set_key_post(&self, after: Self, key_id: u8, pressed: bool) -> bool {
        &&& self.input.set_key_post(after.input, key_id, pressed)
        &&& after == (Nc1020Machine { input: after.input, ..*self })
    }

    /// Set a keyboard key state.
    pub fn set_key(&mut self, key_id: u8, pressed: bool)
        requires
            old(self).wf(),
            key_id < 64,
        ensures
            final(self).wf(),
            old(self).set_key_post(*final(self), key_id, pressed),
    {
        self.input.set_key(key_id, pressed);
    }

    /// Whether the device is in sleep mode.
    pub fn is_sleeping(&self) -> (r: bool)
        ensures
            r == self.input.slept,
    {
        self.input.slept
    }

    /// Byte at `offset` of `img`, 0 past its end.
    fn image_byte(img: &Vec<u8>, offset: usize) -> (r: u8)
        ensures
            r == byte_at(img@, offset),
    {
        if offset < img.len() {
            img[offset]
        } else {
            0
        }
    }

    /// Read outside the IO registers (no side effects).
    fn mem_read(&self, addr: u16) -> (r: u8)
        ensures
            r == self.mem_spec(addr),
    {
        let (region, offset) = self.memory.map_address(addr);
        match region {
            MemRegion::Ram => Self::image_byte(&self.memory.ram, offset),
            MemRegion::Rom => Self::image_byte(&self.rom, offset),
            MemRegion::Nor => Self::image_byte(&self.nor, offset),
            MemRegion::Bbs => Self::image_byte(&self.memory.bbs_pages, offset),
            MemRegion::Invalid => 0,
        }
    }

    /// Read a memory/IO address for debugging (no side effects).
    pub fn peek(&self, addr: u16) -> (r: u8)
        requires
            self.wf(),
        ensures
            r == self.peek_spec(addr),
    {
        if addr < IO_LIMIT {
            return self.memory.io[addr as usize];
        }
        self.mem_read(addr)
    }

    /// Read a little-endian 16-bit word for debugging.
    pub fn peek_u16(&self, addr: u16) -> (r: u16)
        requires
            self.wf(),
        ensures
            r == self.peek_spec(addr) as u16 + 256 * self.peek_spec(addr.wrapping_add(1)) as u16,
    {
        let lo = self.peek(addr) as u16;
        let hi = self.peek(addr.wrapping_add(1)) as u16;
        proof {
            lemma_word_halves(lo, hi);
        }
        (hi << 8) | lo
    }

    /// What the timer, interrupt and wake-up work after an instruction of
    /// `cycles` cycles does to the machine and the CPU.
    pub open spec fn tick_post(&self, after: Self, cpu0: Cpu, cpu1: Cpu, cycles: u64) -> bool {
        &&& after.timer.cycles == add32(self.timer.cycles, (cycles % 0x1_0000_0000) as u32)
        &&& ({
            let t0 = after.timer.cycles >= self.timer.timer0_cycles;
            let t1 = after.timer.cycles >= self.timer.timer1_cycles;
            let io1 = if t1 { self.memory.io@.update(0x01, self.memory.io@[0x01] | 0x08) } else { self.memory.io@ };
            &&& cpu1 == (Cpu { irq_pending: cpu0.irq_pending || t0 || t1, ..cpu0 })
            &&& after.memory.io@ == if t0 { io1.update(0x3D, after.timer.io_3d) } else { io1 }
        })
        &&& after.memory.ram@ == if self.input.wake_up_pending {
            self.memory.ram@.update(0x45F, self.input.wake_up_key)
        } else {
            self.memory.ram@
        }
        &&& after.input == (Input { wake_up_pending: false, ..self.input })
        &&& after.rom == self.rom
        &&& after.nor == self.nor
        &&& after.flash == self.flash
        &&& after.lcd == self.lcd
    }

    /// Timer, interrupt and wake-up work after an instruction of `cycles`
    /// cycles: a fired timer raises the IRQ (Timer1 also flags bit 3 of
    /// register 0x01, Timer0 refreshes register 0x3D), and a pending
    /// wake-up key is stored at RAM 0x45F.
    pub fn after_instruction(&mut self, cpu: &mut Cpu, cycles: u64)
        requires
            old(self).wf(),
        ensures
            final(self).wf(),
            old(self).tick_post(*final(self), *old(cpu), *final(cpu), cycles),
    {
        let fired = self.timer.tick(cycles);
        if fired.any() {
            cpu.irq_pending = true;
            if fired.timer1 {
                let v = self.memory.io[0x01];
                self.memory.io[0x01] = v | 0x08;
            }
            if fired.timer0 {
                self.memory.io[0x3D] = self.timer.io_3d;
            }
        }
        if self.input.wake_up_pending {
            self.input.wake_up_pending = false;
            self.memory.ram[0x45F] = self.input.wake_up_key;
        }
    }

    /// What `step` does to the machine and the CPU, taking `n` cycles.
    pub open spec fn step_post(&self, after: Self, cpu0: Cpu, cpu1: Cpu, n: u64) -> bool {
        &&& 2 <= n <= 7
        &&& ({
                let (c, k) = s_step(cpu0, cpu1.trace@);
                &&& k == n
                &&& cpu1 == (Cpu { irq_pending: cpu1.irq_pending, ..c })
                &&& c.irq_pending ==> cpu1.irq_pending
            })
        &&& after.rom@ == self.rom@
        &&& exists|mid: Self| #[trigger] serves_all(*self, cpu1.trace@, mid)
                && mid.tick_post(after, s_step(cpu0, cpu1.trace@).0, cpu1, n)
    }

    /// Execute one CPU instruction; returns the number of cycles consumed.
    pub fn step(&mut self, cpu: &mut Cpu) -> (n: u64)
        requires
            old(self).wf(),
        ensures
            final(self).wf(),
            old(self).step_post(*final(self), *old(cpu), *final(cpu), n),
    {
        let ghost c0 = *cpu;
        let ghost m0 = *self;
        let cycles = cpu.step(self);
        let ghost mid = *self;
        proof {
            lemma_step_cycles(c0, cpu.trace@);
        }
        self.after_instruction(cpu, cycles);
        proof {
            assert(serves_all(m0, cpu.trace@, mid) && mid.tick_post(*self, s_step(c0, cpu.trace@).0, *cpu, cycles));
        }
        cycles
    }

    /// What `end_of_frame` does to the machine and the CPU.
    pub open spec fn end_of_frame_post(&self, after: Self, cpu0: Cpu, cpu1: Cpu) -> bool {
        &&& after.input == (Input { should_wake_up: false, ..self.input })
        &&& self.lcd.refreshed_from_ram(after.lcd, self.memory.ram@)
        &&& after.rom == self.rom
        &&& after.nor == self.nor
        &&& after.timer == self.timer
        &&& after.audio == self.audio
        &&& after.flash == self.flash
        &&& after.memory == (Memory { io: after.memory.io, ..self.memory })
        &&& self.input.should_wake_up ==> cpu1 == (Cpu {
                pc: (after.peek_spec(RESET_VECTOR) as u16 + 256 * after.peek_spec(
                    (RESET_VECTOR + 1) as u16,
                ) as u16) as u16,
                ..cpu0
            }) && after.memory.io@ == self.memory.io@.update(0x01, self.memory.io@[0x01] | 0x01).update(
                0x02,
                self.memory.io@[0x02] | 0x01,
            )
        &&& !self.input.should_wake_up ==> cpu1 == cpu0 && after.memory == self.memory
    }

    /// Frame end: copy the LCD from RAM and perform a pending wake-up
    /// (interrupt flags 0x01/0x02 bit 0 set, PC to the reset vector).
    pub fn end_of_frame(&mut self, cpu: &mut Cpu)
        requires
            old(self).wf(),
        ensures
            final(self).wf(),
            old(self).end_of_frame_post(*final(self), *old(cpu), *final(cpu)),
    {
        self.lcd.copy_from_ram(self.memory.ram.as_slice());
        if self.input.should_wake_up {
            self.input.should_wake_up = false;
            let v1 = self.memory.io[0x01];
            self.memory.io[0x01] = v1 | 0x01;
            let v2 = self.memory.io[0x02];
            self.memory.io[0x02] = v2 | 0x01;
            cpu.pc = self.peek_u16(RESET_VECTOR);
        }
    }

    /// Move pending audio samples to `out`.
    pub fn drain_audio(&mut self, out: &mut Vec<i16>)
        requires
            old(self).wf(),
        ensures
            final(self).wf(),
            final(out)@ == old(out)@ + old(self).audio.output_buffer@,
            final(self).audio.output_buffer@.len() == 0,
            *final(self) == (Nc1020Machine { audio: final(self).audio, ..*old(self) }),
    {
        self.audio.drain_audio(out);
    }

    /// Enable/disable speed-up mode.
    pub fn set_speed_up(&mut self, speed_up: bool)
        requires
            old(self).wf(),
        ensures
            final(self).wf(),
            final(self).timer.speed_up_spec() == speed_up,
            *final(self) == (Nc1020Machine { timer: final(self).timer, ..*old(self) }),
    {
        self.timer.set_speed_up(speed_up);
    }
}

impl Nc1020Machine {
    /// What a CPU read of `addr` returning `v` does to the machine.
    pub open spec fn bus_read_post(&self, after: Self, addr: u16, v: u8) -> bool {
        &&& v == self.read_spec(addr)
        &&& after == *self
    }

    /// What a CPU write of `value` to IO register `a` does to the machine:
    /// the registers become [`nc1020_io_regs`], and the register's side
    /// effect reaches the memory map (bank, volume, ROA/BBS, zero-page
    /// window), the sleep flag, the LCD address, the audio unit or the
    /// clock; nothing else changes.
    pub open spec fn io_write_post(&self, after: Self, a: u8, value: u8) -> bool {
        let io0 = self.memory.io@;
        let m0 = self.memory;
        let m1 = after.memory;
        let bank = a == 0x00 && value != io0[0x00];
        let roa = a == 0x0A && value != io0[0x0A];
        let vol = a == 0x0D && value != io0[0x0D];
        let zp = a == 0x0F && (value & 0x07) != (io0[0x0F] & 0x07);
        &&& m1.io@ == nc1020_io_regs(io0, a, value, self.input.matrix)
        &&& after.rom == self.rom
        &&& after.nor == self.nor
        &&& after.flash == self.flash
        &&& m1.page_map == m0.page_map
        &&& m1.current_bank == if bank { value } else { m0.current_bank }
        &&& m1.bank_writable == if bank { value < 0x20 } else { m0.bank_writable }
        &&& m1.current_roa_bbs == if roa { value } else { m0.current_roa_bbs }
        &&& m1.current_volume == if vol { value } else { m0.current_volume }
        &&& m1.bbs_pages@ == if vol && value != m0.current_volume {
            bbs_spec(m0.bbs_pages@, self.rom@, m0.ram@, value)
        } else {
            m0.bbs_pages@
        }
        &&& (m1.ram@, m1.bak_40@) == if zp {
            zp_switch_spec(m0.ram@, m0.bak_40@, m0.current_zp_switch, value)
        } else {
            (m0.ram@, m0.bak_40@)
        }
        &&& m1.current_zp_switch == if zp { value } else { m0.current_zp_switch }
        &&& after.input == if a == 0x05 && (io0[0x05] ^ value) & 0x08 != 0 {
            Input { slept: value & 0x08 == 0, ..self.input }
        } else {
            self.input
        }
        &&& if a == 0x06 && self.lcd.lcd_addr == 0 {
            &&& after.lcd.lcd_addr == lcd_address(io0[0x0C], value)
            &&& after.lcd.fb() == self.lcd.fb()
            &&& after.lcd.brightness() == self.lcd.brightness()
            &&& after.lcd.dirty_spec() == self.lcd.dirty_spec()
        } else {
            after.lcd == self.lcd
        }
        &&& if a == 0x20 {
            control_post(self.audio, after.audio, value)
        } else if a == 0x23 {
            command_post(self.audio, after.audio, io0[0x22], value)
        } else {
            after.audio == self.audio
        }
        &&& if a == 0x3F {
            clock_write_post(self.timer, after.timer, io0[0x3E], value)
        } else {
            after.timer == self.timer
        }
    }

    /// What a CPU write of `value` to `addr` does to the machine: an IO
    /// register write sets the registers as [`nc1020_io_regs`] says (its
    /// side effects on the memory map and the components aside); a write
    /// below 0x4000 stores into RAM; a write to the banked window stores into
    /// RAM or goes to the flash controller, by the page mapped there; above
    /// 0x8000 only the flash reset command has an effect.
    pub open spec fn bus_write_post(&self, after: Self, addr: u16, value: u8) -> bool {
        if addr < 0x40 {
            self.io_write_post(after, addr as u8, value)
        } else if addr < 0x4000 {
            &&& after == (Nc1020Machine { memory: Memory { ram: after.memory.ram, ..self.memory }, ..*self })
            &&& after.memory.ram@ == self.memory.ram@.update(addr as int, value)
        } else if addr < 0x8000 {
            let (region, offset) = self.memory.map_spec(addr);
            match region {
                MemRegion::Ram => {
                    &&& after == (Nc1020Machine { memory: Memory { ram: after.memory.ram, ..self.memory }, ..*self })
                    &&& after.memory.ram@ == if offset < RAM_SIZE {
                        self.memory.ram@.update(offset as int, value)
                    } else {
                        self.memory.ram@
                    }
                },
                MemRegion::Nor => {
                    let o = self.flash.write_spec(addr, value, self.memory.current_bank, self.nor@);
                    &&& after == (Nc1020Machine { flash: after.flash, nor: after.nor, ..*self })
                    &&& after.flash.step == o.step
                    &&& after.flash.flash_type == o.flash_type
                    &&& after.flash.bank_idx == o.bank_idx
                    &&& after.flash.bak1 == o.bak1
                    &&& after.flash.bak2 == o.bak2
                    &&& after.flash.buffer@ == o.buffer
                    &&& after.nor@ == o.nor
                },
                _ => after == *self,
            }
        } else if addr == 0x8000 && value == 0xF0 {
            after == (Nc1020Machine { flash: Flash { step: FlashStep::Idle, ..self.flash }, ..*self })
        } else {
            after == *self
        }
    }
}

impl CpuBus for Nc1020Machine {
    open spec fn bus_inv(&self) -> bool {
        self.wf()
    }

    open spec fn bus_kept(&self) -> Seq<u8> {
        self.rom@
    }

    open spec fn serves(&self, ev: BusEvent, after: Self) -> bool {
        match ev {
            BusEvent::Read(a, v) => self.bus_read_post(after, a, v),
            BusEvent::Write(a, v) => self.bus_write_post(after, a, v),
        }
    }

    fn read(&mut self, addr: u16) -> (v: u8)
        ensures
            old(self).bus_read_post(*final(self), addr, v),
    {
        let v = if addr < IO_LIMIT {
            IoHandler::read(addr as u8, self.memory.io.as_slice(), &self.input, &self.timer, &self.audio)
        } else {
            self.mem_read(addr)
        };
        proof {
            assert(self.serves(BusEvent::Read(addr, v), *self));
        }
        v
    }

    fn write(&mut self, addr: u16, value: u8)
        ensures
            old(self).bus_write_post(*final(self), addr, value),
    {
        if addr < IO_LIMIT {
            let a = addr as u8;
            match a {
                0x00 => {
                    let old_value = self.memory.io[0x00];
                    self.memory.io[0x00] = value;
                    if value != old_value {
                        self.memory.write_bank_switch(value);
                    }
                },
                0x05 => {
                    let old_value = self.memory.io[0x05];
                    self.memory.io[0x05] = value;
                    if (old_value ^ value) & 0x08 != 0 {
                        self.input.slept = value & 0x08 == 0;
                    }
                },
                0x06 => {
                    self.memory.io[0x06] = value;
                    if self.lcd.lcd_addr == 0 {
                        self.lcd.update_address(self.memory.io.as_slice());
                    }
                    let r9 = self.memory.io[0x09];
                    self.memory.io[0x09] = r9 & 0xFE;
                },
                0x08 => {
                    self.memory.io[0x08] = value;
                    let rb = self.memory.io[0x0B];
                    self.memory.io[0x0B] = rb & 0xFE;
                },
                0x09 => {
                    self.memory.io[0x09] = value;
                    self.memory.io[0x08] = self.input.read_keypad(value);
                },
                0x0A => {
                    let old_value = self.memory.io[0x0A];
                    self.memory.io[0x0A] = value;
                    if value != old_value {
                        self.memory.write_roa_bbs(value);
                    }
                },
                0x0D => {
                    let old_value = self.memory.io[0x0D];
                    self.memory.io[0x0D] = value;
                    if value != old_value {
                        self.memory.write_volume(value, self.rom.as_slice());
                    }
                },
                0x0F => {
                    let old_value = self.memory.io[0x0F];
                    self.memory.io[0x0F] = value;
                    if (value & 0x07) != (old_value & 0x07) {
                        self.memory.switch_zp40(value);
                    }
                },
                0x20 => {
                    self.memory.io[0x20] = value;
                    self.audio.write_control(value);
                    // The hardware clears the register after a stop/reset
                    // command; the firmware polls it for completion.
                    if value == 0x80 || value == 0x40 {
                        self.memory.io[0x20] = 0;
                    }
                },
                0x22 => {
                    self.memory.io[0x22] = value;
                },
                0x23 => {
                    self.memory.io[0x23] = value;
                    let data = self.memory.io[0x22];
                    self.audio.write_command(data, value);
                    if value == 0x80 {
                        self.memory.io[0x20] = 0x80;
                    }
                },
                0x3E => {
                    self.memory.io[0x3E] = value;
                },
                0x3F => {
                    self.memory.io[0x3F] = value;
                    let idx = self.memory.io[0x3E];
                    self.timer.write_clock(idx, value);
                    // Writing clock control index 0x0B latches 0xF8 into
                    // the clock flags register.
                    if idx == 0x0B {
                        self.memory.io[0x3D] = 0xF8;
                    }
                },
                _ => {
                    self.memory.io[a as usize] = value;
                },
            }
            proof {
                assert(self.memory.io@ =~= nc1020_io_regs(old(self).memory.io@, a, value, old(self).input.matrix));
            }
            return;
        }
        // RAM writes (0x0040-0x3FFF)
        if addr < 0x4000 {
            let offset = addr as usize;
            if offset < RAM_SIZE {
                self.memory.ram[offset] = value;
            }
            return;
        }
        // Banked region writes (0x4000-0x7FFF)
        if addr < 0x8000 {
            let (region, offset) = self.memory.map_address(addr);
            proof {
                lemma_addr_fields(addr);
            }
            match region {
                MemRegion::Ram => {
                    if offset < RAM_SIZE {
                        self.memory.ram[offset] = value;
                    }
                },
                MemRegion::Nor => {
                    let bank_idx = self.memory.current_bank();
                    self.flash.write(addr, value, bank_idx, &mut self.nor);
                },
                _ => {},
            }
            return;
        }
        // 0x8000+: read-only, but the flash reset command is seen here
        if addr == 0x8000 && value == 0xF0 {
            self.flash.step = FlashStep::Idle;
        }
    }
}

impl Nc1020Machine {
    /// The save state `save_state` captures with `cpu`.
    pub open spec fn save_state_post(&self, cpu: Cpu, r: SaveState) -> bool {
        &&& r.cpu == cpu
        &&& r.ram@ == self.memory.ram@
        &&& r.io@ == self.memory.io@
        &&& same_timer(self.timer, r.timer)
        &&& r.input == self.input
        &&& same_audio(self.audio, r.audio)
        &&& same_flash(self.flash, r.flash)
        &&& r.lcd_addr == self.lcd.lcd_addr
    }

    /// Capture a save state.
    pub fn save_state(&self, cpu: &Cpu) -> (r: SaveState)
        requires
            self.wf(),
        ensures
            self.save_state_post(*cpu, r),
            r.wf(),
    {
        SaveState::new(
            cpu,
            self.memory.ram.as_slice(),
            self.memory.io.as_slice(),
            &self.timer,
            &self.input,
            &self.audio,
            &self.flash,
            self.lcd.lcd_addr,
        )
    }

    /// What `load_state` restores from `state`.
    pub open spec fn load_state_post(&self, after: Self, cpu1: Cpu, state: SaveState) -> bool {
        &&& cpu1 == state.cpu
        &&& after.memory.ram@ == if state.ram@.len() == RAM_SIZE { state.ram@ } else { self.memory.ram@ }
        &&& after.memory.io@ == if state.io@.len() == 0x40 { state.io@ } else { self.memory.io@ }
        &&& same_timer(state.timer, after.timer)
        &&& after.input == state.input
        &&& same_audio(state.audio, after.audio)
        &&& same_flash(state.flash, after.flash)
        &&& after.lcd.lcd_addr == state.lcd_addr
        &&& after.memory.bbs_pages@ == bbs_spec(
                self.memory.bbs_pages@,
                self.rom@,
                after.memory.ram@,
                self.memory.current_volume,
            )
        &&& after.rom == self.rom
        &&& after.nor == self.nor
    }

    /// Restore a save state: RAM and IO only when their sizes match, the
    /// components, the LCD address, then the BBS pages.
    pub fn load_state(&mut self, cpu: &mut Cpu, state: &SaveState)
        requires
            old(self).wf(),
            state.wf(),
        ensures
            final(self).wf(),
            old(self).load_state_post(*final(self), *final(cpu), *state),
    {
        *cpu = state.cpu;
        if state.ram.len() == RAM_SIZE {
            copy_into(&mut self.memory.ram, 0, state.ram.as_slice(), 0, RAM_SIZE);
            proof {
                assert(self.memory.ram@ =~= state.ram@);
            }
        }
        if state.io.len() == 0x40 {
            copy_into(&mut self.memory.io, 0, state.io.as_slice(), 0, 0x40);
            proof {
                assert(self.memory.io@ =~= state.io@);
            }
        }
        self.timer = copy_timer(&state.timer);
        self.input = state.input;
        self.audio = copy_audio(&state.audio);
        self.flash = copy_flash(&state.flash);
        self.lcd.lcd_addr = state.lcd_addr;
        self.memory.update_bbs_pages(self.rom.as_slice(), self.nor.as_slice());
    }
}

/// A CPU write to RAM below 0x4000 is given back by the next CPU read of
/// the same address, where the read window at 0x2000 shows that same RAM
/// (below 0x2000 always; above it while bit 2 of register 0x0A is clear).
pub proof fn law_ram_write_then_read(
    m0: Nc1020Machine,
    m1: Nc1020Machine,
    m2: Nc1020Machine,
    addr: u16,
    value: u8,
    v: u8,
)
    requires
        m0.wf(),
        0x40 <= addr < 0x4000,
        addr >= 0x2000 ==> m0.memory.current_roa_bbs & 0x04 == 0,
        m0.bus_write_post(m1, addr, value),
        m1.bus_read_post(m2, addr, v),
    ensures
        v == value,
        m2 == m1,
{
    lemma_addr_fields(addr);
    assert(m1.memory.map_spec(addr) == (MemRegion::Ram, addr as usize));
}

/// Loading a NOR dump and writing it back out gives the dump's first
/// 1MB unchanged.
pub proof fn law_nor_load_save_round_trip(dump: Seq<u8>)
    requires
        dump.len() >= NOR_SIZE,
    ensures
        half_swap(half_swap(dump.subrange(0, NOR_SIZE as int))) == dump.subrange(0, NOR_SIZE as int),
{
    law_half_swap_involution(dump.subrange(0, NOR_SIZE as int));
}

impl Machine for Nc1020Machine {
    open spec fn machine_inv(&self) -> bool {
        self.wf()
    }

    open spec fn machine_model(&self) -> MachineModel {
        MachineModel::Nc1020
    }

    open spec fn debug_byte(&self, addr: u16) -> u8 {
        self.peek_spec(addr)
    }

    open spec fn lcd_view(&self) -> Lcd {
        self.lcd
    }

    open spec fn asleep(&self) -> bool {
        self.input.slept
    }

    open spec fn nor_image(&self) -> Option<Seq<u8>> {
        Some(half_swap(self.nor@))
    }

    open spec fn firmware_identity(&self) -> u64 {
        0
    }


    fn model(&self) -> (r: MachineModel) {
        MachineModel::Nc1020
    }

    fn reset(&mut self)
        ensures
            old(self).reset_post(*final(self)),
    {
        Nc1020Machine::reset(self)
    }

    fn load_rom(&mut self, files: &RomFiles) -> (r: Result<(), MachineError>)
        ensures
            old(self).load_rom_post(*final(self), *files, r),
    {
        Nc1020Machine::load_rom(self, files)
    }

    fn set_key(&mut self, key_id: u8, pressed: bool)
        ensures
            old(self).set_key_post(*final(self), key_id, pressed),
    {
        Nc1020Machine::set_key(self, key_id, pressed)
    }

    fn is_sleeping(&self) -> (r: bool) {
        Nc1020Machine::is_sleeping(self)
    }

    fn step(&mut self, cpu: &mut Cpu) -> (n: u64)
        ensures
            old(self).step_post(*final(self), *old(cpu), *final(cpu), n),
    {
        Nc1020Machine::step(self, cpu)
    }

    fn end_of_frame(&mut self, cpu: &mut Cpu)
        ensures
            old(self).end_of_frame_post(*final(self), *old(cpu), *final(cpu)),
    {
        Nc1020Machine::end_of_frame(self, cpu)
    }

    fn peek(&self, addr: u16) -> (r: u8) {
        Nc1020Machine::peek(self, addr)
    }

    fn peek_u16(&self, addr: u16) -> (r: u16) {
        Nc1020Machine::peek_u16(self, addr)
    }

    fn lcd(&self) -> (r: &Lcd) {
        &self.lcd
    }

    fn drain_audio(&mut self, out: &mut Vec<i16>)
        ensures
            final(out)@ == old(out)@ + old(self).audio.output_buffer@,
            final(self).audio.output_buffer@.len() == 0,
    {
        Nc1020Machine::drain_audio(self, out)
    }

    fn load_nor(&mut self, data: &[u8]) -> (r: Result<(), MachineError>)
        ensures
            old(self).load_nor_post(*final(self), data@, r),
    {
        self.load_nor_data(data)
    }

    fn save_nor(&self) -> (r: Result<Vec<u8>, MachineError>) {
        Ok(self.save_nor_data())
    }

    fn set_speed_up(&mut self, speed_up: bool)
        ensures
            final(self).timer.speed_up_spec() == speed_up,
            *final(self) == (Nc1020Machine { timer: final(self).timer, ..*old(self) }),
    {
        Nc1020Machine::set_speed_up(self, speed_up)
    }

    fn save_state(&self, cpu: &Cpu) -> (r: SaveState)
        ensures
            self.save_state_post(*cpu, r),
    {
        Nc1020Machine::save_state(self, cpu)
    }

    fn persistent_state_identity(&self) -> (r: u64) {
        0
    }

    fn load_state(&mut self, cpu: &mut Cpu, state: &SaveState)
        ensures
            old(self).load_state_post(*final(self), *final(cpu), *state),
    {
        Nc1020Machine::load_state(self, cpu, state)
    }
}

} // verus!
