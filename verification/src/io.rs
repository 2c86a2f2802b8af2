//! IO register handler of the NC1020.
//!
//! The 64 IO registers sit at 0x0000-0x003F.  Key registers:
//!   0x00 bank switch, 0x05 sleep control (bit 3), 0x06 LCD address low,
//!   0x08 keypad data, 0x09 keypad scan, 0x0A ROA/BBS control,
//!   0x0B keypad status, 0x0C LCD address high (bits 0-1), 0x0D volume,
//!   0x0F zero-page switch, 0x20/0x22/0x23 JG WAV control/data/command,
//!   0x3B and 0x3F clock data, 0x3D clock flags, 0x3E clock index.

use vstd::prelude::*;
use crate::audio::{Audio, control_post, command_post};
use crate::input::{Input, scan_spec};
use crate::lcd::{Lcd, lcd_address};
use crate::memory::{Memory, zp_switch_spec};
use crate::timer::{Timer, clock_write_post};

verus! {

/// IO register handler
pub struct IoHandler;

/// Side effects from IO register writes
#[derive(Clone, Copy, PartialEq, Eq, Structural)]
pub struct IoSideEffects {
    /// Bank switch register changed
    pub bank_changed: bool,
    /// Sleep state changed
    pub sleep_changed: bool,
    /// BBS (banked page) changed
    pub bbs_changed: bool,
    /// Volume changed
    pub volume_changed: bool,
    /// Zero page switch changed
    pub zp_changed: bool,
}

impl Default for IoSideEffects {
    fn default() -> (r: Self)
        ensures
            !r.bank_changed && !r.sleep_changed && !r.bbs_changed && !r.volume_changed && !r.zp_changed,
    {
        IoSideEffects {
            bank_changed: false,
            sleep_changed: false,
            bbs_changed: false,
            volume_changed: false,
            zp_changed: false,
        }
    }
}

/// Keypad status register 0x0B with bit 0 set when no row-7 key is
/// pressed, and cleared when any is.
pub open spec fn status_0b(reg: u8, matrix: [u8; 8]) -> u8 {
    if matrix[7] == 0 {
        reg | 0x01
    } else {
        reg & 0xFE
    }
}

/// Value read from IO register `addr`.
pub open spec fn io_read_spec(addr: u8, io: Seq<u8>, input: Input, timer: Timer) -> u8 {
    if addr == 0x0B {
        status_0b(io[0x0B], input.matrix)
    } else if addr == 0x3B {
        if io[0x3D] & 0x03 == 0 {
            timer.clock_data@[0x3B] & 0xFE
        } else {
            io[0x3B]
        }
    } else if addr == 0x3F {
        if io[0x3E] < 80 {
            timer.clock_data@[io[0x3E] as int]
        } else {
            0
        }
    } else {
        io[addr as int]
    }
}

/// IO registers after a write of `value` to `addr`.
pub open spec fn io_write_regs(io: Seq<u8>, addr: u8, value: u8, matrix: [u8; 8]) -> Seq<u8> {
    let io1 = io.update(addr as int, value);
    if addr == 0x06 {
        io1.update(0x09, io1[0x09] & 0xFE)
    } else if addr == 0x08 {
        io1.update(0x0B, io1[0x0B] & 0xFE)
    } else if addr == 0x09 {
        let io2 = io1.update(0x08, scan_spec(matrix, value));
        if value == 0 {
            io2.update(0x0B, status_0b(io2[0x0B], matrix))
        } else {
            io2
        }
    } else if addr == 0x23 && value == 0x80 {
        io1.update(0x20, 0x80)
    } else {
        io1
    }
}

/// The register buffer reaches every register a read of `addr` looks at:
/// the register itself, and the clock status (0x3D) or index (0x3E)
/// behind the clock data ports.
pub open spec fn io_read_room(addr: u8, len: nat) -> bool {
    &&& (addr as int) < len
    &&& addr == 0x3B ==> 0x3D < len
    &&& addr == 0x3F ==> 0x3E < len
}

/// The register buffer reaches every register a write to `addr` touches:
/// the register itself, and the interrupt flags (0x09, 0x0B) that the LCD
/// and keypad registers clear.
pub open spec fn io_write_room(addr: u8, len: nat) -> bool {
    &&& (addr as int) < len
    &&& addr == 0x06 ==> 0x09 < len
    &&& (addr == 0x08 || addr == 0x09) ==> 0x0B < len
}

impl IoHandler {
    /// Read from an IO register.
    pub fn read(addr: u8, io: &[u8], input: &Input, timer: &Timer, audio: &Audio) -> (r: u8)
        requires
            io_read_room(addr, io@.len()),
            timer.wf(),
        ensures
            r == io_read_spec(addr, io@, *input, *timer),
    {
        match addr {
            0x06 => io[0x06],
            0x08 => io[0x08],
            0x0B => {
                let mut status = io[0x0B];
                if input.keypad_status() & 0x01 != 0 {
                    status |= 0x01;
                } else {
                    status &= 0xFE;
                }
                proof {
                    let m7 = input.matrix[7];
                    assert((if m7 != 0 { 0u8 } else { 1u8 }) & 0x01 != 0 <==> m7 == 0) by (bit_vector);
                }
                status
            },
            0x3B => {
                if io[0x3D] & 0x03 == 0 {
                    timer.read_clock(0x3B) & 0xFE
                } else {
                    io[0x3B]
                }
            },
            0x3F => {
                let idx = io[0x3E];
                if idx < 80 {
                    timer.read_clock(idx)
                } else {
                    0
                }
            },
            _ => io[addr as usize],
        }
    }

    /// Write to an IO register; returns the side effects that occurred.
    pub fn write(
        addr: u8,
        value: u8,
        io: &mut Vec<u8>,
        input: &mut Input,
        timer: &mut Timer,
        audio: &mut Audio,
        lcd: &mut Lcd,
        memory: &mut Memory,
    ) -> (effects: IoSideEffects)
        requires
            io_write_room(addr, old(io)@.len()),
            old(timer).wf(),
            old(audio).wf(),
            old(memory).wf(),
        ensures
            final(io)@ == io_write_regs(old(io)@, addr, value, old(input).matrix),
            final(timer).wf(),
            final(audio).wf(),
            final(memory).wf(),
            effects.bank_changed == (addr == 0x00 && value != old(io)@[0x00]),
            effects.sleep_changed == (addr == 0x05 && (old(io)@[0x05] ^ value) & 0x08 != 0),
            effects.bbs_changed == (addr == 0x0A && value != old(io)@[0x0A]),
            effects.volume_changed == (addr == 0x0D && value != old(io)@[0x0D]),
            effects.zp_changed == (addr == 0x0F && value & 0x07 != old(io)@[0x0F] & 0x07),
            // bank switch, ROA/BBS and zero-page switch reach the memory system
            effects.bank_changed ==> final(memory).io@ == old(memory).io@.update(0x00, value) && *final(memory)
                == (Memory { io: final(memory).io, current_bank: value, bank_writable: value < 0x20, ..*old(memory) }),
            effects.bbs_changed ==> final(memory).io@ == old(memory).io@.update(0x0A, value) && *final(memory)
                == (Memory { io: final(memory).io, current_roa_bbs: value, ..*old(memory) }),
            effects.zp_changed ==> (final(memory).ram@, final(memory).bak_40@) == zp_switch_spec(
                old(memory).ram@,
                old(memory).bak_40@,
                old(memory).current_zp_switch,
                value,
            ) && *final(memory) == (Memory {
                ram: final(memory).ram,
                bak_40: final(memory).bak_40,
                current_zp_switch: value,
                ..*old(memory)
            }),
            !effects.bank_changed && !effects.bbs_changed && !effects.zp_changed ==> *final(memory) == *old(memory),
            // sleep control
            *final(input) == if effects.sleep_changed {
                Input { slept: value & 0x08 == 0, ..*old(input) }
            } else {
                *old(input)
            },
            // LCD address latch
            final(lcd).fb() == old(lcd).fb(),
            final(lcd).brightness() == old(lcd).brightness(),
            final(lcd).dirty_spec() == old(lcd).dirty_spec(),
            final(lcd).lcd_addr == if addr == 0x06 && old(lcd).lcd_addr == 0 && old(io)@.len() > 0x0C {
                lcd_address(old(io)@[0x0C], value)
            } else {
                old(lcd).lcd_addr
            },
            // audio control and command
            addr == 0x20 ==> control_post(*old(audio), *final(audio), value),
            addr == 0x23 ==> command_post(*old(audio), *final(audio), old(io)@[0x22], value),
            addr != 0x20 && addr != 0x23 ==> *final(audio) == *old(audio),
            // clock data
            addr == 0x3F ==> clock_write_post(*old(timer), *final(timer), old(io)@[0x3E], value),
            addr != 0x3F ==> *final(timer) == *old(timer),
    {
        let mut effects = IoSideEffects::default();
        match addr {
            0x00 => {
                let old_value = io[0x00];
                io[0x00] = value;
                if value != old_value {
                    memory.write_bank_switch(value);
                    effects.bank_changed = true;
                }
            },
            0x05 => {
                let old_value = io[0x05];
                io[0x05] = value;
                if (old_value ^ value) & 0x08 != 0 {
                    input.slept = value & 0x08 == 0;
                    effects.sleep_changed = true;
                }
            },
            0x06 => {
                io[0x06] = value;
                if lcd.lcd_addr == 0 {
                    lcd.update_address(io.as_slice());
                }
                let r9 = io[0x09];
                io[0x09] = r9 & 0xFE;
            },
            0x08 => {
                io[0x08] = value;
                let rb = io[0x0B];
                io[0x0B] = rb & 0xFE;
            },
            0x09 => {
                io[0x09] = value;
                io[0x08] = input.read_keypad(value);
                if value == 0x00 {
                    let rb = io[0x0B];
                    if input.matrix[7] == 0 {
                        io[0x0B] = rb | 0x01;
                    } else {
                        io[0x0B] = rb & 0xFE;
                    }
                }
            },
            0x0A => {
                let old_value = io[0x0A];
                io[0x0A] = value;
                if value != old_value {
                    memory.write_roa_bbs(value);
                    effects.bbs_changed = true;
                }
            },
            0x0D => {
                let old_value = io[0x0D];
                io[0x0D] = value;
                if value != old_value {
                    effects.volume_changed = true;
                }
            },
            0x0F => {
                let old_value = io[0x0F];
                io[0x0F] = value;
                if value & 0x07 != old_value & 0x07 {
                    memory.switch_zp40(value);
                    effects.zp_changed = true;
                }
            },
            0x20 => {
                io[0x20] = value;
                audio.write_control(value);
            },
            0x22 => {
                io[0x22] = value;
            },
            0x23 => {
                io[0x23] = value;
                let data = io[0x22];
                audio.write_command(data, value);
                if value == 0x80 {
                    io[0x20] = 0x80;
                }
            },
            0x3E => {
                io[0x3E] = value;
            },
            0x3F => {
                io[0x3F] = value;
                let idx = io[0x3E];
                timer.write_clock(idx, value);
            },
            _ => {
                io[addr as usize] = value;
            },
        }
        proof {
            assert(io@ =~= io_write_regs(old(io)@, addr, value, old(input).matrix));
        }
        effects
    }
}

} // verus!
