//! NC1020 timers and real-time clock.
//!
//! Timer0 fires every 0.5 s (2 Hz) and advances the RTC every second
//! firing; Timer1 fires at 256 Hz (or 20 times faster in speed-up mode) and
//! increments the sub-second counter `clock_data[4]`.
//!
//! RTC clock data layout: `[0]` seconds, `[1]` minutes, `[2]` hours (bits
//! 6-7 AM/PM), `[3]` day, `[4]` 256 Hz counter, `[5..8]` alarm seconds,
//! minutes, hours, `[10]` alarm control, `[11]` clock control (bit 7 halts
//! the clock).

use vstd::prelude::*;
use crate::bits::lemma_byte_fields;
use crate::bytes::fill_all;

verus! {

/// CPU frequency (5.12 MHz)
pub const CPU_FREQ: u32 = 5_120_000;
/// Timer0 frequency (2 Hz)
pub const TIMER0_FREQ: u32 = 2;
/// Timer1 frequency (256 Hz)
pub const TIMER1_FREQ: u32 = 256;
/// CPU cycles per Timer0 period
pub const CYCLES_TIMER0: u32 = 2_560_000;
/// CPU cycles per Timer1 period
pub const CYCLES_TIMER1: u32 = 20_000;
/// Speed-up factor for Timer1
pub const SPEED_UP_FACTOR: u32 = 20;
/// CPU cycles per Timer1 period with speed-up
pub const CYCLES_TIMER1_SPEED_UP: u32 = 1_000;
/// CPU cycles per millisecond
pub const CYCLES_PER_MS: u32 = 5_120;
/// RTC clock data size
pub const CLOCK_DATA_SIZE: usize = 80;

/// Which timer(s) fired during a tick.
#[derive(Clone, Copy, PartialEq, Eq, Structural)]
pub struct TimerIrq {
    /// Timer0 (2 Hz) fired.
    pub timer0: bool,
    /// Timer1 (256 Hz) fired.
    pub timer1: bool,
}

impl TimerIrq {
    /// True if any timer fired.
    pub fn any(self) -> (r: bool)
        ensures
            r == (self.timer0 || self.timer1),
    {
        self.timer0 || self.timer1
    }
}

/// Timer system state.
#[derive(Clone)]
pub struct Timer {
    /// RTC clock data (80 bytes)
    pub clock_data: Vec<u8>,
    /// Clock flags
    pub clock_flags: u8,
    /// Cycle count at which Timer0 fires next
    pub timer0_cycles: u32,
    /// Cycle count at which Timer1 fires next
    pub timer1_cycles: u32,
    /// Timer0 toggle (alternates every 0.5 s)
    pub timer0_toggle: bool,
    /// Whether the last tick fired a timer
    pub should_irq: bool,
    /// Value for IO register 0x3D when Timer0 fires (0x20 on a countdown alarm)
    pub io_3d: u8,
    /// Accumulated CPU cycles (wrapping)
    pub cycles: u32,
    /// Whether speed-up mode is active
    pub speed_up: bool,
}

/// 8-bit wrapping increment.
pub open spec fn inc8(x: u8) -> u8 {
    if x == 255 { 0u8 } else { (x + 1) as u8 }
}

/// RTC after one second: seconds, minutes, hours (keeping bits 6-7) and day.
pub open spec fn adjust_time_spec(cd: Seq<u8>) -> Seq<u8> {
    let s = inc8(cd[0]);
    if s < 60 {
        cd.update(0, s)
    } else {
        let m = inc8(cd[1]);
        if m < 60 {
            cd.update(0, 0).update(1, m)
        } else {
            let h = (cd[2] & 0xC0) | (((cd[2] & 0x1F) + 1) as u8);
            if h & 0x1F < 24 {
                cd.update(0, 0).update(1, 0).update(2, h)
            } else {
                cd.update(0, 0).update(1, 0).update(2, h & 0xC0).update(3, inc8(cd[3]))
            }
        }
    }
}

/// Whether an enabled alarm matches the current time.
pub open spec fn countdown_spec(cd: Seq<u8>, flags: u8) -> bool {
    if cd[10] & 0x02 == 0 || flags & 0x02 == 0 {
        false
    } else {
        (cd[7] & 0x80 != 0 && (cd[7] ^ cd[2]) & 0x1F == 0) || (cd[6] & 0x80 != 0 && (cd[6] ^ cd[1])
            & 0x3F == 0) || (cd[5] & 0x80 != 0 && (cd[5] ^ cd[0]) & 0x3F == 0)
    }
}

/// 32-bit wrapping addition.
pub open spec fn add32(x: u32, y: u32) -> u32 {
    if x + y > 0xFFFF_FFFF { (x + y - 0x1_0000_0000) as u32 } else { (x + y) as u32 }
}

/// Advance the RTC by one second.
fn adjust_time(clock_data: &mut Vec<u8>)
    requires
        old(clock_data)@.len() == CLOCK_DATA_SIZE,
    ensures
        final(clock_data)@ == adjust_time_spec(old(clock_data)@),
{
    clock_data[0] = clock_data[0].wrapping_add(1);
    if clock_data[0] >= 60 {
        clock_data[0] = 0;
        clock_data[1] = clock_data[1].wrapping_add(1);
        if clock_data[1] >= 60 {
            clock_data[1] = 0;
            let h = clock_data[2];
            proof {
                lemma_byte_fields(h);
            }
            clock_data[2] = (h & 0xC0) | ((h & 0x1F) + 1);
            if (clock_data[2] & 0x1F) >= 24 {
                clock_data[2] = clock_data[2] & 0xC0;
                clock_data[3] = clock_data[3].wrapping_add(1);
            }
        }
    }
    assert(clock_data@ =~= adjust_time_spec(old(clock_data)@));
}

/// Effect of a clock-data write: index 0x0B (clock control) keeps its bit 7
/// and ORs the low three bits into the clock flags; index 0x0A (alarm
/// control) also ORs them into the flags; the time registers (0..7) are
/// only writable while the clock is not halted.
pub open spec fn clock_write_post(a: Timer, b: Timer, index: u8, value: u8) -> bool {
    &&& b == (Timer { clock_data: b.clock_data, clock_flags: b.clock_flags, ..a })
    &&& b.speed_up_spec() == a.speed_up_spec()
    &&& ((index as int) >= CLOCK_DATA_SIZE ==> b.clock_data@ == a.clock_data@ && b.clock_flags == a.clock_flags)
    &&& (index == 0x0B ==> b.clock_flags == a.clock_flags | (value & 0x07) && b.clock_data@
        == a.clock_data@.update(0x0B, value ^ ((a.clock_data[0x0B] ^ value) & 0x7F)))
    &&& (index == 0x0A ==> b.clock_flags == a.clock_flags | (value & 0x07) && b.clock_data@ == a.clock_data@.update(
        0x0A,
        value,
    ))
    &&& (7 <= index < CLOCK_DATA_SIZE && index != 0x0A && index != 0x0B ==> b.clock_flags == a.clock_flags
        && b.clock_data@ == a.clock_data@.update(index as int, value))
    &&& (index < 7 ==> b.clock_flags == a.clock_flags && b.clock_data@ == if a.clock_data[0x0B] & 0x80 == 0 {
        a.clock_data@.update(index as int, value)
    } else {
        a.clock_data@
    })
}

impl Timer {
    /// Clock data has its fixed size.
    pub open spec fn wf(&self) -> bool {
        self.clock_data@.len() == CLOCK_DATA_SIZE
    }

    /// Whether speed-up mode is active.
    pub open spec fn speed_up_spec(&self) -> bool {
        self.speed_up
    }

    /// Create a new timer system.
    pub fn new() -> (r: Self)
        ensures
            r.wf(),
            r.clock_data@ == Seq::new(80, |i: int| 0u8),
            r.clock_flags == 0,
            r.timer0_cycles == CYCLES_TIMER0,
            r.timer1_cycles == CYCLES_TIMER1,
            !r.timer0_toggle && !r.should_irq && !r.speed_up_spec(),
            r.io_3d == 0,
            r.cycles == 0,
    {
        let t = Timer {
            clock_data: vec![0; CLOCK_DATA_SIZE],
            clock_flags: 0,
            timer0_cycles: CYCLES_TIMER0,
            timer1_cycles: CYCLES_TIMER1,
            timer0_toggle: false,
            should_irq: false,
            io_3d: 0,
            cycles: 0,
            speed_up: false,
        };
        assert(t.clock_data@ =~= Seq::new(80, |i: int| 0u8));
        t
    }

    /// Reset timer state (the speed-up setting is kept).
    pub fn reset(&mut self)
        ensures
            old(self).wf() ==> final(self).wf(),
            final(self).clock_data@ == Seq::new(old(self).clock_data@.len(), |i: int| 0u8),
            final(self).clock_flags == 0,
            final(self).timer0_cycles == CYCLES_TIMER0,
            final(self).timer1_cycles == CYCLES_TIMER1,
            !final(self).timer0_toggle && !final(self).should_irq,
            final(self).io_3d == 0,
            final(self).cycles == 0,
            final(self).speed_up_spec() == old(self).speed_up_spec(),
    {
        fill_all(&mut self.clock_data, 0);
        assert(self.clock_data@ =~= Seq::new(old(self).clock_data@.len(), |i: int| 0u8));
        self.clock_flags = 0;
        self.timer0_cycles = CYCLES_TIMER0;
        self.timer1_cycles = CYCLES_TIMER1;
        self.timer0_toggle = false;
        self.should_irq = false;
        self.io_3d = 0;
        self.cycles = 0;
    }

    /// Set speed-up mode.
    pub fn set_speed_up(&mut self, speed_up: bool)
        ensures
            final(self).speed_up_spec() == speed_up,
            final(self).clock_data == old(self).clock_data,
            final(self).cycles == old(self).cycles,
            final(self).timer0_cycles == old(self).timer0_cycles,
            final(self).timer1_cycles == old(self).timer1_cycles,
            final(self).clock_flags == old(self).clock_flags,
    {
        self.speed_up = speed_up;
    }

    /// Whether a countdown alarm is due.
    fn is_countdown(&self) -> (r: bool)
        requires
            self.wf(),
        ensures
            r == countdown_spec(self.clock_data@, self.clock_flags),
    {
        if self.clock_data[10] & 0x02 == 0 || self.clock_flags & 0x02 == 0 {
            return false;
        }
        if self.clock_data[7] & 0x80 != 0 && (self.clock_data[7] ^ self.clock_data[2]) & 0x1F == 0 {
            return true;
        }
        if self.clock_data[6] & 0x80 != 0 && (self.clock_data[6] ^ self.clock_data[1]) & 0x3F == 0 {
            return true;
        }
        if self.clock_data[5] & 0x80 != 0 && (self.clock_data[5] ^ self.clock_data[0]) & 0x3F == 0 {
            return true;
        }
        false
    }

    /// Advance the timers by `cpu_cycles` CPU cycles (the counter wraps at
    /// 32 bits).  Returns which timers fired.
    ///
    /// When the cycle counter reaches Timer0's deadline, the deadline moves
    /// one period on, the toggle flips, every second firing advances the
    /// RTC, and the clock flags / register 0x3D value are updated (a due
    /// countdown alarm on the second half-period sets 0x3D to 0x20).  When
    /// it reaches Timer1's deadline, the deadline moves one (speed-up
    /// aware) period on and `clock_data[4]` is incremented.
    pub fn tick(&mut self, cpu_cycles: u64) -> (fired: TimerIrq)
        requires
            old(self).wf(),
        ensures
            final(self).wf(),
            final(self).cycles == add32(old(self).cycles, (cpu_cycles % 0x1_0000_0000) as u32),
            fired.timer0 == (final(self).cycles >= old(self).timer0_cycles),
            fired.timer0 ==> {
                let toggle = !old(self).timer0_toggle;
                let cd1 = if !toggle { adjust_time_spec(old(self).clock_data@) } else { old(self).clock_data@ };
                let cd_flags = cd1;
                &&& final(self).timer0_cycles == add32(old(self).timer0_cycles, CYCLES_TIMER0)
                &&& final(self).timer0_toggle == toggle
                &&& if !countdown_spec(cd1, old(self).clock_flags) || toggle {
                    final(self).clock_flags == 0 && final(self).io_3d == 0
                } else {
                    final(self).clock_flags == old(self).clock_flags & 0xFD && final(self).io_3d == 0x20
                }
                &&& final(self).clock_data@ == if fired.timer1 { cd_flags.update(4, inc8(cd_flags[4])) } else { cd_flags }
            },
            !fired.timer0 ==> {
                &&& final(self).timer0_cycles == old(self).timer0_cycles
                &&& final(self).timer0_toggle == old(self).timer0_toggle
                &&& final(self).clock_flags == old(self).clock_flags
                &&& final(self).io_3d == old(self).io_3d
                &&& final(self).clock_data@ == if fired.timer1 {
                    old(self).clock_data@.update(4, inc8(old(self).clock_data[4]))
                } else {
                    old(self).clock_data@
                }
            },
            fired.timer1 == (final(self).cycles >= old(self).timer1_cycles),
            final(self).timer1_cycles == if fired.timer1 {
                add32(old(self).timer1_cycles, if old(self).speed_up_spec() { CYCLES_TIMER1_SPEED_UP } else { CYCLES_TIMER1 })
            } else {
                old(self).timer1_cycles
            },
            final(self).should_irq == (fired.timer0 || fired.timer1),
            final(self).speed_up_spec() == old(self).speed_up_spec(),
            fired.timer0 ==> final(self).timer0_cycles == (old(self).timer0_cycles + 2_560_000) % 0x1_0000_0000,
            fired.timer1 ==> final(self).timer1_cycles == (old(self).timer1_cycles + if old(self).speed_up_spec() {
                1_000int
            } else {
                20_000int
            }) % 0x1_0000_0000,
            fired.timer0 && old(self).timer0_toggle && valid_time(old(self).clock_data@) ==> time_of_day(
                final(self).clock_data@,
            ) == (time_of_day(old(self).clock_data@) + 1) % 86400 && valid_time(final(self).clock_data@),
            !(fired.timer0 && old(self).timer0_toggle) ==> time_of_day(final(self).clock_data@) == time_of_day(
                old(self).clock_data@,
            ),
    {
        let delta = (cpu_cycles % 0x1_0000_0000) as u32;
        self.cycles = self.cycles.wrapping_add(delta);
        let mut fired = TimerIrq { timer0: false, timer1: false };
        if self.cycles >= self.timer0_cycles {
            self.timer0_cycles = self.timer0_cycles.wrapping_add(CYCLES_TIMER0);
            self.timer0_toggle = !self.timer0_toggle;
            if !self.timer0_toggle {
                adjust_time(&mut self.clock_data);
            }
            if !self.is_countdown() || self.timer0_toggle {
                self.clock_flags = 0;
                self.io_3d = 0;
            } else {
                self.clock_flags = self.clock_flags & 0xFD;
                self.io_3d = 0x20;
            }
            fired.timer0 = true;
        }
        let timer1_period = if self.speed_up {
            CYCLES_TIMER1_SPEED_UP
        } else {
            CYCLES_TIMER1
        };
        if self.cycles >= self.timer1_cycles {
            self.timer1_cycles = self.timer1_cycles.wrapping_add(timer1_period);
            self.clock_data[4] = self.clock_data[4].wrapping_add(1);
            fired.timer1 = true;
        }
        self.should_irq = fired.any();
        proof {
            if fired.timer0 && old(self).timer0_toggle && valid_time(old(self).clock_data@) {
                law_clock_second(old(self).clock_data@);
            }
        }
        fired
    }

    /// Read clock data at `index` (0 outside the 80 bytes).
    pub fn read_clock(&self, index: u8) -> (r: u8)
        requires
            self.wf(),
        ensures
            r == if (index as int) < CLOCK_DATA_SIZE { self.clock_data[index as int] } else { 0u8 },
    {
        if (index as usize) < CLOCK_DATA_SIZE {
            self.clock_data[index as usize]
        } else {
            0
        }
    }

    /// Write clock data at `index`.  Index 0x0B (clock control) keeps its
    /// bit 7 and ORs the low three bits into the clock flags; index 0x0A
    /// (alarm control) also ORs them into the flags; the time registers
    /// (0..7) are only writable while the clock is not halted.
    pub fn write_clock(&mut self, index: u8, value: u8)
        requires
            old(self).wf(),
        ensures
            final(self).wf(),
            clock_write_post(*old(self), *final(self), index, value),
    {
        if (index as usize) >= CLOCK_DATA_SIZE {
            return;
        }
        let idx = index as usize;
        if idx >= 7 {
            if idx == 0x0B {
                self.clock_flags = self.clock_flags | (value & 0x07);
                self.clock_data[0x0B] = value ^ ((self.clock_data[0x0B] ^ value) & 0x7F);
            } else if idx == 0x0A {
                self.clock_flags = self.clock_flags | (value & 0x07);
                self.clock_data[0x0A] = value;
            } else {
                self.clock_data[idx % CLOCK_DATA_SIZE] = value;
            }
        } else {
            if self.clock_data[0x0B] & 0x80 == 0 {
                self.clock_data[idx] = value;
            }
        }
    }

    /// Clock flags for register 0x3D.
    pub fn clock_flags_reg(&self) -> (r: u8)
        ensures
            r == self.clock_flags,
    {
        self.clock_flags
    }
}

impl Default for Timer {
    fn default() -> (r: Self)
        ensures
            r.wf(),
            r.clock_data@ == Seq::new(80, |i: int| 0u8),
            r.clock_flags == 0,
            r.timer0_cycles == CYCLES_TIMER0,
            r.timer1_cycles == CYCLES_TIMER1,
            !r.timer0_toggle && !r.should_irq && !r.speed_up_spec(),
            r.io_3d == 0,
            r.cycles == 0,
    {
        Self::new()
    }
}


/// Seconds since midnight held by the clock data (seconds, minutes, and
/// the hour in the low five bits of byte 2).
pub open spec fn time_of_day(cd: Seq<u8>) -> int {
    cd[0] + 60 * cd[1] + 3600 * (cd[2] & 0x1F)
}

/// The clock data holds a time of day: seconds and minutes below 60, the
/// hour below 24 (bit 5 of the hour byte clear).
pub open spec fn valid_time(cd: Seq<u8>) -> bool {
    &&& cd.len() == CLOCK_DATA_SIZE
    &&& cd[0] < 60
    &&& cd[1] < 60
    &&& cd[2] & 0x3F < 24
}

proof fn lemma_hour_step(h: u8)
    by (bit_vector)
    requires
        h & 0x3F < 24,
    ensures
        h & 0x1F == h & 0x3F,
        ((h & 0x1F) + 1) < 24 ==> ((h & 0xC0) | (((h & 0x1F) + 1) as u8)) & 0x1F == (h & 0x1F) + 1
            && ((h & 0xC0) | (((h & 0x1F) + 1) as u8)) & 0x3F == (h & 0x1F) + 1
            && ((h & 0xC0) | (((h & 0x1F) + 1) as u8)) & 0xC0 == h & 0xC0,
        ((h & 0x1F) + 1) == 24 ==> ((h & 0xC0) | (((h & 0x1F) + 1) as u8)) & 0x1F >= 24
            && (((h & 0xC0) | (((h & 0x1F) + 1) as u8)) & 0xC0) & 0x1F == 0
            && (((h & 0xC0) | (((h & 0x1F) + 1) as u8)) & 0xC0) & 0x3F == 0
            && (((h & 0xC0) | (((h & 0x1F) + 1) as u8)) & 0xC0) & 0xC0 == h & 0xC0,
{
}

/// One second of the real-time clock: a valid time of day stays valid and
/// advances by exactly one second, wrapping at midnight into the next day
/// (byte 3 counts days modulo 256); the top bits of the hour byte and the
/// rest of the clock data are kept.
pub proof fn law_clock_second(cd: Seq<u8>)
    requires
        valid_time(cd),
    ensures
        ({
            let n = adjust_time_spec(cd);
            &&& valid_time(n)
            &&& time_of_day(n) == (time_of_day(cd) + 1) % 86400
            &&& n[3] == if time_of_day(cd) == 86399 { (cd[3] + 1) % 256 } else { cd[3] as int }
            &&& n[2] & 0xC0 == cd[2] & 0xC0
            &&& forall|i: int| 4 <= i < CLOCK_DATA_SIZE ==> n[i] == cd[i]
        }),
{
    lemma_hour_step(cd[2]);
}

} // verus!
