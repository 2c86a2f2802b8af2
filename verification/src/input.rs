//! Keyboard matrix input for the NC1020.
//!
//! The NC1020 has an 8x8 keyboard matrix.  Register 0x09 selects the row to
//! scan and register 0x08 returns the column bits of that row.  A key id
//! encodes its position as `row = key_id % 8`, `col = key_id / 8`; the power
//! key (0x0F) sets all bits but bit 0 of row 7.

use vstd::prelude::*;
use crate::bytes::filled;
use crate::key_ids::POWER;

verus! {

/// Total number of keys (8x8 matrix).
pub const KEY_COUNT: usize = 64;

/// Keyboard matrix state.
#[derive(Clone, Copy)]
pub struct Input {
    /// Keyboard matrix (8 rows, each byte has 8 column bits)
    pub matrix: [u8; 8],
    /// Whether the device is in sleep mode
    pub slept: bool,
    /// Whether a wake-up is pending
    pub should_wake_up: bool,
    /// Wake-up pending flag
    pub wake_up_pending: bool,
    /// Wake-up key code
    pub wake_up_key: u8,
}

/// Matrix bits a key occupies in its row.
pub open spec fn key_bits(key_id: u8) -> u8 {
    if key_id == POWER { 0xFEu8 } else { 1u8 << (key_id / 8) }
}

/// Keys that wake the device from sleep (F10..Power except F11).
pub open spec fn is_wake_key(key_id: u8) -> bool {
    0x08 <= key_id <= 0x0F && key_id != 0x0E
}

/// Code stored for the firmware when a key wakes the device.
pub open spec fn wake_code(key_id: u8) -> u8 {
    match key_id {
        0x09 => 0x0Au8,
        0x0A => 0x08u8,
        0x0B => 0x06u8,
        0x0C => 0x04u8,
        0x0D => 0x02u8,
        0x0E => 0x0Cu8,
        _ => 0x00u8,
    }
}

/// Value returned by a keypad scan.
pub open spec fn scan_spec(m: [u8; 8], scan: u8) -> u8 {
    match scan {
        0x01 => m[0],
        0x02 => m[1],
        0x04 => m[2],
        0x08 => m[3],
        0x10 => m[4],
        0x20 => m[5],
        0x40 => m[6],
        0x80 => m[7],
        0x00 => if m[7] != 0 { 0u8 } else { 1u8 },
        0x7F => m[0] | m[1] | m[2] | m[3] | m[4] | m[5] | m[6] | m[7],
        _ => 0xFFu8,
    }
}

impl Input {
    /// Create a new input system with no key pressed.
    pub fn new() -> (r: Self)
        ensures
            r.matrix@ == seq![0u8; 8],
            !r.slept && !r.should_wake_up && !r.wake_up_pending,
            r.wake_up_key == 0,
    {
        Input { matrix: filled(0), slept: false, should_wake_up: false, wake_up_pending: false, wake_up_key: 0 }
    }

    /// Reset the input state: no key pressed, awake.
    pub fn reset(&mut self)
        ensures
            final(self).matrix@ == seq![0u8; 8],
            !final(self).slept && !final(self).should_wake_up && !final(self).wake_up_pending,
            final(self).wake_up_key == 0,
    {
        self.matrix = filled(0);
        self.slept = false;
        self.should_wake_up = false;
        self.wake_up_pending = false;
        self.wake_up_key = 0;
    }

    /// What `set_key` does to the machine.
    pub open spec fn set_key_post(&self, after: Self, key_id: u8, pressed: bool) -> bool {
        &&& after.matrix@ == self.matrix@.update(
                (key_id % 8) as int,
                if pressed {
                    self.matrix[(key_id % 8) as int] | key_bits(key_id)
                } else {
                    self.matrix[(key_id % 8) as int] & !key_bits(key_id)
                },
            )
        &&& if pressed && self.slept && is_wake_key(key_id) {
                &&& !after.slept
                &&& after.should_wake_up
                &&& after.wake_up_pending
                &&& after.wake_up_key == wake_code(key_id)
            } else {
                &&& after.slept == (self.slept || (pressed && key_id == POWER))
                &&& after.should_wake_up == self.should_wake_up
                &&& after.wake_up_pending == self.wake_up_pending
                &&& after.wake_up_key == self.wake_up_key
            }
    }

    /// Set a key state.  Pressing a wake key while asleep wakes the device
    /// (recording the wake code); pressing power while awake puts it to sleep.
    pub fn set_key(&mut self, key_id: u8, pressed: bool)
        requires
            key_id < 64,
        ensures
            old(self).set_key_post(*final(self), key_id, pressed),
    {
        let row = (key_id % 8) as usize;
        let col = key_id / 8;
        let bits: u8 = if key_id == POWER { 0xFE } else { 1u8 << col };
        if pressed {
            self.matrix[row] = self.matrix[row] | bits;
        } else {
            self.matrix[row] = self.matrix[row] & !bits;
        }
        if pressed {
            if self.slept {
                if key_id >= 0x08 && key_id <= 0x0F && key_id != 0x0E {
                    self.wake_up_key = match key_id {
                        0x08 => 0x00,
                        0x09 => 0x0A,
                        0x0A => 0x08,
                        0x0B => 0x06,
                        0x0C => 0x04,
                        0x0D => 0x02,
                        0x0E => 0x0C,
                        0x0F => 0x00,
                        _ => 0x00,
                    };
                    self.should_wake_up = true;
                    self.wake_up_pending = true;
                    self.slept = false;
                }
            } else if key_id == POWER {
                self.slept = true;
            }
        }
    }

    /// Read keypad data for a scan value written to register 0x09.
    pub fn read_keypad(&self, scan_value: u8) -> (r: u8)
        ensures
            r == scan_spec(self.matrix, scan_value),
    {
        match scan_value {
            0x01 => self.matrix[0],
            0x02 => self.matrix[1],
            0x04 => self.matrix[2],
            0x08 => self.matrix[3],
            0x10 => self.matrix[4],
            0x20 => self.matrix[5],
            0x40 => self.matrix[6],
            0x80 => self.matrix[7],
            0x00 => {
                if self.matrix[7] != 0 {
                    0
                } else {
                    1
                }
            },
            0x7F => {
                self.matrix[0] | self.matrix[1] | self.matrix[2] | self.matrix[3] | self.matrix[4]
                    | self.matrix[5] | self.matrix[6] | self.matrix[7]
            },
            _ => 0xFF,
        }
    }

    /// Whether any key of row 7 is pressed.
    pub fn is_key_pressed_row7(&self) -> (r: bool)
        ensures
            r == (self.matrix[7] != 0),
    {
        self.matrix[7] != 0
    }

    /// Keypad status for register 0x0B: 1 when no row-7 key is pressed.
    pub fn keypad_status(&self) -> (r: u8)
        ensures
            r == (if self.matrix[7] != 0 { 0u8 } else { 1u8 }),
    {
        if self.matrix[7] != 0 {
            0x00
        } else {
            0x01
        }
    }
}

impl Default for Input {
    fn default() -> (r: Self)
        ensures
            r.matrix@ == seq![0u8; 8],
            !r.slept && !r.should_wake_up && !r.wake_up_pending,
            r.wake_up_key == 0,
    {
        Self::new()
    }
}


pub(crate) proof fn lemma_row_select(r: u8)
    by (bit_vector)
    requires
        r < 8,
    ensures
        r == 0 ==> 1u8 << r == 0x01u8,
        r == 1 ==> 1u8 << r == 0x02u8,
        r == 2 ==> 1u8 << r == 0x04u8,
        r == 3 ==> 1u8 << r == 0x08u8,
        r == 4 ==> 1u8 << r == 0x10u8,
        r == 5 ==> 1u8 << r == 0x20u8,
        r == 6 ==> 1u8 << r == 0x40u8,
        r == 7 ==> 1u8 << r == 0x80u8,
{
}

pub(crate) proof fn lemma_column_bit(x: u8, c: u8)
    by (bit_vector)
    requires
        c < 8,
    ensures
        (x | (1u8 << c)) & (1u8 << c) != 0,
        (x & !(1u8 << c)) & (1u8 << c) == 0,
{
}

/// Scanning with the single bit of row `r` returns that row of the matrix.
pub proof fn law_scan_reads_row(m: [u8; 8], r: u8)
    requires
        r < 8,
    ensures
        scan_spec(m, 1u8 << r) == m[r as int],
{
    lemma_row_select(r);
}

/// A key is seen by the scan of its row: after pressing key `k` (other
/// than power), scanning row `k % 8` reports column bit `k / 8`; after
/// releasing it, that bit is clear.
pub proof fn law_key_seen_in_its_row(a: Input, b: Input, k: u8, pressed: bool)
    requires
        k < 64,
        k != POWER,
        a.set_key_post(b, k, pressed),
    ensures
        pressed ==> scan_spec(b.matrix, 1u8 << (k % 8)) & (1u8 << (k / 8)) != 0,
        !pressed ==> scan_spec(b.matrix, 1u8 << (k % 8)) & (1u8 << (k / 8)) == 0,
{
    let r = k % 8;
    law_scan_reads_row(b.matrix, r);
    lemma_column_bit(a.matrix[r as int], k / 8);
}


/// Sleep and wake: releasing a key never changes whether the device
/// sleeps; while awake, pressing puts it to sleep exactly when the key is
/// POWER (0x0F); while asleep, pressing wakes it exactly when the key is
/// one of 0x08-0x0F other than 0x0E, and a wake leaves a wake-up pending.
pub proof fn law_sleep_and_wake(a: Input, b: Input, k: u8, pressed: bool)
    requires
        k < 64,
        a.set_key_post(b, k, pressed),
    ensures
        !pressed ==> b.slept == a.slept,
        pressed && !a.slept ==> (b.slept <==> k == 0x0F),
        pressed && a.slept ==> (!b.slept <==> (0x08 <= k <= 0x0F && k != 0x0E)),
        pressed && a.slept && !b.slept ==> b.should_wake_up && b.wake_up_pending,
{
}

} // verus!
