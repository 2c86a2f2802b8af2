//! LCD controller: a 160x80 one-bit framebuffer copied from RAM once per
//! frame, plus a per-pixel brightness that can model the persistence of a
//! passive LCD.

use vstd::prelude::*;
use crate::bytes::fill_all;

verus! {

/// LCD width in pixels
pub const LCD_WIDTH: usize = 160;
/// LCD height in pixels
pub const LCD_HEIGHT: usize = 80;
/// Number of pixels
pub const LCD_PIXELS: usize = 12800;
/// LCD framebuffer size in bytes (160*80/8)
pub const LCD_BUFFER_SIZE: usize = 1600;
/// Frame rate
pub const FRAME_RATE: u32 = 30;
/// CPU cycles per frame at 5.12 MHz
pub const CYCLES_PER_FRAME: u64 = 170_666;

/// LCD color of a pixel.
#[derive(Clone, Copy, PartialEq, Eq, Structural)]
pub enum LcdColor {
    /// Black pixel (bit set)
    On,
    /// White pixel (bit clear)
    Off,
}

/// LCD controller state.
#[derive(Clone)]
pub struct Lcd {
    /// Packed framebuffer (160x80, 1 bit per pixel, MSB first)
    pub framebuffer: Vec<u8>,
    /// Per-pixel brightness (0 = black, 255 = white)
    pub pixel_brightness: Vec<u8>,
    /// Current LCD address in RAM
    pub lcd_addr: u32,
    /// Whether the framebuffer was updated since the flag was cleared
    pub dirty: bool,
}

/// Whether pixel `i` (row-major, MSB first) is set in a packed framebuffer.
pub open spec fn pixel_on(fb: Seq<u8>, i: int) -> bool {
    fb[i / 8] & (1u8 << ((7 - i % 8) as u8)) != 0
}

/// Brightness of a pixel after one frame.  Without persistence a set pixel
/// is black (0) and a clear one white (255); with persistence the value
/// moves a sixth of the way to black, or an eighth of the way to white, but
/// always by at least one step.
pub open spec fn next_brightness(b: u8, on: bool, persistence: bool) -> u8 {
    if !persistence {
        if on { 0u8 } else { 0xFFu8 }
    } else if on {
        let d: u8 = if b / 6 > 1 { b / 6 } else { 1 };
        if b >= d { (b - d) as u8 } else { 0u8 }
    } else {
        let d: u8 = if (0xFF - b) / 8 > 1 { ((0xFF - b) / 8) as u8 } else { 1u8 };
        if b + d <= 0xFF { (b + d) as u8 } else { 0xFFu8 }
    }
}

/// XRGB8888 value of a gray level.
pub open spec fn xrgb(b: u8) -> u32 {
    0xFF00_0000u32 | ((b as u32) << 16u32) | ((b as u32) << 8u32) | (b as u32)
}

/// LCD address register value from IO registers 0x0C (bits 0-1) and 0x06.
pub open spec fn lcd_address(io0c: u8, io06: u8) -> u32 {
    (((io0c & 0x03) as u32) << 12u32) | ((io06 as u32) << 4u32)
}

impl Lcd {
    /// The packed framebuffer.
    pub open spec fn fb(&self) -> Seq<u8> {
        self.framebuffer@
    }

    /// Per-pixel brightness (0 = black, 255 = white).
    pub open spec fn brightness(&self) -> Seq<u8> {
        self.pixel_brightness@
    }

    /// Whether the framebuffer was updated since the flag was cleared.
    pub open spec fn dirty_spec(&self) -> bool {
        self.dirty
    }

    /// Buffer sizes.
    pub open spec fn wf(&self) -> bool {
        self.fb().len() == LCD_BUFFER_SIZE && self.brightness().len() == LCD_PIXELS
    }

    /// Create a blank LCD (all pixels white).
    pub fn new() -> (r: Self)
        ensures
            r.wf(),
            r.fb() == Seq::new(1600, |i: int| 0u8),
            r.brightness() == Seq::new(12800, |i: int| 0xFFu8),
            r.lcd_addr == 0,
            !r.dirty_spec(),
    {
        let r = Lcd {
            framebuffer: vec![0; LCD_BUFFER_SIZE],
            pixel_brightness: vec![0xFF; LCD_PIXELS],
            lcd_addr: 0,
            dirty: false,
        };
        assert(r.framebuffer@ =~= Seq::new(1600, |i: int| 0u8));
        assert(r.pixel_brightness@ =~= Seq::new(12800, |i: int| 0xFFu8));
        r
    }

    /// Reset the LCD to blank.
    pub fn reset(&mut self)
        ensures
            old(self).wf() ==> final(self).wf(),
            final(self).fb() == Seq::new(old(self).fb().len(), |i: int| 0u8),
            final(self).brightness() == Seq::new(12800, |i: int| 0xFFu8),
            final(self).lcd_addr == 0,
            !final(self).dirty_spec(),
    {
        fill_all(&mut self.framebuffer, 0);
        if self.pixel_brightness.len() != LCD_PIXELS {
            self.pixel_brightness = vec![0xFF; LCD_PIXELS];
        } else {
            fill_all(&mut self.pixel_brightness, 0xFF);
        }
        self.lcd_addr = 0;
        self.dirty = false;
        proof {
            assert(self.framebuffer@ =~= Seq::new(old(self).fb().len(), |i: int| 0u8));
            assert(self.pixel_brightness@ =~= Seq::new(12800, |i: int| 0xFFu8));
        }
    }

    /// Update the LCD address from IO registers 0x0C and 0x06.
    pub fn update_address(&mut self, io: &[u8])
        ensures
            final(self).fb() == old(self).fb(),
            final(self).brightness() == old(self).brightness(),
            final(self).dirty_spec() == old(self).dirty_spec(),
            final(self).lcd_addr == if io@.len() > 0x0C { lcd_address(io@[0x0C], io@[0x06]) } else { old(self).lcd_addr },
    {
        if io.len() > 0x0C {
            self.lcd_addr = (((io[0x0C] & 0x03) as u32) << 12) | ((io[0x06] as u32) << 4);
        }
    }

    /// The LCD after a refresh from `ram` at the configured address: the
    /// frame is copied when the address is set and the whole frame fits,
    /// else nothing changes.
    pub open spec fn refreshed_from_ram(&self, after: Lcd, ram: Seq<u8>) -> bool {
        let copied = self.lcd_addr != 0 && self.lcd_addr as int + 1600 <= ram.len();
        &&& copied ==> after.fb() == ram.subrange(self.lcd_addr as int, self.lcd_addr as int + 1600)
            && after.brightness() == Seq::new(12800, |i: int| next_brightness(self.brightness()[i], pixel_on(after.fb(), i), false))
            && after.dirty_spec()
        &&& !copied ==> after == *self
        &&& after.lcd_addr == self.lcd_addr
    }

    /// Copy the framebuffer from RAM at the configured address; nothing
    /// happens while the address is 0.
    pub fn copy_from_ram(&mut self, ram: &[u8]) -> (r: bool)
        requires
            old(self).wf(),
        ensures
            final(self).wf(),
            r == (old(self).lcd_addr != 0 && old(self).lcd_addr as int + 1600 <= ram@.len()),
            old(self).refreshed_from_ram(*final(self), ram@),
    {
        if self.lcd_addr == 0 {
            return false;
        }
        let addr = self.lcd_addr as usize;
        self.copy_from(ram, addr)
    }

    /// Copy the framebuffer from `ram` at `addr`, if the whole buffer fits.
    pub fn copy_from(&mut self, ram: &[u8], addr: usize) -> (r: bool)
        requires
            old(self).wf(),
        ensures
            final(self).wf(),
            r == (addr + 1600 <= ram@.len()),
            r ==> final(self).fb() == ram@.subrange(addr as int, addr + 1600)
                && final(self).brightness() == Seq::new(12800, |i: int| next_brightness(old(self).brightness()[i], pixel_on(final(self).fb(), i), false))
                && final(self).dirty_spec(),
            !r ==> *final(self) == *old(self),
            final(self).lcd_addr == old(self).lcd_addr,
    {
        self.copy_frame(ram, addr, false)
    }

    /// Copy the framebuffer while modelling the persistence of a passive LCD.
    pub fn copy_from_with_persistence(&mut self, ram: &[u8], addr: usize) -> (r: bool)
        requires
            old(self).wf(),
        ensures
            final(self).wf(),
            r == (addr + 1600 <= ram@.len()),
            r ==> final(self).fb() == ram@.subrange(addr as int, addr + 1600)
                && final(self).brightness() == Seq::new(12800, |i: int| next_brightness(old(self).brightness()[i], pixel_on(final(self).fb(), i), true))
                && final(self).dirty_spec(),
            !r ==> *final(self) == *old(self),
            final(self).lcd_addr == old(self).lcd_addr,
    {
        self.copy_frame(ram, addr, true)
    }

    fn copy_frame(&mut self, ram: &[u8], addr: usize, persistence: bool) -> (r: bool)
        requires
            old(self).wf(),
        ensures
            final(self).wf(),
            r == (addr + 1600 <= ram@.len()),
            r ==> final(self).fb() == ram@.subrange(addr as int, addr + 1600)
                && final(self).brightness() == Seq::new(12800, |i: int| next_brightness(old(self).brightness()[i], pixel_on(final(self).fb(), i), persistence))
                && final(self).dirty_spec(),
            !r ==> *final(self) == *old(self),
            final(self).lcd_addr == old(self).lcd_addr,
    {
        if ram.len() < LCD_BUFFER_SIZE || addr > ram.len() - LCD_BUFFER_SIZE {
            return false;
        }
        let mut k: usize = 0;
        while k < LCD_BUFFER_SIZE
            invariant
                addr + 1600 <= ram@.len(),
                ram@.len() == ram.len(),
                k <= 1600,
                self.framebuffer@.len() == 1600,
                self.pixel_brightness@ == old(self).pixel_brightness@,
                self.lcd_addr == old(self).lcd_addr,
                forall|j: int| 0 <= j < k ==> self.framebuffer@[j] == ram@[addr + j],
            decreases 1600 - k,
        {
            self.framebuffer[k] = ram[addr + k];
            k += 1;
        }
        assert(self.framebuffer@ =~= ram@.subrange(addr as int, addr + 1600));
        self.update_pixel_brightness(persistence);
        self.dirty = true;
        true
    }

    fn update_pixel_brightness(&mut self, persistence: bool)
        requires
            old(self).framebuffer@.len() == 1600,
        ensures
            final(self).framebuffer == old(self).framebuffer,
            final(self).lcd_addr == old(self).lcd_addr,
            final(self).dirty == old(self).dirty,
            old(self).pixel_brightness@.len() == 12800 ==> final(self).pixel_brightness@ == Seq::new(
                12800,
                |i: int| next_brightness(old(self).pixel_brightness@[i], pixel_on(old(self).framebuffer@, i), persistence),
            ),
            final(self).pixel_brightness@.len() == 12800,
    {
        if self.pixel_brightness.len() != LCD_PIXELS {
            self.pixel_brightness = vec![0xFF; LCD_PIXELS];
        }
        let ghost b0 = self.pixel_brightness@;
        let mut index: usize = 0;
        while index < LCD_PIXELS
            invariant
                index <= 12800,
                self.framebuffer == old(self).framebuffer,
                self.framebuffer@.len() == 1600,
                self.lcd_addr == old(self).lcd_addr,
                self.dirty == old(self).dirty,
                self.pixel_brightness@.len() == 12800,
                b0.len() == 12800,
                old(self).pixel_brightness@.len() == 12800 ==> b0 == old(self).pixel_brightness@,
                forall|j: int| 0 <= j < index ==> self.pixel_brightness@[j] == next_brightness(b0[j], pixel_on(self.framebuffer@, j), persistence),
                forall|j: int| index <= j < 12800 ==> self.pixel_brightness@[j] == b0[j],
            decreases 12800 - index,
        {
            let byte = self.framebuffer[index / 8];
            let shift = (7 - index % 8) as u8;
            let pixel_on_now = byte & (1u8 << shift) != 0;
            let b = self.pixel_brightness[index];
            let nb: u8 = if !persistence {
                if pixel_on_now { 0 } else { 0xFF }
            } else if pixel_on_now {
                let delta: u8 = if b / 6 > 1 { b / 6 } else { 1 };
                b.saturating_sub(delta)
            } else {
                let delta: u8 = if (0xFF - b) / 8 > 1 { (0xFF - b) / 8 } else { 1 };
                b.saturating_add(delta)
            };
            self.pixel_brightness[index] = nb;
            index += 1;
        }
        assert(old(self).pixel_brightness@.len() == 12800 ==> self.pixel_brightness@ =~= Seq::new(
            12800,
            |i: int| next_brightness(old(self).pixel_brightness@[i], pixel_on(old(self).framebuffer@, i), persistence),
        ));
    }

    /// The raw framebuffer (160x80, 1 bit per pixel).
    pub fn framebuffer_raw(&self) -> (r: &[u8])
        ensures
            r@ == self.fb(),
    {
        self.framebuffer.as_slice()
    }

    /// The framebuffer as XRGB8888 pixels (12800 values).
    pub fn framebuffer_xrgb8888(&self) -> (r: Vec<u32>)
        ensures
            r@ == Seq::new(self.brightness().len(), |i: int| xrgb(self.brightness()[i])),
    {
        let n = self.pixel_brightness.len();
        let mut pixels: Vec<u32> = Vec::with_capacity(n);
        let mut i: usize = 0;
        while i < n
            invariant
                n == self.pixel_brightness@.len(),
                i <= n,
                pixels@ == Seq::new(i as nat, |k: int| xrgb(self.pixel_brightness@[k])),
            decreases n - i,
        {
            let value = self.pixel_brightness[i] as u32;
            pixels.push(0xFF00_0000u32 | (value << 16) | (value << 8) | value);
            proof {
                assert(pixels@ =~= Seq::new((i + 1) as nat, |k: int| xrgb(self.pixel_brightness@[k])));
            }
            i += 1;
        }
        pixels
    }

    /// The framebuffer as RGBA8888 bytes (4 per pixel).
    pub fn framebuffer_rgba8888(&self) -> (r: Vec<u8>)
        ensures
            r@ == Seq::new(
                self.brightness().len() * 4,
                |k: int| if k % 4 == 3 { 0xFFu8 } else { self.brightness()[k / 4] },
            ),
    {
        let n = self.pixel_brightness.len();
        let mut pixels: Vec<u8> = Vec::new();
        let mut i: usize = 0;
        while i < n
            invariant
                n == self.pixel_brightness@.len(),
                n == 12800 || n == self.brightness().len(),
                i <= n,
                pixels@ == Seq::new(
                    (i * 4) as nat,
                    |k: int| if k % 4 == 3 { 0xFFu8 } else { self.pixel_brightness@[k / 4] },
                ),
            decreases n - i,
        {
            let b = self.pixel_brightness[i];
            pixels.push(b);
            pixels.push(b);
            pixels.push(b);
            pixels.push(0xFF);
            proof {
                let s = Seq::new(
                    ((i + 1) * 4) as nat,
                    |k: int| if k % 4 == 3 { 0xFFu8 } else { self.pixel_brightness@[k / 4] },
                );
                assert forall|k: int| 0 <= k < (i + 1) * 4 implies #[trigger] s[k] == pixels@[k] by {
                    if k >= i * 4 {
                        assert(k / 4 == i && k % 4 == k - i * 4) by (nonlinear_arith)
                            requires
                                i * 4 <= k < (i + 1) * 4,
                        ;
                    }
                }
                assert(pixels@ =~= s);
            }
            i += 1;
        }
        pixels
    }

    /// Whether the LCD was updated since the flag was cleared.
    pub fn is_dirty(&self) -> (r: bool)
        ensures
            r == self.dirty_spec(),
    {
        self.dirty
    }

    /// Clear the dirty flag.
    pub fn clear_dirty(&mut self)
        ensures
            !final(self).dirty_spec(),
            final(self).fb() == old(self).fb(),
            final(self).brightness() == old(self).brightness(),
            final(self).lcd_addr == old(self).lcd_addr,
    {
        self.dirty = false;
    }
}

impl Default for Lcd {
    fn default() -> (r: Self)
        ensures
            r.wf(),
            r.fb() == Seq::new(1600, |i: int| 0u8),
            r.brightness() == Seq::new(12800, |i: int| 0xFFu8),
            r.lcd_addr == 0,
            !r.dirty_spec(),
    {
        Self::new()
    }
}



/// The LCD base address counts register 0x06 in 16-byte units and the low
/// two bits of register 0x0C in 4KB units.
pub proof fn law_lcd_address(io0c: u8, io06: u8)
    ensures
        lcd_address(io0c, io06) == (io0c % 4) * 0x1000 + io06 * 16,
{
    lemma_lcd_bits(io0c, io06, 0, 0);
}

/// A refresh from RAM with the address the registers select shows the
/// 1600 RAM bytes starting at (io[0x0C] % 4) * 0x1000 + io[0x06] * 16.
pub proof fn law_frame_comes_from_register_address(before: Lcd, after: Lcd, io0c: u8, io06: u8, ram: Seq<u8>)
    requires
        before.lcd_addr == lcd_address(io0c, io06),
        before.refreshed_from_ram(after, ram),
        before.lcd_addr != 0,
        (io0c % 4) * 0x1000 + io06 * 16 + 1600 <= ram.len(),
    ensures
        after.fb() == ram.subrange((io0c % 4) * 0x1000 + io06 * 16, (io0c % 4) * 0x1000 + io06 * 16 + 1600),
{
    law_lcd_address(io0c, io06);
}



/// Pixels are packed eight to a byte, leftmost pixel in the high bit: pixel
/// `8 * k` is bit 7 of byte `k` and pixel `8 * k + 7` is bit 0.
pub proof fn law_pixel_packing(fb: Seq<u8>, k: int)
    requires
        0 <= k < fb.len(),
    ensures
        pixel_on(fb, 8 * k) == (fb[k] >= 0x80),
        pixel_on(fb, 8 * k + 7) == (fb[k] % 2 == 1),
{
    lemma_lcd_bits(0, 0, fb[k], 0);
    assert((8 * k) / 8 == k && (8 * k) % 8 == 0);
    assert((8 * k + 7) / 8 == k && (8 * k + 7) % 8 == 7);
}


/// A gray level is shown opaque with equal red, green and blue.
pub proof fn law_gray_pixel(b: u8)
    ensures
        xrgb(b) == 0xFF00_0000 + b * 0x1_0101,
{
    lemma_lcd_bits(0, 0, 0, b);
}

/// Brightness moves toward the pixel's state: without persistence a set
/// pixel is black and a clear one white; with persistence a set pixel
/// darkens by at least one step (until black) and a clear one lightens by
/// at least one step (until white), each by at most a sixth (or an eighth)
/// of the remaining range, rounded up to one.
pub proof fn law_brightness_follows_pixel(b: u8, on: bool, persistence: bool)
    ensures
        !persistence ==> next_brightness(b, on, persistence) == if on { 0u8 } else { 255u8 },
        persistence && on ==> next_brightness(b, on, persistence) <= b
            && (b > 0 ==> next_brightness(b, on, persistence) < b)
            && b - next_brightness(b, on, persistence) <= if b / 6 > 1 { b / 6 } else { 1u8 },
        persistence && !on ==> next_brightness(b, on, persistence) >= b
            && (b < 255 ==> next_brightness(b, on, persistence) > b)
            && next_brightness(b, on, persistence) - b <= if (255 - b) / 8 > 1 { (255 - b) / 8 } else { 1 },
{
}


proof fn lemma_lcd_bits(io0c: u8, io06: u8, x: u8, b: u8)
    by (bit_vector)
    ensures
        (((io0c & 0x03) as u32) << 12u32) | ((io06 as u32) << 4u32) == ((io0c % 4) as u32) * 0x1000 + (io06 as u32) * 16,
        (x & (1u8 << 7u8) != 0) == (x >= 0x80),
        (x & (1u8 << 0u8) != 0) == (x % 2 == 1),
        0xFF00_0000u32 | ((b as u32) << 16u32) | ((b as u32) << 8u32) | (b as u32) == 0xFF00_0000u32 + (b as u32)
            * 0x1_0101u32,
{
}

} // verus!
