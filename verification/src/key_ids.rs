//! Key ids of commonly used NC1020 keys (`row = id % 8`, `col = id / 8`).

use vstd::prelude::*;

verus! {

/// Power button (special: sets all bits in row 7)
pub const POWER: u8 = 0x0F;
/// F1 key
pub const F1: u8 = 0x10;
/// F2 key
pub const F2: u8 = 0x11;
/// F3 key
pub const F3: u8 = 0x12;
/// F4 key
pub const F4: u8 = 0x13;
/// Up arrow
pub const UP: u8 = 0x1A;
/// Down arrow
pub const DOWN: u8 = 0x1B;
/// Left arrow
pub const LEFT: u8 = 0x3F;
/// Right arrow
pub const RIGHT: u8 = 0x1F;
/// Enter
pub const ENTER: u8 = 0x1D;
/// ESC
pub const ESC: u8 = 0x3B;
/// Space
pub const SPACE: u8 = 0x35;
/// Backspace
pub const BACKSPACE: u8 = 0x36;
/// Page Up
pub const PAGE_UP: u8 = 0x37;
/// Page Down
pub const PAGE_DOWN: u8 = 0x1E;
/// F10 (main screen)
pub const F10: u8 = 0x08;
/// F11 (game menu)
pub const F11: u8 = 0x0E;

} // verus!
