//! Device skin and virtual keypad: the picture of the device drawn around
//! the live LCD, the keys pressed on it shaded, and mouse positions on it
//! turned into key presses.
//!
//! Skin geometry is given in the coordinates of the 1086x1448 source
//! picture; a skin is that picture scaled to a height of 150 pixels per
//! display-scale step.

use vstd::prelude::*;
use crate::key_ids;
use crate::lcd::{LCD_HEIGHT, LCD_PIXELS, LCD_WIDTH};
use crate::machine::MachineModel;

verus! {

/// Width of the source skin picture.
pub const SOURCE_WIDTH: usize = 1086;
/// Height of the source skin picture.
pub const SOURCE_HEIGHT: usize = 1448;
/// Skin height per display-scale step.
pub const HEIGHT_PER_SCALE: usize = 150;
/// Level of the light window background the transparent picture parts show.
pub const WINDOW_BACKGROUND: u32 = 0xF0;

/// A rectangle of the source picture.
#[derive(Clone, Copy, Debug, PartialEq, Eq, Structural)]
pub struct Rect {
    pub x: usize,
    pub y: usize,
    pub width: usize,
    pub height: usize,
}

/// The `w` x `h` rectangle centred on (`x`, `y`), clipped at the top-left
/// corner of the picture.
pub open spec fn centered_spec(x: int, y: int, w: int, h: int) -> Rect {
    Rect {
        x: (if x >= w / 2 { x - w / 2 } else { 0 }) as usize,
        y: (if y >= h / 2 { y - h / 2 } else { 0 }) as usize,
        width: w as usize,
        height: h as usize,
    }
}

impl Rect {
    /// The `width` x `height` rectangle centred on (`x`, `y`).
    pub fn centered(x: usize, y: usize, width: usize, height: usize) -> (r: Rect)
        ensures
            r == centered_spec(x as int, y as int, width as int, height as int),
    {
        Rect { x: x.saturating_sub(width / 2), y: y.saturating_sub(height / 2), width, height }
    }

    /// Whether (`x`, `y`) lies in the rectangle.
    pub open spec fn holds(self, x: int, y: int) -> bool {
        self.x <= x < self.x + self.width && self.y <= y < self.y + self.height
    }

    /// Whether (`x`, `y`) lies in the rectangle.
    pub fn contains(self, x: usize, y: usize) -> (r: bool)
        ensures
            r == self.holds(x as int, y as int),
    {
        x >= self.x && x - self.x < self.width && y >= self.y && y - self.y < self.height
    }
}

/// Where the LCD sits on a model's skin and its two shades.
#[derive(Clone, Copy, Debug, PartialEq, Eq, Structural)]
pub struct SkinSpec {
    pub screen: Rect,
    pub lcd_background: u32,
    pub lcd_foreground: u32,
}

/// The LCD placement and shades of each model's skin.
pub open spec fn skin_spec(model: MachineModel) -> SkinSpec {
    match model {
        MachineModel::Pc1000 => SkinSpec {
            screen: Rect { x: 128, y: 105, width: 648, height: 317 },
            lcd_background: 0x0099_AD9C,
            lcd_foreground: 0x0015_2118,
        },
        MachineModel::Cc800 => SkinSpec {
            screen: Rect { x: 105, y: 96, width: 575, height: 299 },
            lcd_background: 0x0071_9A61,
            lcd_foreground: 0x0008_241A,
        },
        MachineModel::Nc1020 => SkinSpec {
            screen: Rect { x: 95, y: 113, width: 695, height: 340 },
            lcd_background: 0x0090_A872,
            lcd_foreground: 0x0010_220B,
        },
        MachineModel::Nc2000 => SkinSpec {
            screen: Rect { x: 107, y: 90, width: 861, height: 376 },
            lcd_background: 0x00A7_BA76,
            lcd_foreground: 0x0009_1604,
        },
        MachineModel::Nc3000 => SkinSpec {
            screen: Rect { x: 136, y: 122, width: 708, height: 348 },
            lcd_background: 0x008D_AE78,
            lcd_foreground: 0x0013_2715,
        },
    }
}

/// The LCD placement and shades of `model`'s skin.
pub fn spec_for(model: MachineModel) -> (r: SkinSpec)
    ensures
        r == skin_spec(model),
{
    match model {
        MachineModel::Pc1000 => SkinSpec {
            screen: Rect { x: 128, y: 105, width: 648, height: 317 },
            lcd_background: 0x0099_AD9C,
            lcd_foreground: 0x0015_2118,
        },
        MachineModel::Cc800 => SkinSpec {
            screen: Rect { x: 105, y: 96, width: 575, height: 299 },
            lcd_background: 0x0071_9A61,
            lcd_foreground: 0x0008_241A,
        },
        MachineModel::Nc1020 => SkinSpec {
            screen: Rect { x: 95, y: 113, width: 695, height: 340 },
            lcd_background: 0x0090_A872,
            lcd_foreground: 0x0010_220B,
        },
        MachineModel::Nc2000 => SkinSpec {
            screen: Rect { x: 107, y: 90, width: 861, height: 376 },
            lcd_background: 0x00A7_BA76,
            lcd_foreground: 0x0009_1604,
        },
        MachineModel::Nc3000 => SkinSpec {
            screen: Rect { x: 136, y: 122, width: 708, height: 348 },
            lcd_background: 0x008D_AE78,
            lcd_foreground: 0x0013_2715,
        },
    }
}

/// An input action of a clickable part of the skin.
#[derive(Clone, Copy, Debug, PartialEq, Eq, Structural)]
pub enum SkinInput {
    Key(u8),
    Reset,
}

/// A key of a model's keypad layout: its matrix position (`row`, `col`)
/// and where it is drawn (`drow`, `dcol`; display rows 2-5 are the
/// keyboard block, rows 0-1 the function and navigation keys).
#[derive(Clone, Copy, Debug, PartialEq, Eq, Structural)]
pub struct KeyDef {
    pub row: u8,
    pub col: u8,
    pub drow: u8,
    pub dcol: u8,
}

/// The key id of matrix position (`row`, `col`): the NC1020 numbers its
/// keys column-major (`col * 8 + row`), the other models row-major
/// (`row * 8 + col`).
pub open spec fn key_id_spec(model: MachineModel, row: u8, col: u8) -> u8 {
    if model == MachineModel::Nc1020 {
        (col * 8 + row) as u8
    } else {
        (row * 8 + col) as u8
    }
}

/// The key id of matrix position (`row`, `col`) on `model`.
pub fn key_id_for(model: MachineModel, row: u8, col: u8) -> (r: u8)
    requires
        row < 8,
        col < 8,
    ensures
        r == key_id_spec(model, row, col),
        r < 64,
{
    if model == MachineModel::Nc1020 {
        col * 8 + row
    } else {
        row * 8 + col
    }
}

/// Skin x coordinate of keyboard column `col` (0-9) on `model`.
pub open spec fn kb_col_spec(model: MachineModel, col: u8) -> int {
    match model {
        MachineModel::Pc1000 => if col == 0 { 108 } else if col == 1 { 205 } else if col == 2 { 302 } else if col == 3 { 399 } else if col == 4 { 496 } else if col == 5 { 593 } else if col == 6 { 690 } else if col == 7 { 787 } else if col == 8 { 883 } else { 980 },
        MachineModel::Cc800 => if col == 0 { 116 } else if col == 1 { 216 } else if col == 2 { 315 } else if col == 3 { 413 } else if col == 4 { 510 } else if col == 5 { 608 } else if col == 6 { 705 } else if col == 7 { 801 } else if col == 8 { 894 } else { 980 },
        MachineModel::Nc1020 => if col == 0 { 105 } else if col == 1 { 202 } else if col == 2 { 300 } else if col == 3 { 397 } else if col == 4 { 494 } else if col == 5 { 591 } else if col == 6 { 688 } else if col == 7 { 786 } else if col == 8 { 883 } else { 980 },
        MachineModel::Nc2000 => if col == 0 { 108 } else if col == 1 { 207 } else if col == 2 { 304 } else if col == 3 { 401 } else if col == 4 { 499 } else if col == 5 { 596 } else if col == 6 { 693 } else if col == 7 { 789 } else if col == 8 { 886 } else { 981 },
        MachineModel::Nc3000 => if col == 0 { 121 } else if col == 1 { 219 } else if col == 2 { 316 } else if col == 3 { 413 } else if col == 4 { 510 } else if col == 5 { 607 } else if col == 6 { 704 } else if col == 7 { 800 } else if col == 8 { 895 } else { 980 },
    }
}

/// Skin y coordinate of keyboard row `row` (2-5) on `model`.
pub open spec fn kb_row_spec(model: MachineModel, row: u8) -> int {
    match model {
        MachineModel::Pc1000 => if row == 2 { 1032 } else if row == 3 { 1115 } else if row == 4 { 1197 } else { 1280 },
        MachineModel::Cc800 => if row == 2 { 999 } else if row == 3 { 1082 } else if row == 4 { 1166 } else { 1252 },
        MachineModel::Nc1020 => if row == 2 { 1033 } else if row == 3 { 1116 } else if row == 4 { 1199 } else { 1290 },
        MachineModel::Nc2000 => if row == 2 { 1029 } else if row == 3 { 1112 } else if row == 4 { 1195 } else { 1277 },
        MachineModel::Nc3000 => if row == 2 { 1040 } else if row == 3 { 1121 } else if row == 4 { 1204 } else { 1286 },
    }
}

fn kb_col(model: MachineModel, col: u8) -> (r: usize)
    requires
        col <= 9,
    ensures
        r == kb_col_spec(model, col),
{
    match model {
        MachineModel::Pc1000 => if col == 0 { 108 } else if col == 1 { 205 } else if col == 2 { 302 } else if col == 3 { 399 } else if col == 4 { 496 } else if col == 5 { 593 } else if col == 6 { 690 } else if col == 7 { 787 } else if col == 8 { 883 } else { 980 },
        MachineModel::Cc800 => if col == 0 { 116 } else if col == 1 { 216 } else if col == 2 { 315 } else if col == 3 { 413 } else if col == 4 { 510 } else if col == 5 { 608 } else if col == 6 { 705 } else if col == 7 { 801 } else if col == 8 { 894 } else { 980 },
        MachineModel::Nc1020 => if col == 0 { 105 } else if col == 1 { 202 } else if col == 2 { 300 } else if col == 3 { 397 } else if col == 4 { 494 } else if col == 5 { 591 } else if col == 6 { 688 } else if col == 7 { 786 } else if col == 8 { 883 } else { 980 },
        MachineModel::Nc2000 => if col == 0 { 108 } else if col == 1 { 207 } else if col == 2 { 304 } else if col == 3 { 401 } else if col == 4 { 499 } else if col == 5 { 596 } else if col == 6 { 693 } else if col == 7 { 789 } else if col == 8 { 886 } else { 981 },
        MachineModel::Nc3000 => if col == 0 { 121 } else if col == 1 { 219 } else if col == 2 { 316 } else if col == 3 { 413 } else if col == 4 { 510 } else if col == 5 { 607 } else if col == 6 { 704 } else if col == 7 { 800 } else if col == 8 { 895 } else { 980 },
    }
}

fn kb_row(model: MachineModel, row: u8) -> (r: usize)
    requires
        2 <= row <= 5,
    ensures
        r == kb_row_spec(model, row),
{
    match model {
        MachineModel::Pc1000 => if row == 2 { 1032 } else if row == 3 { 1115 } else if row == 4 { 1197 } else { 1280 },
        MachineModel::Cc800 => if row == 2 { 999 } else if row == 3 { 1082 } else if row == 4 { 1166 } else { 1252 },
        MachineModel::Nc1020 => if row == 2 { 1033 } else if row == 3 { 1116 } else if row == 4 { 1199 } else { 1290 },
        MachineModel::Nc2000 => if row == 2 { 1029 } else if row == 3 { 1112 } else if row == 4 { 1195 } else { 1277 },
        MachineModel::Nc3000 => if row == 2 { 1040 } else if row == 3 { 1121 } else if row == 4 { 1204 } else { 1286 },
    }
}

/// Skin region of the non-keyboard key at display position (`drow`, `dcol`).
pub open spec fn special_region_spec(model: MachineModel, drow: u8, dcol: u8) -> Option<Rect> {
    match model {
        MachineModel::Pc1000 => if drow == 0 && 0 <= dcol <= 5 { Some(centered_spec(402 + dcol * 96, 838, 82, 52)) } else if drow == 0 && dcol == 6 { Some(centered_spec(575, 933, 82, 50)) } else if drow == 1 && 2 <= dcol <= 5 { Some(centered_spec(675 + (dcol - 2) * 97, 933, 82, 50)) } else if drow == 1 && dcol == 8 { Some(centered_spec(430, 739, 70, 58)) } else { None },
        MachineModel::Cc800 => if drow == 0 && 0 <= dcol <= 5 { Some(centered_spec(202 + dcol * 136, 809, 104, 58)) } else if drow == 0 && dcol == 6 { Some(centered_spec(312, 934, 64, 64)) } else if drow == 1 && 2 <= dcol <= 5 { Some(centered_spec(440 + (dcol - 2) * 103, 934, 62, 62)) } else if drow == 1 && dcol == 8 { Some(centered_spec(885, 902, 68, 68)) } else { None },
        MachineModel::Nc1020 => if drow == 0 && 0 <= dcol <= 6 { Some(centered_spec(392 + dcol * 98, 953, 82, 52)) } else if drow == 1 && dcol == 2 { Some(centered_spec(973, 135, 68, 42)) } else if drow == 1 && dcol == 3 { Some(centered_spec(973, 216, 68, 42)) } else if drow == 1 && dcol == 4 { Some(centered_spec(973, 300, 68, 42)) } else if drow == 1 && dcol == 5 { Some(centered_spec(973, 383, 68, 42)) } else if drow == 1 && dcol == 8 { Some(centered_spec(966, 560, 80, 80)) } else { None },
        MachineModel::Nc2000 => if drow == 0 && 0 <= dcol <= 6 { Some(centered_spec(404 + dcol * 96, 954, 78, 50)) } else if drow == 1 && 2 <= dcol <= 5 { Some(centered_spec(570 + (dcol - 2) * 97, 591, 70, 54)) } else if drow == 1 && dcol == 8 { Some(centered_spec(179, 591, 72, 60)) } else { None },
        MachineModel::Nc3000 => if drow == 0 && 0 <= dcol <= 2 { Some(centered_spec(518 + dcol * 111, 897, 80, 54)) } else if drow == 0 && 3 <= dcol <= 5 { Some(centered_spec(518 + (dcol - 3) * 111, 968, 80, 54)) } else if drow == 1 && 2 <= dcol <= 5 { Some(centered_spec(518 + (dcol - 2) * 84, 828, 58, 58)) } else if drow == 1 && dcol == 8 { Some(centered_spec(140, 828, 68, 68)) } else { None },
    }
}

fn special_region(model: MachineModel, drow: u8, dcol: u8) -> (r: Option<Rect>)
    ensures
        r == special_region_spec(model, drow, dcol),
{
    match model {
        MachineModel::Pc1000 => if drow == 0 && dcol <= 5 {
            Some(Rect::centered(402 + dcol as usize * 96, 838, 82, 52))
        } else if drow == 0 && dcol == 6 {
            Some(Rect::centered(575, 933, 82, 50))
        } else if drow == 1 && 2 <= dcol && dcol <= 5 {
            Some(Rect::centered(675 + (dcol as usize - 2) * 97, 933, 82, 50))
        } else if drow == 1 && dcol == 8 {
            Some(Rect::centered(430, 739, 70, 58))
        } else {
            None
        },
        MachineModel::Cc800 => if drow == 0 && dcol <= 5 {
            Some(Rect::centered(202 + dcol as usize * 136, 809, 104, 58))
        } else if drow == 0 && dcol == 6 {
            Some(Rect::centered(312, 934, 64, 64))
        } else if drow == 1 && 2 <= dcol && dcol <= 5 {
            Some(Rect::centered(440 + (dcol as usize - 2) * 103, 934, 62, 62))
        } else if drow == 1 && dcol == 8 {
            Some(Rect::centered(885, 902, 68, 68))
        } else {
            None
        },
        MachineModel::Nc1020 => if drow == 0 && dcol <= 6 {
            Some(Rect::centered(392 + dcol as usize * 98, 953, 82, 52))
        } else if drow == 1 && dcol == 2 {
            Some(Rect::centered(973, 135, 68, 42))
        } else if drow == 1 && dcol == 3 {
            Some(Rect::centered(973, 216, 68, 42))
        } else if drow == 1 && dcol == 4 {
            Some(Rect::centered(973, 300, 68, 42))
        } else if drow == 1 && dcol == 5 {
            Some(Rect::centered(973, 383, 68, 42))
        } else if drow == 1 && dcol == 8 {
            Some(Rect::centered(966, 560, 80, 80))
        } else {
            None
        },
        MachineModel::Nc2000 => if drow == 0 && dcol <= 6 {
            Some(Rect::centered(404 + dcol as usize * 96, 954, 78, 50))
        } else if drow == 1 && 2 <= dcol && dcol <= 5 {
            Some(Rect::centered(570 + (dcol as usize - 2) * 97, 591, 70, 54))
        } else if drow == 1 && dcol == 8 {
            Some(Rect::centered(179, 591, 72, 60))
        } else {
            None
        },
        MachineModel::Nc3000 => if drow == 0 && dcol <= 2 {
            Some(Rect::centered(518 + dcol as usize * 111, 897, 80, 54))
        } else if drow == 0 && 3 <= dcol && dcol <= 5 {
            Some(Rect::centered(518 + (dcol as usize - 3) * 111, 968, 80, 54))
        } else if drow == 1 && 2 <= dcol && dcol <= 5 {
            Some(Rect::centered(518 + (dcol as usize - 2) * 84, 828, 58, 58))
        } else if drow == 1 && dcol == 8 {
            Some(Rect::centered(140, 828, 68, 68))
        } else {
            None
        },
    }
}
/// Skin region of keyboard key (`row`, `col`) (rows 2-5, columns 0-9).
pub open spec fn keyboard_region_spec(model: MachineModel, row: u8, col: u8) -> Option<Rect> {
    if 2 <= row <= 5 && col <= 9 {
        Some(centered_spec(kb_col_spec(model, col), kb_row_spec(model, row), 82, 61))
    } else {
        None
    }
}

/// Skin region of keyboard key (`row`, `col`).
pub fn keyboard_region(model: MachineModel, row: u8, col: u8) -> (r: Option<Rect>)
    ensures
        r == keyboard_region_spec(model, row, col),
{
    if row < 2 || row > 5 || col > 9 {
        return None;
    }
    Some(Rect::centered(kb_col(model, col), kb_row(model, row), 82, 61))
}

/// Skin region of a layout key, if it is drawn.
pub open spec fn key_region_spec(model: MachineModel, def: KeyDef) -> Option<Rect> {
    if def.drow >= 2 {
        keyboard_region_spec(model, def.drow, def.dcol)
    } else {
        special_region_spec(model, def.drow, def.dcol)
    }
}

/// Skin region of a layout key, if it is drawn.
pub fn key_region(model: MachineModel, def: &KeyDef) -> (r: Option<Rect>)
    ensures
        r == key_region_spec(model, *def),
{
    if def.drow >= 2 {
        keyboard_region(model, def.drow, def.dcol)
    } else {
        special_region(model, def.drow, def.dcol)
    }
}


/// `v` of `source` units as a share of `size`, at most `size`.
pub open spec fn scaled(v: int, size: int, source: int) -> int {
    let q = v * size / source;
    if q < size { q } else { size }
}

fn scale(v: usize, size: usize, source: usize) -> (r: usize)
    requires
        source > 0,
    ensures
        r == scaled(v as int, size as int, source as int),
{
    proof {
        assert((v as int) * (size as int) <= (usize::MAX as int) * (usize::MAX as int)) by (nonlinear_arith)
            requires v <= usize::MAX, size <= usize::MAX;
        assert((usize::MAX as int) * (usize::MAX as int) <= u128::MAX) by (nonlinear_arith)
            requires usize::MAX <= u64::MAX;
    }
    let p = (v as u128) * (size as u128);
    let q = p / (source as u128);
    if q < size as u128 {
        q as usize
    } else {
        size
    }
}

/// A model's skin at a display size: `pixels` holds `width` x `height`
/// XRGB pixels row by row.
pub struct DeviceSkin {
    pub model: MachineModel,
    pub width: usize,
    pub height: usize,
    pub pixels: Vec<u32>,
    pub spec: SkinSpec,
}

/// Why a skin could not be built.
#[derive(Clone, Copy, Debug, PartialEq, Eq, Structural)]
pub enum SkinError {
    /// The picture could not be decoded.
    Decode,
    /// The picture is not 1086 x 1448.
    WrongSize { width: u32, height: u32 },
    /// The display scale is zero.
    ZeroScale,
    /// The scaled skin does not fit in memory.
    TooLarge,
}

impl DeviceSkin {
    /// Sizes agree with the pixel buffer and the LCD placement is the model's.
    pub open spec fn wf(&self) -> bool {
        &&& self.width > 0 && self.height > 0
        &&& self.pixels@.len() == self.width * self.height
        &&& self.spec == skin_spec(self.model)
    }

    /// Skin width in pixels.
    pub fn width(&self) -> (r: usize)
        ensures
            r == self.width,
    {
        self.width
    }

    /// Skin height in pixels.
    pub fn height(&self) -> (r: usize)
        ensures
            r == self.height,
    {
        self.height
    }
}

/// Whether a layout key is drawn at source position (`sx`, `sy`).
pub open spec fn region_hits(model: MachineModel, def: KeyDef, sx: int, sy: int) -> bool {
    key_region_spec(model, def) matches Some(r) && r.holds(sx, sy)
}

/// Index of the first layout key from `i` on drawn at (`sx`, `sy`).
pub open spec fn first_hit(model: MachineModel, layout: Seq<KeyDef>, sx: int, sy: int, i: int) -> Option<int>
    decreases layout.len() - i,
{
    if i < 0 || i >= layout.len() {
        None
    } else if region_hits(model, layout[i], sx, sy) {
        Some(i)
    } else {
        first_hit(model, layout, sx, sy, i + 1)
    }
}

/// Index of the first layout key from `i` on at matrix position (0, 0).
pub open spec fn first_origin(layout: Seq<KeyDef>, i: int) -> Option<int>
    decreases layout.len() - i,
{
    if i < 0 || i >= layout.len() {
        None
    } else if layout[i].row == 0 && layout[i].col == 0 {
        Some(i)
    } else {
        first_origin(layout, i + 1)
    }
}

/// Matrix positions of a layout are on the 8 x 8 matrix.
pub open spec fn layout_ok(layout: Seq<KeyDef>) -> bool {
    forall|i: int| 0 <= i < layout.len() ==> #[trigger] layout[i].row < 8 && layout[i].col < 8
}

/// What a mouse position (`x`, `y`) on the skin presses: outside the skin
/// nothing; otherwise, at the source position it scales to, the NC1020's
/// reset button, F10 or F11, then the first layout key drawn there, then
/// the NC3000's ON/NETWORK button (the key at matrix position (0, 0)).
pub open spec fn hit_spec(skin: DeviceSkin, x: int, y: int, layout: Seq<KeyDef>) -> Option<SkinInput> {
    if x >= skin.width || y >= skin.height {
        None
    } else {
        let sx = x * SOURCE_WIDTH / (skin.width as int);
        let sy = y * SOURCE_HEIGHT / (skin.height as int);
        let m = skin.model;
        if m == MachineModel::Nc1020 && centered_spec(295, 970, 48, 48).holds(sx, sy) {
            Some(SkinInput::Reset)
        } else if m == MachineModel::Nc1020 && centered_spec(105, 950, 82, 52).holds(sx, sy) {
            Some(SkinInput::Key(key_ids::F10))
        } else if m == MachineModel::Nc1020 && centered_spec(203, 950, 82, 52).holds(sx, sy) {
            Some(SkinInput::Key(key_ids::F11))
        } else {
            match first_hit(m, layout, sx, sy, 0) {
                Some(i) => Some(SkinInput::Key(key_id_spec(m, layout[i].row, layout[i].col))),
                None => if m == MachineModel::Nc3000 && centered_spec(132, 964, 62, 58).holds(sx, sy) {
                    match first_origin(layout, 0) {
                        Some(i) => Some(SkinInput::Key(key_id_spec(m, layout[i].row, layout[i].col))),
                        None => None,
                    }
                } else {
                    None
                },
            }
        }
    }
}

fn find_hit(model: MachineModel, layout: &[KeyDef], sx: usize, sy: usize) -> (r: Option<usize>)
    ensures
        r matches Some(k) ==> first_hit(model, layout@, sx as int, sy as int, 0) == Some(k as int),
        r is None ==> first_hit(model, layout@, sx as int, sy as int, 0) is None,
        r matches Some(i) ==> i < layout@.len(),
{
    let mut i: usize = 0;
    while i < layout.len()
        invariant
            i <= layout@.len(),
            first_hit(model, layout@, sx as int, sy as int, 0) == first_hit(model, layout@, sx as int, sy as int, i as int),
        decreases layout@.len() - i,
    {
        match key_region(model, &layout[i]) {
            Some(r) => {
                if r.contains(sx, sy) {
                    return Some(i);
                }
            },
            None => {},
        }
        i += 1;
    }
    None
}

fn find_origin(layout: &[KeyDef]) -> (r: Option<usize>)
    ensures
        r matches Some(k) ==> first_origin(layout@, 0) == Some(k as int) && k < layout@.len(),
        r is None ==> first_origin(layout@, 0) is None,
        r matches Some(i) ==> i < layout@.len(),
{
    let mut i: usize = 0;
    while i < layout.len()
        invariant
            i <= layout@.len(),
            first_origin(layout@, 0) == first_origin(layout@, i as int),
        decreases layout@.len() - i,
    {
        if layout[i].row == 0 && layout[i].col == 0 {
            return Some(i);
        }
        i += 1;
    }
    None
}

/// The input a mouse position on the skin gives (see [`hit_spec`]).
pub fn skin_hit_test(skin: &DeviceSkin, x: usize, y: usize, layout: &[KeyDef]) -> (r: Option<SkinInput>)
    requires
        skin.wf(),
        layout_ok(layout@),
    ensures
        r == hit_spec(*skin, x as int, y as int, layout@),
{
    if x >= skin.width || y >= skin.height {
        return None;
    }
    proof {
        assert((x as int) * SOURCE_WIDTH / (skin.width as int) < SOURCE_WIDTH) by (nonlinear_arith)
            requires x < skin.width;
        assert((y as int) * SOURCE_HEIGHT / (skin.height as int) < SOURCE_HEIGHT) by (nonlinear_arith)
            requires y < skin.height;
        assert((x as int) * SOURCE_WIDTH < 0x1_0000_0000_0000_0000 * 0x1_0000) by (nonlinear_arith)
            requires x <= u64::MAX;
        assert((y as int) * SOURCE_HEIGHT < 0x1_0000_0000_0000_0000 * 0x1_0000) by (nonlinear_arith)
            requires y <= u64::MAX;
    }
    let xs = (x as u128) * (SOURCE_WIDTH as u128);
    let ys = (y as u128) * (SOURCE_HEIGHT as u128);
    let sx = (xs / (skin.width as u128)) as usize;
    let sy = (ys / (skin.height as u128)) as usize;
    assert(sx as int == (x as int) * SOURCE_WIDTH / (skin.width as int));
    assert(sy as int == (y as int) * SOURCE_HEIGHT / (skin.height as int));
    let m = skin.model;
    if m == MachineModel::Nc1020 {
        if Rect::centered(295, 970, 48, 48).contains(sx, sy) {
            return Some(SkinInput::Reset);
        }
        if Rect::centered(105, 950, 82, 52).contains(sx, sy) {
            return Some(SkinInput::Key(key_ids::F10));
        }
        if Rect::centered(203, 950, 82, 52).contains(sx, sy) {
            return Some(SkinInput::Key(key_ids::F11));
        }
    }
    match find_hit(m, layout, sx, sy) {
        Some(i) => {
            return Some(SkinInput::Key(key_id_for(m, layout[i].row, layout[i].col)));
        },
        None => {},
    }
    if m == MachineModel::Nc3000 && Rect::centered(132, 964, 62, 58).contains(sx, sy) {
        match find_origin(layout) {
            Some(i) => Some(SkinInput::Key(key_id_for(m, layout[i].row, layout[i].col))),
            None => None,
        }
    } else {
        None
    }
}


proof fn lemma_scaled_full(v: int, size: int, source: int)
    requires
        source > 0,
        size >= 0,
        v >= source,
    ensures
        scaled(v, size, source) == size,
{
    assert(v * size / source >= size) by (nonlinear_arith)
        requires source > 0, size >= 0, v >= source;
}

/// Position of pixel (`px`, `py`) in a row-major buffer `w` pixels wide.
pub open spec fn idx(w: int, px: int, py: int) -> int {
    py * w + px
}

proof fn lemma_idx(w: int, h: int, px: int, py: int, qx: int, qy: int)
    requires
        0 <= px < w,
        0 <= py < h,
        0 <= qx < w,
        0 <= qy < h,
    ensures
        0 <= idx(w, px, py) < w * h,
        (px != qx || py != qy) ==> idx(w, px, py) != idx(w, qx, qy),
{
    assert(0 <= py * w + px < w * h) by (nonlinear_arith)
        requires 0 <= px < w, 0 <= py < h;
    if py != qy {
        assert(py * w + px != qy * w + qx) by (nonlinear_arith)
            requires 0 <= px < w, 0 <= qx < w, py != qy;
    }
}

/// A pixel with each channel dimmed to three quarters.
pub open spec fn darken_px(p: u32) -> u32 {
    let r = (((p >> 16u32) & 0xFFu32) * 3 / 4) as u32;
    let g = (((p >> 8u32) & 0xFFu32) * 3 / 4) as u32;
    let b = ((p & 0xFFu32) * 3 / 4) as u32;
    (r << 16u32) | (g << 8u32) | b
}

/// A pixel dimmed `k` times over.
pub open spec fn darken_n(p: u32, k: nat) -> u32
    decreases k,
{
    if k == 0 {
        p
    } else {
        darken_px(darken_n(p, (k - 1) as nat))
    }
}

fn darken_pixel(p: u32) -> (r: u32)
    ensures
        r == darken_px(p),
{
    proof {
        assert((p >> 16u32) & 0xFFu32 <= 0xFF && (p >> 8u32) & 0xFFu32 <= 0xFF && p & 0xFFu32 <= 0xFF) by (bit_vector);
    }
    let r = ((p >> 16) & 0xFF) * 3 / 4;
    let g = ((p >> 8) & 0xFF) * 3 / 4;
    let b = (p & 0xFF) * 3 / 4;
    (r << 16) | (g << 8) | b
}

/// The skin pixels (`x0`..`x1`, `y0`..`y1`) that a source rectangle covers.
pub open spec fn covers(skin: DeviceSkin, r: Rect, px: int, py: int) -> bool {
    &&& scaled(r.x as int, skin.width as int, SOURCE_WIDTH as int) <= px
    &&& px < scaled(r.x + r.width, skin.width as int, SOURCE_WIDTH as int)
    &&& scaled(r.y as int, skin.height as int, SOURCE_HEIGHT as int) <= py
    &&& py < scaled(r.y + r.height, skin.height as int, SOURCE_HEIGHT as int)
}

/// Dim the skin pixels a source rectangle covers.
fn darken_rect(skin: &DeviceSkin, out: &mut Vec<u32>, region: Rect)
    requires
        skin.wf(),
        old(out)@.len() == skin.width * skin.height,
    ensures
        final(out)@.len() == old(out)@.len(),
        forall|px: int, py: int| 0 <= px < skin.width && 0 <= py < skin.height ==>
            #[trigger] final(out)@[idx(skin.width as int, px, py)] == if covers(*skin, region, px, py) {
                darken_px(old(out)@[idx(skin.width as int, px, py)])
            } else {
                old(out)@[idx(skin.width as int, px, py)]
            },
{
    let w = skin.width;
    let h = skin.height;
    let x0 = scale(region.x, w, SOURCE_WIDTH);
    let y0 = scale(region.y, h, SOURCE_HEIGHT);
    let x1 = scale(region.x.saturating_add(region.width), w, SOURCE_WIDTH);
    let y1 = scale(region.y.saturating_add(region.height), h, SOURCE_HEIGHT);
    proof {
        if region.x + region.width > usize::MAX {
            lemma_scaled_full(usize::MAX as int, w as int, SOURCE_WIDTH as int);
            lemma_scaled_full(region.x + region.width, w as int, SOURCE_WIDTH as int);
        }
        if region.y + region.height > usize::MAX {
            lemma_scaled_full(usize::MAX as int, h as int, SOURCE_HEIGHT as int);
            lemma_scaled_full(region.y + region.height, h as int, SOURCE_HEIGHT as int);
        }
    }
    let ghost o = out@;
    let mut y = y0;
    while y < y1
        invariant
            skin.wf(),
            w == skin.width && h == skin.height,
            y1 <= h,
            y0 <= y,
            out@.len() == w * h,
            o.len() == w * h,
            x0 == scaled(region.x as int, w as int, SOURCE_WIDTH as int),
            y0 == scaled(region.y as int, h as int, SOURCE_HEIGHT as int),
            x1 == scaled(region.x + region.width, w as int, SOURCE_WIDTH as int),
            y1 == scaled(region.y + region.height, h as int, SOURCE_HEIGHT as int),
            forall|px: int, py: int| 0 <= px < w && 0 <= py < h ==>
                #[trigger] out@[idx(w as int, px, py)] == if covers(*skin, region, px, py) && py < y {
                    darken_px(o[idx(w as int, px, py)])
                } else {
                    o[idx(w as int, px, py)]
                },
        decreases y1 - y,
    {
        let mut x = x0;
        while x < x1
            invariant
                skin.wf(),
                w == skin.width && h == skin.height,
                y0 <= y < y1,
                y1 <= h,
                x1 <= w,
                x0 <= x,
                out@.len() == w * h,
                o.len() == w * h,
                x0 == scaled(region.x as int, w as int, SOURCE_WIDTH as int),
                y0 == scaled(region.y as int, h as int, SOURCE_HEIGHT as int),
                x1 == scaled(region.x + region.width, w as int, SOURCE_WIDTH as int),
                y1 == scaled(region.y + region.height, h as int, SOURCE_HEIGHT as int),
                forall|px: int, py: int| 0 <= px < w && 0 <= py < h ==>
                    #[trigger] out@[idx(w as int, px, py)] == if covers(*skin, region, px, py) && (py < y
                        || (py == y && px < x)) {
                        darken_px(o[idx(w as int, px, py)])
                    } else {
                        o[idx(w as int, px, py)]
                    },
            decreases x1 - x,
        {
            let n = out.len();
            proof {
                lemma_idx(w as int, h as int, x as int, y as int, x as int, y as int);
                assert(y * w + x < w * h) by (nonlinear_arith)
                    requires x < w, y < h;
                assert(y * w <= y * w + x);
            }
            let i = y * w + x;
            assert(i == idx(w as int, x as int, y as int));
            let p = out[i];
            let d = darken_pixel(p);
            out.set(i, d);
            proof {
                assert forall|px: int, py: int| 0 <= px < w && 0 <= py < h implies
                    #[trigger] out@[idx(w as int, px, py)] == if covers(*skin, region, px, py) && (py < y
                        || (py == y && px < x + 1)) {
                        darken_px(o[idx(w as int, px, py)])
                    } else {
                        o[idx(w as int, px, py)]
                    } by {
                    lemma_idx(w as int, h as int, px, py, x as int, y as int);
                }
            }
            x += 1;
        }
        y += 1;
    }
}


/// One colour channel of an LCD pixel of `brightness` on the skin: the
/// LCD background shade where it is light, the foreground where dark.
pub open spec fn lcd_channel(bg: u32, fg: u32, shift: u32, brightness: u32) -> u32 {
    let b = (bg >> shift) & 0xFFu32;
    let f = (fg >> shift) & 0xFFu32;
    ((b * brightness + f * (0xFF - brightness) + 0x7F) / 0xFF) as u32
}

/// The skin colour of an LCD pixel value (its low byte is its brightness).
pub open spec fn lcd_shade(spec: SkinSpec, v: u32) -> u32 {
    let br = (v & 0x00FF_FFFFu32) & 0xFFu32;
    (lcd_channel(spec.lcd_background, spec.lcd_foreground, 16, br) << 16u32)
        | (lcd_channel(spec.lcd_background, spec.lcd_foreground, 8, br) << 8u32)
        | lcd_channel(spec.lcd_background, spec.lcd_foreground, 0, br)
}

fn shade_channel(bg: u32, fg: u32, shift: u32, brightness: u32) -> (r: u32)
    requires
        shift <= 16,
        brightness <= 0xFF,
    ensures
        r == lcd_channel(bg, fg, shift, brightness),
        r <= 0xFF,
{
    proof {
        assert((bg >> shift) & 0xFFu32 <= 0xFF && (fg >> shift) & 0xFFu32 <= 0xFF) by (bit_vector);
    }
    let b = (bg >> shift) & 0xFF;
    let f = (fg >> shift) & 0xFF;
    proof {
        assert(b * brightness + f * (0xFF - brightness) <= 0xFF * 0xFF) by (nonlinear_arith)
            requires b <= 0xFF, f <= 0xFF, brightness <= 0xFF;
    }
    (b * brightness + f * (0xFF - brightness) + 0x7F) / 0xFF
}

fn shade(spec: SkinSpec, v: u32) -> (r: u32)
    ensures
        r == lcd_shade(spec, v),
{
    proof {
        assert((v & 0x00FF_FFFFu32) & 0xFFu32 <= 0xFF) by (bit_vector);
    }
    let br = (v & 0x00FF_FFFF) & 0xFF;
    let r = shade_channel(spec.lcd_background, spec.lcd_foreground, 16, br);
    let g = shade_channel(spec.lcd_background, spec.lcd_foreground, 8, br);
    let b = shade_channel(spec.lcd_background, spec.lcd_foreground, 0, br);
    (r << 16) | (g << 8) | b
}

/// The LCD pixel shown at skin pixel (`px`, `py`) inside the screen.
pub open spec fn lcd_source(skin: DeviceSkin, px: int, py: int) -> int {
    let r = skin.spec.screen;
    let x0 = scaled(r.x as int, skin.width as int, SOURCE_WIDTH as int);
    let y0 = scaled(r.y as int, skin.height as int, SOURCE_HEIGHT as int);
    let x1 = scaled(r.x + r.width, skin.width as int, SOURCE_WIDTH as int);
    let y1 = scaled(r.y + r.height, skin.height as int, SOURCE_HEIGHT as int);
    ((py - y0) * LCD_HEIGHT / (y1 - y0)) * LCD_WIDTH + (px - x0) * LCD_WIDTH / (x1 - x0)
}

/// Skin pixel (`px`, `py`) with the LCD drawn in: the shaded LCD pixel
/// inside the screen, the picture elsewhere.
pub open spec fn base_px(skin: DeviceSkin, lcd: Seq<u32>, px: int, py: int) -> u32 {
    if covers(skin, skin.spec.screen, px, py) {
        lcd_shade(skin.spec, lcd[lcd_source(skin, px, py)])
    } else {
        skin.pixels@[idx(skin.width as int, px, py)]
    }
}

proof fn lemma_share(a: int, d: int, n: int)
    requires
        0 <= a < d,
        n > 0,
    ensures
        0 <= a * n / d < n,
{
    assert(0 <= a * n / d < n) by (nonlinear_arith)
        requires 0 <= a < d, n > 0;
}

/// Draw the LCD into the screen of the skin.
fn render_lcd(skin: &DeviceSkin, out: &mut Vec<u32>, lcd: &[u32])
    requires
        skin.wf(),
        lcd@.len() == LCD_PIXELS,
        old(out)@ == skin.pixels@,
    ensures
        final(out)@.len() == skin.pixels@.len(),
        forall|px: int, py: int| 0 <= px < skin.width && 0 <= py < skin.height ==>
            #[trigger] final(out)@[idx(skin.width as int, px, py)] == base_px(*skin, lcd@, px, py),
{
    let w = skin.width;
    let h = skin.height;
    let screen = skin.spec.screen;
    let x0 = scale(screen.x, w, SOURCE_WIDTH);
    let y0 = scale(screen.y, h, SOURCE_HEIGHT);
    let x1 = scale(screen.x + screen.width, w, SOURCE_WIDTH);
    let y1 = scale(screen.y + screen.height, h, SOURCE_HEIGHT);
    let mut y = y0;
    while y < y1
        invariant
            skin.wf(),
            w == skin.width && h == skin.height,
            screen == skin.spec.screen,
            lcd@.len() == LCD_PIXELS,
            y1 <= h,
            y0 <= y,
            out@.len() == w * h,
            x0 == scaled(screen.x as int, w as int, SOURCE_WIDTH as int),
            y0 == scaled(screen.y as int, h as int, SOURCE_HEIGHT as int),
            x1 == scaled(screen.x + screen.width, w as int, SOURCE_WIDTH as int),
            y1 == scaled(screen.y + screen.height, h as int, SOURCE_HEIGHT as int),
            forall|px: int, py: int| 0 <= px < w && 0 <= py < h ==>
                #[trigger] out@[idx(w as int, px, py)] == if covers(*skin, screen, px, py) && py < y {
                    base_px(*skin, lcd@, px, py)
                } else {
                    skin.pixels@[idx(w as int, px, py)]
                },
        decreases y1 - y,
    {
        proof {
            lemma_share((y - y0) as int, (y1 - y0) as int, LCD_HEIGHT as int);
        }
        proof {
            assert(((y - y0) as int) * 80 <= 0x1_0000_0000_0000_0000 * 80) by (nonlinear_arith)
                requires y - y0 <= u64::MAX;
        }
        let sy = (((y - y0) as u128) * (LCD_HEIGHT as u128) / ((y1 - y0) as u128)) as usize;
        let mut x = x0;
        while x < x1
            invariant
                skin.wf(),
                w == skin.width && h == skin.height,
                screen == skin.spec.screen,
                lcd@.len() == LCD_PIXELS,
                y0 <= y < y1,
                y1 <= h,
                x1 <= w,
                x0 <= x,
                sy < LCD_HEIGHT,
                sy == (y - y0) * LCD_HEIGHT / ((y1 - y0) as int),
                out@.len() == w * h,
                x0 == scaled(screen.x as int, w as int, SOURCE_WIDTH as int),
                y0 == scaled(screen.y as int, h as int, SOURCE_HEIGHT as int),
                x1 == scaled(screen.x + screen.width, w as int, SOURCE_WIDTH as int),
                y1 == scaled(screen.y + screen.height, h as int, SOURCE_HEIGHT as int),
                forall|px: int, py: int| 0 <= px < w && 0 <= py < h ==>
                    #[trigger] out@[idx(w as int, px, py)] == if covers(*skin, screen, px, py) && (py < y
                        || (py == y && px < x)) {
                        base_px(*skin, lcd@, px, py)
                    } else {
                        skin.pixels@[idx(w as int, px, py)]
                    },
            decreases x1 - x,
        {
            let n = out.len();
            proof {
                lemma_share((x - x0) as int, (x1 - x0) as int, LCD_WIDTH as int);
                assert(((x - x0) as int) * 160 <= 0x1_0000_0000_0000_0000 * 160) by (nonlinear_arith)
                    requires x - x0 <= u64::MAX;
                lemma_idx(w as int, h as int, x as int, y as int, x as int, y as int);
                assert(y * w + x < w * h) by (nonlinear_arith)
                    requires x < w, y < h;
                assert(y * w <= y * w + x);
            }
            let sx = (((x - x0) as u128) * (LCD_WIDTH as u128) / ((x1 - x0) as u128)) as usize;
            let src = sy * LCD_WIDTH + sx;
            assert(src == lcd_source(*skin, x as int, y as int));
            let v = shade(skin.spec, lcd[src]);
            let i = y * w + x;
            assert(i == idx(w as int, x as int, y as int));
            out.set(i, v);
            proof {
                assert forall|px: int, py: int| 0 <= px < w && 0 <= py < h implies
                    #[trigger] out@[idx(w as int, px, py)] == if covers(*skin, screen, px, py) && (py < y
                        || (py == y && px < x + 1)) {
                        base_px(*skin, lcd@, px, py)
                    } else {
                        skin.pixels@[idx(w as int, px, py)]
                    } by {
                    lemma_idx(w as int, h as int, px, py, x as int, y as int);
                }
            }
            x += 1;
        }
        y += 1;
    }
}


/// Dim the skin pixels a source rectangle covers, when `on` holds.
fn darken_where(skin: &DeviceSkin, out: &mut Vec<u32>, on: bool, region: Rect)
    requires
        skin.wf(),
        old(out)@.len() == skin.width * skin.height,
    ensures
        final(out)@.len() == old(out)@.len(),
        forall|px: int, py: int| 0 <= px < skin.width && 0 <= py < skin.height ==>
            #[trigger] final(out)@[idx(skin.width as int, px, py)] == if on && covers(*skin, region, px, py) {
                darken_px(old(out)@[idx(skin.width as int, px, py)])
            } else {
                old(out)@[idx(skin.width as int, px, py)]
            },
{
    if on {
        darken_rect(skin, out, region);
    }
}

/// Whether layout key `def` is pressed and drawn over skin pixel (`px`, `py`).
pub open spec fn key_shades(skin: DeviceSkin, def: KeyDef, pressed: Seq<bool>, px: int, py: int) -> bool {
    &&& pressed[key_id_spec(skin.model, def.row, def.col) as int]
    &&& key_region_spec(skin.model, def) matches Some(r) && covers(skin, r, px, py)
}

/// How many of the first `n` layout keys shade skin pixel (`px`, `py`).
pub open spec fn shade_count(skin: DeviceSkin, layout: Seq<KeyDef>, pressed: Seq<bool>, px: int, py: int, n: int) -> nat
    decreases n,
{
    if n <= 0 {
        0
    } else {
        shade_count(skin, layout, pressed, px, py, n - 1) + if key_shades(skin, layout[n - 1], pressed, px, py) {
            1nat
        } else {
            0nat
        }
    }
}

/// How many of the NC1020's F10 and F11 buttons are pressed over skin
/// pixel (`px`, `py`).
pub open spec fn extra_count(skin: DeviceSkin, pressed: Seq<bool>, px: int, py: int) -> nat {
    if skin.model == MachineModel::Nc1020 {
        (if pressed[key_ids::F10 as int] && covers(skin, centered_spec(105, 950, 82, 52), px, py) { 1nat } else { 0nat })
            + (if pressed[key_ids::F11 as int] && covers(skin, centered_spec(203, 950, 82, 52), px, py) {
            1nat
        } else {
            0nat
        })
    } else {
        0
    }
}

/// The rendered skin: every pixel is the picture with the LCD drawn in,
/// dimmed once for each pressed key drawn over it.
pub open spec fn render_spec(skin: DeviceSkin, lcd: Seq<u32>, layout: Seq<KeyDef>, pressed: Seq<bool>, px: int, py: int) -> u32 {
    darken_n(
        base_px(skin, lcd, px, py),
        shade_count(skin, layout, pressed, px, py, layout.len() as int) + extra_count(skin, pressed, px, py),
    )
}

/// Draw the skin, the LCD and the pressed keys.
pub fn skin_render(skin: &DeviceSkin, lcd: &[u32], layout: &[KeyDef], pressed: &[bool; 64]) -> (r: Vec<u32>)
    requires
        skin.wf(),
        lcd@.len() == LCD_PIXELS,
        layout_ok(layout@),
    ensures
        r@.len() == skin.width * skin.height,
        forall|px: int, py: int| 0 <= px < skin.width && 0 <= py < skin.height ==>
            #[trigger] r@[idx(skin.width as int, px, py)] == render_spec(*skin, lcd@, layout@, pressed@, px, py),
{
    let w = skin.width;
    let h = skin.height;
    let mut out = skin.pixels.clone();
    assert(out@ =~= skin.pixels@);
    render_lcd(skin, &mut out, lcd);
    let mut i: usize = 0;
    while i < layout.len()
        invariant
            skin.wf(),
            w == skin.width && h == skin.height,
            layout_ok(layout@),
            i <= layout@.len(),
            out@.len() == w * h,
            forall|px: int, py: int| 0 <= px < w && 0 <= py < h ==>
                #[trigger] out@[idx(w as int, px, py)] == darken_n(
                    base_px(*skin, lcd@, px, py),
                    shade_count(*skin, layout@, pressed@, px, py, i as int),
                ),
        decreases layout@.len() - i,
    {
        let def = layout[i];
        let key_id = key_id_for(skin.model, def.row, def.col);
        let ghost before = out@;
        if pressed[key_id as usize] {
            match key_region(skin.model, &def) {
                Some(region) => {
                    darken_rect(skin, &mut out, region);
                },
                None => {},
            }
        }
        proof {
            assert forall|px: int, py: int| 0 <= px < w && 0 <= py < h implies
                #[trigger] out@[idx(w as int, px, py)] == darken_n(
                    base_px(*skin, lcd@, px, py),
                    shade_count(*skin, layout@, pressed@, px, py, i + 1),
                ) by {
                assert(before[idx(w as int, px, py)] == darken_n(
                    base_px(*skin, lcd@, px, py),
                    shade_count(*skin, layout@, pressed@, px, py, i as int),
                ));
            }
        }
        i += 1;
    }
    let ghost before = out@;
    let nc1020 = skin.model == MachineModel::Nc1020;
    darken_where(skin, &mut out, nc1020 && pressed[key_ids::F10 as usize], Rect::centered(105, 950, 82, 52));
    let ghost mid = out@;
    darken_where(skin, &mut out, nc1020 && pressed[key_ids::F11 as usize], Rect::centered(203, 950, 82, 52));
    proof {
        assert forall|px: int, py: int| 0 <= px < w && 0 <= py < h implies
            #[trigger] out@[idx(w as int, px, py)] == render_spec(*skin, lcd@, layout@, pressed@, px, py) by {
            let b = base_px(*skin, lcd@, px, py);
            let s = shade_count(*skin, layout@, pressed@, px, py, layout@.len() as int);
            assert(before[idx(w as int, px, py)] == darken_n(b, s));
            let e10 = if nc1020 && pressed@[key_ids::F10 as int]
                && covers(*skin, centered_spec(105, 950, 82, 52), px, py) { 1nat } else { 0nat };
            assert(mid[idx(w as int, px, py)] == darken_n(b, s + e10));
            assert(darken_n(b, (s + 1) as nat) == darken_px(darken_n(b, s)));
            assert(darken_n(b, (s + 2) as nat) == darken_px(darken_n(b, (s + 1) as nat)));
        }
    }
    out
}

/// The picture `image` decodes from `bytes`, as width, height and 8-bit
/// RGBA samples, or `None` where it cannot decode them.
pub uninterp spec fn decoded_rgba(bytes: Seq<u8>) -> Option<(u32, u32, Seq<u8>)>;

/// Decodes an encoded picture with `image::load_from_memory` and converts it
/// with `DynamicImage::to_rgba8`. Claimed: the result is a function of the
/// bytes alone (`decoded_rgba`), and the sample buffer holds at least the
/// four samples of each of the `width * height` pixels, as
/// `ImageBuffer::from_raw` checks when the decoder builds it.
#[verifier::external_body]
fn decode_rgba(bytes: &[u8]) -> (r: Option<(u32, u32, Vec<u8>)>)
    ensures
        match r {
            Some(p) => decoded_rgba(bytes@) == Some((p.0, p.1, p.2@)) && p.2@.len() >= 4 * p.0 * p.1,
            None => decoded_rgba(bytes@) is None,
        },
{
    match image::load_from_memory(bytes) {
        Ok(picture) => {
            let rgba = picture.to_rgba8();
            let (width, height) = rgba.dimensions();
            Some((width, height, rgba.into_raw()))
        },
        Err(_) => None,
    }
}

/// Scales a `width` x `height` RGBA picture to `new_width` x `new_height`
/// with `image::imageops::resize` and the Lanczos3 filter. Claimed: the
/// result holds four samples per pixel of the new size (the buffer comes
/// from `ImageBuffer::new`). The sample values are not stated: the filter
/// computes them in floating point with the platform's `sin`.
#[verifier::external_body]
fn resize_rgba(data: Vec<u8>, width: u32, height: u32, new_width: u32, new_height: u32) -> (r: Vec<u8>)
    requires
        data@.len() >= 4 * width * height,
        width > 0,
        height > 0,
        4 * width * new_height <= usize::MAX,
        4 * new_width * new_height <= usize::MAX,
    ensures
        r@.len() == 4 * new_width * new_height,
{
    let picture = image::RgbaImage::from_raw(width, height, data).unwrap();
    image::imageops::resize(&picture, new_width, new_height, image::imageops::FilterType::Lanczos3).into_raw()
}

/// One colour channel `c` with alpha `a` laid over the window background.
pub open spec fn blend_channel(c: int, a: int) -> int {
    (c * a + WINDOW_BACKGROUND * (255 - a) + 127) / 255
}

/// Pixel `i` of an RGBA sample buffer laid over the window background,
/// as 0x00RRGGBB.
pub open spec fn blended_pixel(rgba: Seq<u8>, i: int) -> u32 {
    let a = rgba[4 * i + 3] as int;
    (blend_channel(rgba[4 * i] as int, a) * 0x10000 + blend_channel(rgba[4 * i + 1] as int, a) * 0x100
        + blend_channel(rgba[4 * i + 2] as int, a)) as u32
}

/// Every whole pixel of an RGBA sample buffer laid over the window background.
pub open spec fn blended_all(rgba: Seq<u8>) -> Seq<u32> {
    Seq::new(rgba.len() / 4, |i: int| blended_pixel(rgba, i))
}

fn blend(c: u8, a: u8) -> (r: u32)
    ensures
        r == blend_channel(c as int, a as int),
        r <= 255,
{
    let c32 = c as u32;
    let a32 = a as u32;
    proof {
        assert(c32 * a32 <= 255 * a32) by (nonlinear_arith)
            requires c32 <= 255;
    }
    (c32 * a32 + WINDOW_BACKGROUND * (255 - a32) + 127) / 255
}

/// Lay each whole pixel of an RGBA sample buffer over the window background.
pub fn blend_rgba(rgba: &[u8]) -> (r: Vec<u32>)
    ensures
        r@ == blended_all(rgba@),
{
    let n = rgba.len() / 4;
    let mut out: Vec<u32> = Vec::with_capacity(n);
    let mut i: usize = 0;
    while i < n
        invariant
            n == rgba@.len() / 4,
            i <= n,
            out@.len() == i,
            forall|j: int| 0 <= j < i ==> #[trigger] out@[j] == blended_pixel(rgba@, j),
        decreases n - i,
    {
        proof {
            assert(4 * i + 3 < rgba@.len()) by (nonlinear_arith)
                requires i < n, n == rgba@.len() / 4;
            assert(rgba@.len() == rgba.len());
        }
        let a = rgba[4 * i + 3];
        let r = blend(rgba[4 * i], a);
        let g = blend(rgba[4 * i + 1], a);
        let b = blend(rgba[4 * i + 2], a);
        proof {
            assert((r << 16) | (g << 8) | b == r * 0x10000 + g * 0x100 + b) by (bit_vector)
                requires r <= 255, g <= 255, b <= 255;
        }
        out.push((r << 16) | (g << 8) | b);
        i += 1;
    }
    assert(out@ =~= blended_all(rgba@));
    out
}

/// Skin height at a display scale.
pub open spec fn skin_height(display_scale: u32) -> int {
    display_scale * HEIGHT_PER_SCALE
}

/// Skin width at a display scale: the source proportions, rounded down.
pub open spec fn skin_width(display_scale: u32) -> int {
    SOURCE_WIDTH * skin_height(display_scale) / (SOURCE_HEIGHT as int)
}

/// Whether the scaled skin, and the picture scaled to its height on the
/// way, can be held in memory.
pub open spec fn skin_fits(display_scale: u32) -> bool {
    &&& skin_height(display_scale) <= u32::MAX
    &&& 4 * SOURCE_WIDTH * skin_height(display_scale) <= usize::MAX
    &&& 4 * skin_width(display_scale) * skin_height(display_scale) <= usize::MAX
}

/// What building a skin of `model` at `display_scale` from a decoded
/// `width` x `height` picture gives: the size error, then the scale error,
/// then the memory error, else a skin of the scaled size whose pixels are
/// some RGBA picture of that size laid over the window background.
pub open spec fn skin_built(model: MachineModel, display_scale: u32, width: u32, height: u32, r: Result<DeviceSkin, SkinError>) -> bool {
    if width != SOURCE_WIDTH || height != SOURCE_HEIGHT {
        r == Err::<DeviceSkin, SkinError>(SkinError::WrongSize { width, height })
    } else if display_scale == 0 {
        r == Err::<DeviceSkin, SkinError>(SkinError::ZeroScale)
    } else if !skin_fits(display_scale) {
        r == Err::<DeviceSkin, SkinError>(SkinError::TooLarge)
    } else {
        &&& r is Ok
        &&& r->Ok_0.wf()
        &&& r->Ok_0.model == model
        &&& r->Ok_0.width == skin_width(display_scale)
        &&& r->Ok_0.height == skin_height(display_scale)
        &&& exists|scaled_rgba: Seq<u8>| #![trigger blended_all(scaled_rgba)]
            scaled_rgba.len() == 4 * r->Ok_0.width * r->Ok_0.height
                && r->Ok_0.pixels@ == blended_all(scaled_rgba)
    }
}

/// Build a skin of `model` at `display_scale` from a decoded RGBA picture:
/// check its size, scale it and lay it over the window background.
pub fn skin_from_rgba(model: MachineModel, display_scale: u32, width: u32, height: u32, rgba: Vec<u8>) -> (r: Result<DeviceSkin, SkinError>)
    requires
        rgba@.len() >= 4 * width * height,
    ensures
        skin_built(model, display_scale, width, height, r),
{
    if width as usize != SOURCE_WIDTH || height as usize != SOURCE_HEIGHT {
        return Err(SkinError::WrongSize { width, height });
    }
    if display_scale == 0 {
        return Err(SkinError::ZeroScale);
    }
    let scale = display_scale as u64;
    let new_height: u64 = scale * 150;
    let new_width: u64 = 1086 * new_height / 1448;
    assert(new_width == skin_width(display_scale));
    if new_height > u32::MAX as u64 {
        return Err(SkinError::TooLarge);
    }
    assert(4344 * new_height <= 4344 * 0xFFFF_FFFFu64) by (nonlinear_arith)
        requires new_height <= 0xFFFF_FFFF;
    let row_samples: u64 = 4344 * new_height;
    if row_samples > usize::MAX as u64 {
        return Err(SkinError::TooLarge);
    }
    proof {
        assert(new_width <= new_height) by (nonlinear_arith)
            requires new_width == 1086 * new_height / 1448;
        assert(4 * new_width * new_height <= 4 * new_height * new_height) by (nonlinear_arith)
            requires new_width <= new_height;
        assert(4 * new_width * new_height <= 4 * 0xFFFF_FFFFu64 * 0xFFFF_FFFFu64) by (nonlinear_arith)
            requires new_width <= new_height, new_height <= 0xFFFF_FFFF;
    }
    let samples: u128 = 4 * (new_width as u128) * (new_height as u128);
    if samples > usize::MAX as u128 {
        return Err(SkinError::TooLarge);
    }
    let scaled_rgba = resize_rgba(rgba, width, height, new_width as u32, new_height as u32);
    let pixels = blend_rgba(&scaled_rgba);
    let skin = DeviceSkin {
        model,
        width: new_width as usize,
        height: new_height as usize,
        pixels,
        spec: spec_for(model),
    };
    proof {
        let len = scaled_rgba@.len();
        assert(len / 4 == new_width * new_height) by (nonlinear_arith)
            requires len == 4 * new_width * new_height;
        assert(blended_all(scaled_rgba@).len() == new_width * new_height);
    }
    Ok(skin)
}

impl DeviceSkin {
    /// Decode an encoded skin picture of `model` and prepare it at
    /// `display_scale`.
    pub fn load(model: MachineModel, display_scale: u32, bytes: &[u8]) -> (r: Result<DeviceSkin, SkinError>)
        ensures
            match decoded_rgba(bytes@) {
                None => r == Err::<DeviceSkin, SkinError>(SkinError::Decode),
                Some(p) => skin_built(model, display_scale, p.0, p.1, r),
            },
    {
        match decode_rgba(bytes) {
            None => Err(SkinError::Decode),
            Some((width, height, rgba)) => skin_from_rgba(model, display_scale, width, height, rgba),
        }
    }
}

} // verus!
