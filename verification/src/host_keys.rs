//! Host keyboard keys and the device key each model gives them.
//!
//! A device key id encodes its keypad matrix position as `row * 8 + col`
//! (`row = id >> 3`, `col = id & 7`).  The PC1000 and CC800 share one
//! matrix; the NC2000 and NC3000 share a QWERTY block and differ in their
//! hotkey column; the NC1020 has its own layout.

use vstd::prelude::*;
use crate::key_ids;
use crate::machine::MachineModel;

verus! {

/// The keys of a host keyboard that can reach the device.
#[derive(Clone, Copy, Debug, PartialEq, Eq, Structural)]
pub enum HostKey {
    Up,
    Down,
    Left,
    Right,
    Enter,
    Escape,
    Space,
    Backspace,
    F1,
    F2,
    F3,
    F4,
    F5,
    F6,
    F7,
    F8,
    F9,
    F10,
    F11,
    F12,
    PageUp,
    PageDown,
    Delete,
    A,
    B,
    C,
    D,
    E,
    F,
    G,
    H,
    I,
    J,
    K,
    L,
    M,
    N,
    O,
    P,
    Q,
    R,
    S,
    T,
    U,
    V,
    W,
    X,
    Y,
    Z,
    Key0,
    Key1,
    Key2,
    Key3,
    Key4,
    Key5,
    Key6,
    Key7,
    Key8,
    Key9,
}

/// The key id of a matrix position.
pub open spec fn position_id(p: Option<(u8, u8)>) -> Option<u8> {
    match p {
        Some((row, col)) => Some((row * 8 + col) as u8),
        None => None,
    }
}

/// A key id that addresses the 8x8 keypad matrix.
pub open spec fn is_matrix_id(r: Option<u8>) -> bool {
    r matches Some(id) ==> id < 64
}

/// Matrix positions of the QWERTY block shared by the NC2000/NC3000.
pub open spec fn qwerty_2000_position(k: HostKey) -> Option<(u8, u8)> {
    match k {
        HostKey::Up => Some((2, 3)),
        HostKey::Down => Some((3, 3)),
        HostKey::Left => Some((7, 7)),
        HostKey::Right => Some((7, 3)),
        HostKey::Enter => Some((5, 3)),
        HostKey::Escape => Some((3, 7)),
        HostKey::Space => Some((6, 7)),
        HostKey::Backspace => Some((1, 2)),
        HostKey::F1 => Some((0, 2)),
        HostKey::F2 => Some((1, 2)),
        HostKey::F3 => Some((2, 2)),
        HostKey::F4 => Some((3, 2)),
        HostKey::A => Some((0, 5)),
        HostKey::B => Some((4, 6)),
        HostKey::C => Some((2, 6)),
        HostKey::D => Some((2, 5)),
        HostKey::E => Some((2, 4)),
        HostKey::F => Some((3, 5)),
        HostKey::G => Some((4, 5)),
        HostKey::H => Some((5, 5)),
        HostKey::I => Some((7, 4)),
        HostKey::J => Some((6, 5)),
        HostKey::K => Some((7, 5)),
        HostKey::L => Some((1, 3)),
        HostKey::M => Some((6, 6)),
        HostKey::N => Some((5, 6)),
        HostKey::O => Some((0, 3)),
        HostKey::P => Some((4, 3)),
        HostKey::Q => Some((0, 4)),
        HostKey::R => Some((3, 4)),
        HostKey::S => Some((1, 5)),
        HostKey::T => Some((4, 4)),
        HostKey::U => Some((6, 4)),
        HostKey::V => Some((3, 6)),
        HostKey::W => Some((1, 4)),
        HostKey::X => Some((1, 6)),
        HostKey::Y => Some((5, 4)),
        HostKey::Z => Some((0, 6)),
        HostKey::Key0 => Some((4, 7)),
        HostKey::Key1 => Some((4, 6)),
        HostKey::Key2 => Some((5, 6)),
        HostKey::Key3 => Some((6, 6)),
        HostKey::Key4 => Some((4, 5)),
        HostKey::Key5 => Some((5, 5)),
        HostKey::Key6 => Some((6, 5)),
        HostKey::Key7 => Some((4, 4)),
        HostKey::Key8 => Some((5, 4)),
        HostKey::Key9 => Some((6, 4)),
        _ => None,
    }
}

/// NC2000 hotkeys (matrix column 1) and the ON/OFF key.
pub open spec fn nc2000_hotkey_position(k: HostKey) -> Option<(u8, u8)> {
    match k {
        HostKey::F5 => Some((3, 1)),
        HostKey::F6 => Some((4, 1)),
        HostKey::F7 => Some((5, 1)),
        HostKey::F8 => Some((2, 1)),
        HostKey::F9 => Some((1, 1)),
        HostKey::F10 => Some((0, 1)),
        HostKey::F11 => Some((6, 1)),
        HostKey::F12 => Some((0, 0)),
        HostKey::Delete => Some((0, 0)),
        _ => None,
    }
}

/// NC3000 hotkeys (matrix column 0) and the network/power key.
pub open spec fn nc3000_hotkey_position(k: HostKey) -> Option<(u8, u8)> {
    match k {
        HostKey::F5 => Some((1, 0)),
        HostKey::F6 => Some((2, 0)),
        HostKey::F7 => Some((3, 0)),
        HostKey::F9 => Some((5, 0)),
        HostKey::F10 => Some((6, 0)),
        HostKey::F11 => Some((7, 0)),
        HostKey::F12 => Some((0, 0)),
        HostKey::Delete => Some((0, 0)),
        _ => None,
    }
}

/// Matrix positions of the PC1000 keypad (shared by the CC800).
pub open spec fn pc1000_position(k: HostKey) -> Option<(u8, u8)> {
    match k {
        HostKey::Up => Some((6, 2)),
        HostKey::Down => Some((6, 3)),
        HostKey::Left => Some((2, 7)),
        HostKey::Right => Some((6, 7)),
        HostKey::Enter => Some((6, 5)),
        HostKey::Escape => Some((2, 3)),
        HostKey::Space => Some((2, 6)),
        HostKey::Backspace => Some((7, 3)),
        HostKey::F1 => Some((7, 2)),
        HostKey::F2 => Some((7, 3)),
        HostKey::F3 => Some((7, 4)),
        HostKey::F4 => Some((7, 5)),
        HostKey::F5 => Some((1, 0)),
        HostKey::F6 => Some((1, 1)),
        HostKey::F7 => Some((1, 2)),
        HostKey::F8 => Some((1, 3)),
        HostKey::F9 => Some((1, 4)),
        HostKey::F10 => Some((1, 5)),
        HostKey::F11 => Some((1, 6)),
        HostKey::Delete => Some((0, 0)),
        HostKey::A => Some((4, 0)),
        HostKey::B => Some((3, 4)),
        HostKey::C => Some((3, 2)),
        HostKey::D => Some((4, 2)),
        HostKey::E => Some((5, 2)),
        HostKey::F => Some((4, 3)),
        HostKey::G => Some((4, 4)),
        HostKey::H => Some((4, 5)),
        HostKey::I => Some((5, 7)),
        HostKey::J => Some((4, 6)),
        HostKey::K => Some((4, 7)),
        HostKey::L => Some((6, 1)),
        HostKey::M => Some((3, 6)),
        HostKey::N => Some((3, 5)),
        HostKey::O => Some((6, 0)),
        HostKey::P => Some((6, 4)),
        HostKey::Q => Some((5, 0)),
        HostKey::R => Some((5, 3)),
        HostKey::S => Some((4, 1)),
        HostKey::T => Some((5, 4)),
        HostKey::U => Some((5, 6)),
        HostKey::V => Some((3, 3)),
        HostKey::W => Some((5, 1)),
        HostKey::X => Some((3, 1)),
        HostKey::Y => Some((5, 5)),
        HostKey::Z => Some((3, 0)),
        HostKey::Key0 => Some((2, 4)),
        HostKey::Key1 => Some((3, 4)),
        HostKey::Key2 => Some((3, 5)),
        HostKey::Key3 => Some((3, 6)),
        HostKey::Key4 => Some((4, 4)),
        HostKey::Key5 => Some((4, 5)),
        HostKey::Key6 => Some((4, 6)),
        HostKey::Key7 => Some((5, 4)),
        HostKey::Key8 => Some((5, 5)),
        HostKey::Key9 => Some((5, 6)),
        _ => None,
    }
}

/// NC1020 key ids of the host keys.
pub open spec fn nc1020_key_spec(k: HostKey) -> Option<u8> {
    match k {
        HostKey::Up => Some(key_ids::UP),
        HostKey::Down => Some(key_ids::DOWN),
        HostKey::Left => Some(key_ids::LEFT),
        HostKey::Right => Some(key_ids::RIGHT),
        HostKey::Enter => Some(key_ids::ENTER),
        HostKey::Escape => Some(key_ids::ESC),
        HostKey::Space => Some(0x3E),
        HostKey::Backspace => Some(key_ids::BACKSPACE),
        HostKey::F1 => Some(key_ids::F1),
        HostKey::F2 => Some(key_ids::F2),
        HostKey::F3 => Some(key_ids::F3),
        HostKey::F4 => Some(key_ids::F4),
        HostKey::F10 => Some(key_ids::F10),
        HostKey::F11 => Some(key_ids::F11),
        HostKey::PageUp => Some(key_ids::PAGE_UP),
        HostKey::PageDown => Some(key_ids::PAGE_DOWN),
        HostKey::Delete => Some(key_ids::POWER),
        HostKey::A => Some(0x28),
        HostKey::B => Some(0x34),
        HostKey::C => Some(0x32),
        HostKey::D => Some(0x2A),
        HostKey::E => Some(0x22),
        HostKey::F => Some(0x2B),
        HostKey::G => Some(0x2C),
        HostKey::H => Some(0x2D),
        HostKey::I => Some(0x27),
        HostKey::J => Some(0x2E),
        HostKey::K => Some(0x2F),
        HostKey::L => Some(0x19),
        HostKey::M => Some(0x36),
        HostKey::N => Some(0x35),
        HostKey::O => Some(0x18),
        HostKey::P => Some(0x1C),
        HostKey::Q => Some(0x20),
        HostKey::R => Some(0x23),
        HostKey::S => Some(0x29),
        HostKey::T => Some(0x24),
        HostKey::U => Some(0x26),
        HostKey::V => Some(0x33),
        HostKey::W => Some(0x21),
        HostKey::X => Some(0x31),
        HostKey::Y => Some(0x25),
        HostKey::Z => Some(0x30),
        HostKey::Key0 => Some(0x3C),
        HostKey::Key1 => Some(0x34),
        HostKey::Key2 => Some(0x35),
        HostKey::Key3 => Some(0x36),
        HostKey::Key4 => Some(0x2C),
        HostKey::Key5 => Some(0x2D),
        HostKey::Key6 => Some(0x2E),
        HostKey::Key7 => Some(0x24),
        HostKey::Key8 => Some(0x25),
        HostKey::Key9 => Some(0x26),
        _ => None,
    }
}

/// QWERTY block shared by the NC2000/NC3000 keypads.
pub fn map_qwerty_2000(key: HostKey) -> (r: Option<u8>)
    ensures
        r == position_id(qwerty_2000_position(key)),
        is_matrix_id(r),
{
    match key {
        HostKey::Up => Some(19),
        HostKey::Down => Some(27),
        HostKey::Left => Some(63),
        HostKey::Right => Some(59),
        HostKey::Enter => Some(43),
        HostKey::Escape => Some(31),
        HostKey::Space => Some(55),
        HostKey::Backspace => Some(10),
        HostKey::F1 => Some(2),
        HostKey::F2 => Some(10),
        HostKey::F3 => Some(18),
        HostKey::F4 => Some(26),
        HostKey::A => Some(5),
        HostKey::B => Some(38),
        HostKey::C => Some(22),
        HostKey::D => Some(21),
        HostKey::E => Some(20),
        HostKey::F => Some(29),
        HostKey::G => Some(37),
        HostKey::H => Some(45),
        HostKey::I => Some(60),
        HostKey::J => Some(53),
        HostKey::K => Some(61),
        HostKey::L => Some(11),
        HostKey::M => Some(54),
        HostKey::N => Some(46),
        HostKey::O => Some(3),
        HostKey::P => Some(35),
        HostKey::Q => Some(4),
        HostKey::R => Some(28),
        HostKey::S => Some(13),
        HostKey::T => Some(36),
        HostKey::U => Some(52),
        HostKey::V => Some(30),
        HostKey::W => Some(12),
        HostKey::X => Some(14),
        HostKey::Y => Some(44),
        HostKey::Z => Some(6),
        HostKey::Key0 => Some(39),
        HostKey::Key1 => Some(38),
        HostKey::Key2 => Some(46),
        HostKey::Key3 => Some(54),
        HostKey::Key4 => Some(37),
        HostKey::Key5 => Some(45),
        HostKey::Key6 => Some(53),
        HostKey::Key7 => Some(36),
        HostKey::Key8 => Some(44),
        HostKey::Key9 => Some(52),
        _ => None,
    }
}

/// NC2000 key ids: the QWERTY block, then the hotkeys of matrix column 1
/// and the power key at (0, 0).
pub fn map_key_nc2000(key: HostKey) -> (r: Option<u8>)
    ensures
        r == match qwerty_2000_position(key) {
            Some(p) => position_id(Some(p)),
            None => position_id(nc2000_hotkey_position(key)),
        },
        is_matrix_id(r),
{
    match map_qwerty_2000(key) {
        Some(id) => Some(id),
        None => match key {
            HostKey::F5 => Some(25),
            HostKey::F6 => Some(33),
            HostKey::F7 => Some(41),
            HostKey::F8 => Some(17),
            HostKey::F9 => Some(9),
            HostKey::F10 => Some(1),
            HostKey::F11 => Some(49),
            HostKey::F12 => Some(0),
            HostKey::Delete => Some(0),
            _ => None,
        },
    }
}

/// NC3000 key ids: the QWERTY block, then the hotkeys of matrix column 0.
pub fn map_key_nc3000(key: HostKey) -> (r: Option<u8>)
    ensures
        r == match qwerty_2000_position(key) {
            Some(p) => position_id(Some(p)),
            None => position_id(nc3000_hotkey_position(key)),
        },
        is_matrix_id(r),
{
    match map_qwerty_2000(key) {
        Some(id) => Some(id),
        None => match key {
            HostKey::F5 => Some(8),
            HostKey::F6 => Some(16),
            HostKey::F7 => Some(24),
            HostKey::F9 => Some(40),
            HostKey::F10 => Some(48),
            HostKey::F11 => Some(56),
            HostKey::F12 => Some(0),
            HostKey::Delete => Some(0),
            _ => None,
        },
    }
}

/// PC1000 (and CC800) key ids.
pub fn map_key_pc1000(key: HostKey) -> (r: Option<u8>)
    ensures
        r == position_id(pc1000_position(key)),
        is_matrix_id(r),
{
    match key {
        HostKey::Up => Some(50),
        HostKey::Down => Some(51),
        HostKey::Left => Some(23),
        HostKey::Right => Some(55),
        HostKey::Enter => Some(53),
        HostKey::Escape => Some(19),
        HostKey::Space => Some(22),
        HostKey::Backspace => Some(59),
        HostKey::F1 => Some(58),
        HostKey::F2 => Some(59),
        HostKey::F3 => Some(60),
        HostKey::F4 => Some(61),
        HostKey::F5 => Some(8),
        HostKey::F6 => Some(9),
        HostKey::F7 => Some(10),
        HostKey::F8 => Some(11),
        HostKey::F9 => Some(12),
        HostKey::F10 => Some(13),
        HostKey::F11 => Some(14),
        HostKey::Delete => Some(0),
        HostKey::A => Some(32),
        HostKey::B => Some(28),
        HostKey::C => Some(26),
        HostKey::D => Some(34),
        HostKey::E => Some(42),
        HostKey::F => Some(35),
        HostKey::G => Some(36),
        HostKey::H => Some(37),
        HostKey::I => Some(47),
        HostKey::J => Some(38),
        HostKey::K => Some(39),
        HostKey::L => Some(49),
        HostKey::M => Some(30),
        HostKey::N => Some(29),
        HostKey::O => Some(48),
        HostKey::P => Some(52),
        HostKey::Q => Some(40),
        HostKey::R => Some(43),
        HostKey::S => Some(33),
        HostKey::T => Some(44),
        HostKey::U => Some(46),
        HostKey::V => Some(27),
        HostKey::W => Some(41),
        HostKey::X => Some(25),
        HostKey::Y => Some(45),
        HostKey::Z => Some(24),
        HostKey::Key0 => Some(20),
        HostKey::Key1 => Some(28),
        HostKey::Key2 => Some(29),
        HostKey::Key3 => Some(30),
        HostKey::Key4 => Some(36),
        HostKey::Key5 => Some(37),
        HostKey::Key6 => Some(38),
        HostKey::Key7 => Some(44),
        HostKey::Key8 => Some(45),
        HostKey::Key9 => Some(46),
        _ => None,
    }
}

/// NC1020 key ids.
pub fn map_key_nc1020(key: HostKey) -> (r: Option<u8>)
    ensures
        r == nc1020_key_spec(key),
        is_matrix_id(r),
{
    match key {
        HostKey::Up => Some(key_ids::UP),
        HostKey::Down => Some(key_ids::DOWN),
        HostKey::Left => Some(key_ids::LEFT),
        HostKey::Right => Some(key_ids::RIGHT),
        HostKey::Enter => Some(key_ids::ENTER),
        HostKey::Escape => Some(key_ids::ESC),
        HostKey::Space => Some(0x3E),
        HostKey::Backspace => Some(key_ids::BACKSPACE),
        HostKey::F1 => Some(key_ids::F1),
        HostKey::F2 => Some(key_ids::F2),
        HostKey::F3 => Some(key_ids::F3),
        HostKey::F4 => Some(key_ids::F4),
        HostKey::F10 => Some(key_ids::F10),
        HostKey::F11 => Some(key_ids::F11),
        HostKey::PageUp => Some(key_ids::PAGE_UP),
        HostKey::PageDown => Some(key_ids::PAGE_DOWN),
        HostKey::Delete => Some(key_ids::POWER),
        HostKey::A => Some(0x28),
        HostKey::B => Some(0x34),
        HostKey::C => Some(0x32),
        HostKey::D => Some(0x2A),
        HostKey::E => Some(0x22),
        HostKey::F => Some(0x2B),
        HostKey::G => Some(0x2C),
        HostKey::H => Some(0x2D),
        HostKey::I => Some(0x27),
        HostKey::J => Some(0x2E),
        HostKey::K => Some(0x2F),
        HostKey::L => Some(0x19),
        HostKey::M => Some(0x36),
        HostKey::N => Some(0x35),
        HostKey::O => Some(0x18),
        HostKey::P => Some(0x1C),
        HostKey::Q => Some(0x20),
        HostKey::R => Some(0x23),
        HostKey::S => Some(0x29),
        HostKey::T => Some(0x24),
        HostKey::U => Some(0x26),
        HostKey::V => Some(0x33),
        HostKey::W => Some(0x21),
        HostKey::X => Some(0x31),
        HostKey::Y => Some(0x25),
        HostKey::Z => Some(0x30),
        HostKey::Key0 => Some(0x3C),
        HostKey::Key1 => Some(0x34),
        HostKey::Key2 => Some(0x35),
        HostKey::Key3 => Some(0x36),
        HostKey::Key4 => Some(0x2C),
        HostKey::Key5 => Some(0x2D),
        HostKey::Key6 => Some(0x2E),
        HostKey::Key7 => Some(0x24),
        HostKey::Key8 => Some(0x25),
        HostKey::Key9 => Some(0x26),
        _ => None,
    }
}

/// The device key a host key gives on the model, if any.
pub fn map_key(model: MachineModel, key: HostKey) -> (r: Option<u8>)
    ensures
        r == match model {
            MachineModel::Pc1000 | MachineModel::Cc800 => position_id(pc1000_position(key)),
            MachineModel::Nc2000 => match qwerty_2000_position(key) {
                Some(p) => position_id(Some(p)),
                None => position_id(nc2000_hotkey_position(key)),
            },
            MachineModel::Nc3000 => match qwerty_2000_position(key) {
                Some(p) => position_id(Some(p)),
                None => position_id(nc3000_hotkey_position(key)),
            },
            MachineModel::Nc1020 => nc1020_key_spec(key),
        },
        is_matrix_id(r),
{
    match model {
        MachineModel::Pc1000 | MachineModel::Cc800 => map_key_pc1000(key),
        MachineModel::Nc2000 => map_key_nc2000(key),
        MachineModel::Nc3000 => map_key_nc3000(key),
        MachineModel::Nc1020 => map_key_nc1020(key),
    }
}

/// RetroArch key code of Return.
pub const RETROK_RETURN: u32 = 13;
/// RetroArch key code of Escape.
pub const RETROK_ESCAPE: u32 = 27;
/// RetroArch key code of Space.
pub const RETROK_SPACE: u32 = 32;
/// RetroArch key code of Backspace.
pub const RETROK_BACKSPACE: u32 = 8;
/// RetroArch key code of Delete.
pub const RETROK_DELETE: u32 = 127;
/// RetroArch key code of the left arrow.
pub const RETROK_LEFT: u32 = 0x250;
/// RetroArch key code of the up arrow.
pub const RETROK_UP: u32 = 0x251;
/// RetroArch key code of the right arrow.
pub const RETROK_RIGHT: u32 = 0x252;
/// RetroArch key code of the down arrow.
pub const RETROK_DOWN: u32 = 0x253;
/// RetroArch key code of Page Up.
pub const RETROK_PAGEUP: u32 = 0x254;
/// RetroArch key code of Page Down.
pub const RETROK_PAGEDOWN: u32 = 0x255;
/// RetroArch key code of `a` (the letters follow in order).
pub const RETROK_A: u32 = 97;
/// RetroArch key code of `z`.
pub const RETROK_Z: u32 = 122;
/// RetroArch key code of `0` (the digits follow in order).
pub const RETROK_0: u32 = 48;
/// RetroArch key code of `9`.
pub const RETROK_9: u32 = 57;
/// RetroArch key code of F1 (F2..F12 follow in order).
pub const RETROK_F1: u32 = 282;

/// The NC1020 key a RetroArch keyboard key stands for: the named keys,
/// F1-F4 and F10/F11 (F5-F9 have no matrix position), the letters from
/// 0x10 and the digits from 0x20.
pub open spec fn retro_key_spec(k: u32) -> Option<u8> {
    if k == RETROK_RETURN { Some(key_ids::ENTER) }
    else if k == RETROK_ESCAPE { Some(key_ids::ESC) }
    else if k == RETROK_SPACE { Some(key_ids::SPACE) }
    else if k == RETROK_BACKSPACE { Some(key_ids::BACKSPACE) }
    else if k == RETROK_UP { Some(key_ids::UP) }
    else if k == RETROK_DOWN { Some(key_ids::DOWN) }
    else if k == RETROK_LEFT { Some(key_ids::LEFT) }
    else if k == RETROK_RIGHT { Some(key_ids::RIGHT) }
    else if k == RETROK_PAGEUP { Some(key_ids::PAGE_UP) }
    else if k == RETROK_PAGEDOWN { Some(key_ids::PAGE_DOWN) }
    else if k == RETROK_DELETE { Some(key_ids::POWER) }
    else if k == RETROK_F1 { Some(key_ids::F1) }
    else if k == RETROK_F1 + 1 { Some(key_ids::F2) }
    else if k == RETROK_F1 + 2 { Some(key_ids::F3) }
    else if k == RETROK_F1 + 3 { Some(key_ids::F4) }
    else if k == RETROK_F1 + 9 { Some(key_ids::F10) }
    else if k == RETROK_F1 + 10 { Some(key_ids::F11) }
    else if RETROK_A <= k <= RETROK_Z { Some((0x10 + (k - RETROK_A)) as u8) }
    else if RETROK_0 <= k <= RETROK_9 { Some((0x20 + (k - RETROK_0)) as u8) }
    else { None }
}

/// Map a RetroArch keyboard key code to an NC1020 key id.
pub fn map_keyboard_key(keycode: u32) -> (r: Option<u8>)
    ensures
        r == retro_key_spec(keycode),
        r matches Some(id) ==> id < 64,
{
    if keycode == RETROK_RETURN {
        Some(key_ids::ENTER)
    } else if keycode == RETROK_ESCAPE {
        Some(key_ids::ESC)
    } else if keycode == RETROK_SPACE {
        Some(key_ids::SPACE)
    } else if keycode == RETROK_BACKSPACE {
        Some(key_ids::BACKSPACE)
    } else if keycode == RETROK_UP {
        Some(key_ids::UP)
    } else if keycode == RETROK_DOWN {
        Some(key_ids::DOWN)
    } else if keycode == RETROK_LEFT {
        Some(key_ids::LEFT)
    } else if keycode == RETROK_RIGHT {
        Some(key_ids::RIGHT)
    } else if keycode == RETROK_PAGEUP {
        Some(key_ids::PAGE_UP)
    } else if keycode == RETROK_PAGEDOWN {
        Some(key_ids::PAGE_DOWN)
    } else if keycode == RETROK_DELETE {
        Some(key_ids::POWER)
    } else if keycode == RETROK_F1 {
        Some(key_ids::F1)
    } else if keycode == RETROK_F1 + 1 {
        Some(key_ids::F2)
    } else if keycode == RETROK_F1 + 2 {
        Some(key_ids::F3)
    } else if keycode == RETROK_F1 + 3 {
        Some(key_ids::F4)
    } else if keycode == RETROK_F1 + 9 {
        Some(key_ids::F10)
    } else if keycode == RETROK_F1 + 10 {
        Some(key_ids::F11)
    } else if RETROK_A <= keycode && keycode <= RETROK_Z {
        Some((0x10 + (keycode - RETROK_A)) as u8)
    } else if RETROK_0 <= keycode && keycode <= RETROK_9 {
        Some((0x20 + (keycode - RETROK_0)) as u8)
    } else {
        None
    }
}

} // verus!
