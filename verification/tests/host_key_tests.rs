use wqxemu::host_keys::{map_key, map_keyboard_key, map_key_nc1020, map_key_nc2000, map_key_nc3000, map_key_pc1000, map_qwerty_2000, HostKey};
use wqxemu::key_ids;
use wqxemu::machine::MachineModel;

const ALL_KEYS: [HostKey; 59] = [
    HostKey::Up, HostKey::Down, HostKey::Left, HostKey::Right, HostKey::Enter, HostKey::Escape,
    HostKey::Space, HostKey::Backspace, HostKey::F1, HostKey::F2, HostKey::F3, HostKey::F4,
    HostKey::F5, HostKey::F6, HostKey::F7, HostKey::F8, HostKey::F9, HostKey::F10, HostKey::F11,
    HostKey::F12, HostKey::PageUp, HostKey::PageDown, HostKey::Delete, HostKey::A, HostKey::B,
    HostKey::C, HostKey::D, HostKey::E, HostKey::F, HostKey::G, HostKey::H, HostKey::I, HostKey::J,
    HostKey::K, HostKey::L, HostKey::M, HostKey::N, HostKey::O, HostKey::P, HostKey::Q, HostKey::R,
    HostKey::S, HostKey::T, HostKey::U, HostKey::V, HostKey::W, HostKey::X, HostKey::Y, HostKey::Z,
    HostKey::Key0, HostKey::Key1, HostKey::Key2, HostKey::Key3, HostKey::Key4, HostKey::Key5,
    HostKey::Key6, HostKey::Key7, HostKey::Key8, HostKey::Key9,
];

#[test]
fn nc1020_pc_keyboard_uses_reference_matrix_ids() {
    assert_eq!(map_key_nc1020(HostKey::Q), Some(0x20));
    assert_eq!(map_key_nc1020(HostKey::A), Some(0x28));
    assert_eq!(map_key_nc1020(HostKey::Space), Some(0x3E));
    assert_eq!(map_key_nc1020(HostKey::Key1), Some(0x34));
    assert_eq!(map_key_nc1020(HostKey::F10), Some(key_ids::F10));
    assert_eq!(map_key_nc1020(HostKey::Delete), Some(key_ids::POWER));
    assert_eq!(map_key_nc1020(HostKey::F12), None);
}

#[test]
fn pc1000_and_cc800_share_a_matrix() {
    assert_eq!(map_key_pc1000(HostKey::Up), Some(6 << 3 | 2));
    assert_eq!(map_key_pc1000(HostKey::Delete), Some(0));
    assert_eq!(map_key(MachineModel::Cc800, HostKey::Z), Some(3 << 3));
    assert_eq!(map_key(MachineModel::Pc1000, HostKey::Z), Some(3 << 3));
    assert_eq!(map_key_pc1000(HostKey::F12), None);
}

#[test]
fn nc2000_and_nc3000_differ_only_in_hotkeys() {
    assert_eq!(map_qwerty_2000(HostKey::Up), Some(2 << 3 | 3));
    assert_eq!(map_key_nc2000(HostKey::Up), map_key_nc3000(HostKey::Up));
    assert_eq!(map_key_nc2000(HostKey::F5), Some(3 << 3 | 1));
    assert_eq!(map_key_nc3000(HostKey::F5), Some(1 << 3));
    assert_eq!(map_key_nc3000(HostKey::F8), None);
    assert_eq!(map_key(MachineModel::Nc2000, HostKey::F12), Some(0));
}

#[test]
fn every_mapped_key_is_a_matrix_position() {
    for model in [MachineModel::Nc1020, MachineModel::Pc1000, MachineModel::Cc800, MachineModel::Nc2000, MachineModel::Nc3000] {
        for key in ALL_KEYS {
            if let Some(id) = map_key(model, key) {
                assert!(id < 64, "{:?} {:?} -> {}", model, key, id);
            }
        }
    }
}

#[test]
fn retroarch_keys_map_to_nc1020_ids() {
    assert_eq!(map_keyboard_key(13), Some(key_ids::ENTER));
    assert_eq!(map_keyboard_key(97), Some(0x10));
    assert_eq!(map_keyboard_key(122), Some(0x29));
    assert_eq!(map_keyboard_key(48), Some(0x20));
    assert_eq!(map_keyboard_key(282), Some(key_ids::F1));
    assert_eq!(map_keyboard_key(292), Some(key_ids::F11));
    assert_eq!(map_keyboard_key(286), None);
    assert_eq!(map_keyboard_key(1), None);
}
