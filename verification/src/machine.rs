//! Hardware models, firmware images and the errors of loading them.
//!
//! All supported Wenquxing models share the 6502 CPU, the 160x80 LCD and
//! the NOR Flash command set, but differ in memory banking, IO register
//! semantics and firmware layout (NC1020/PC1000/CC800 use ROM + NOR,
//! NC2000 replaces the ROM by NAND Flash).

use vstd::prelude::*;
use vstd::string::*;
use crate::cpu::Cpu;
use crate::lcd::{Lcd, CYCLES_PER_FRAME};
use crate::save::SaveState;

verus! {

broadcast use vstd::string::is_ascii_spec_bytes;

/// Supported hardware models.
#[derive(Clone, Copy, Debug, PartialEq, Eq, Structural)]
pub enum MachineModel {
    /// NC1020 (SPDC1024 SoC, ROM + NOR Flash)
    Nc1020,
    /// PC1000 (different bank layout and IO semantics)
    Pc1000,
    /// CC800 (older SPDC1016 SoC, half-swapped ROM/NOR dumps)
    Cc800,
    /// NC2000 (ROM is replaced by NAND Flash)
    Nc2000,
    /// NC3000 (10.24 MHz variant, 1MB NOR + two-plane NAND)
    Nc3000,
}

/// ASCII bytes of a model's stable name.
pub open spec fn name_bytes(m: MachineModel) -> Seq<u8> {
    match m {
        MachineModel::Nc1020 => seq![0x6Eu8, 0x63, 0x31, 0x30, 0x32, 0x30],
        MachineModel::Pc1000 => seq![0x70u8, 0x63, 0x31, 0x30, 0x30, 0x30],
        MachineModel::Cc800 => seq![0x63u8, 0x63, 0x38, 0x30, 0x30],
        MachineModel::Nc2000 => seq![0x6Eu8, 0x63, 0x32, 0x30, 0x30, 0x30],
        MachineModel::Nc3000 => seq![0x6Eu8, 0x63, 0x33, 0x30, 0x30, 0x30],
    }
}

/// ASCII lower-case of one byte.
pub open spec fn lower(b: u8) -> u8 {
    if 0x41 <= b <= 0x5A {
        (b + 0x20) as u8
    } else {
        b
    }
}

/// ASCII lower-case of a byte string.
pub open spec fn lower_seq(s: Seq<u8>) -> Seq<u8> {
    Seq::new(s.len(), |i: int| lower(s[i]))
}

/// The model whose name is `s`, ignoring ASCII case.
pub open spec fn model_of_name(s: Seq<u8>) -> Option<MachineModel> {
    let l = lower_seq(s);
    if l == name_bytes(MachineModel::Nc1020) {
        Some(MachineModel::Nc1020)
    } else if l == name_bytes(MachineModel::Pc1000) {
        Some(MachineModel::Pc1000)
    } else if l == name_bytes(MachineModel::Cc800) {
        Some(MachineModel::Cc800)
    } else if l == name_bytes(MachineModel::Nc2000) {
        Some(MachineModel::Nc2000)
    } else if l == name_bytes(MachineModel::Nc3000) {
        Some(MachineModel::Nc3000)
    } else {
        None
    }
}

/// Whether `s` equals `target` ignoring ASCII case.
fn eq_ignore_case(s: &[u8], target: &[u8]) -> (r: bool)
    ensures
        r == (lower_seq(s@) == target@),
{
    if s.len() != target.len() {
        proof {
            assert(lower_seq(s@).len() != target@.len());
        }
        return false;
    }
    let n = s.len();
    let mut i: usize = 0;
    while i < n
        invariant
            n == s@.len(),
            n == target@.len(),
            i <= n,
            forall|k: int| 0 <= k < i ==> lower(s@[k]) == target@[k],
        decreases n - i,
    {
        let b = s[i];
        let l: u8 = if 0x41 <= b && b <= 0x5A { b + 0x20 } else { b };
        if l != target[i] {
            proof {
                assert(lower_seq(s@)[i as int] != target@[i as int]);
            }
            return false;
        }
        i += 1;
    }
    proof {
        assert(lower_seq(s@) =~= target@);
    }
    true
}

impl MachineModel {
    /// Stable model name used by frontends and the command line.
    pub fn name(self) -> (r: &'static str)
        ensures
            r.spec_bytes() == name_bytes(self),
    {
        match self {
            MachineModel::Nc1020 => {
                proof {
                    reveal_strlit("nc1020");
                    assert(is_ascii("nc1020"));
                    assert("nc1020".spec_bytes() =~= name_bytes(self));
                }
                "nc1020"
            },
            MachineModel::Pc1000 => {
                proof {
                    reveal_strlit("pc1000");
                    assert(is_ascii("pc1000"));
                    assert("pc1000".spec_bytes() =~= name_bytes(self));
                }
                "pc1000"
            },
            MachineModel::Cc800 => {
                proof {
                    reveal_strlit("cc800");
                    assert(is_ascii("cc800"));
                    assert("cc800".spec_bytes() =~= name_bytes(self));
                }
                "cc800"
            },
            MachineModel::Nc2000 => {
                proof {
                    reveal_strlit("nc2000");
                    assert(is_ascii("nc2000"));
                    assert("nc2000".spec_bytes() =~= name_bytes(self));
                }
                "nc2000"
            },
            MachineModel::Nc3000 => {
                proof {
                    reveal_strlit("nc3000");
                    assert(is_ascii("nc3000"));
                    assert("nc3000".spec_bytes() =~= name_bytes(self));
                }
                "nc3000"
            },
        }
    }

    /// Parse a model name (ASCII case-insensitive).
    pub fn from_name(name: &str) -> (r: Option<Self>)
        ensures
            r == model_of_name(name.spec_bytes()),
    {
        let b = name.as_bytes();
        let nc1020: [u8; 6] = [0x6E, 0x63, 0x31, 0x30, 0x32, 0x30];
        let pc1000: [u8; 6] = [0x70, 0x63, 0x31, 0x30, 0x30, 0x30];
        let cc800: [u8; 5] = [0x63, 0x63, 0x38, 0x30, 0x30];
        let nc2000: [u8; 6] = [0x6E, 0x63, 0x32, 0x30, 0x30, 0x30];
        let nc3000: [u8; 6] = [0x6E, 0x63, 0x33, 0x30, 0x30, 0x30];
        proof {
            assert(nc1020@ =~= name_bytes(MachineModel::Nc1020));
            assert(pc1000@ =~= name_bytes(MachineModel::Pc1000));
            assert(cc800@ =~= name_bytes(MachineModel::Cc800));
            assert(nc2000@ =~= name_bytes(MachineModel::Nc2000));
            assert(nc3000@ =~= name_bytes(MachineModel::Nc3000));
        }
        if eq_ignore_case(b, nc1020.as_slice()) {
            Some(MachineModel::Nc1020)
        } else if eq_ignore_case(b, pc1000.as_slice()) {
            Some(MachineModel::Pc1000)
        } else if eq_ignore_case(b, cc800.as_slice()) {
            Some(MachineModel::Cc800)
        } else if eq_ignore_case(b, nc2000.as_slice()) {
            Some(MachineModel::Nc2000)
        } else if eq_ignore_case(b, nc3000.as_slice()) {
            Some(MachineModel::Nc3000)
        } else {
            None
        }
    }
}

/// Parsing a model's own name gives the model back.
pub proof fn law_name_round_trip(m: MachineModel)
    ensures
        model_of_name(name_bytes(m)) == Some(m),
{
    let l = lower_seq(name_bytes(m));
    assert(l =~= name_bytes(m));
    assert(name_bytes(MachineModel::Nc1020) != name_bytes(MachineModel::Pc1000));
    assert(name_bytes(MachineModel::Nc1020)[0] != name_bytes(MachineModel::Pc1000)[0]);
    assert(name_bytes(MachineModel::Nc1020)[2] != name_bytes(MachineModel::Nc2000)[2]);
    assert(name_bytes(MachineModel::Nc1020)[2] != name_bytes(MachineModel::Nc3000)[2]);
    assert(name_bytes(MachineModel::Nc2000)[2] != name_bytes(MachineModel::Nc3000)[2]);
    assert(name_bytes(MachineModel::Pc1000)[0] != name_bytes(MachineModel::Nc2000)[0]);
    assert(name_bytes(MachineModel::Pc1000)[0] != name_bytes(MachineModel::Nc3000)[0]);
    assert(name_bytes(MachineModel::Cc800).len() != name_bytes(MachineModel::Nc1020).len());
}

/// ASCII upper-case of one byte.
pub open spec fn upper(b: u8) -> u8 {
    if 0x61 <= b <= 0x7A {
        (b - 0x20) as u8
    } else {
        b
    }
}

/// ASCII upper-case of a byte string.
pub open spec fn upper_seq(s: Seq<u8>) -> Seq<u8> {
    Seq::new(s.len(), |i: int| upper(s[i]))
}

/// Model names ignore ASCII case: a name and its lower-case and upper-case
/// forms name the same model, or none.
pub proof fn law_name_ignores_case(s: Seq<u8>)
    ensures
        model_of_name(lower_seq(s)) == model_of_name(s),
        model_of_name(upper_seq(s)) == model_of_name(s),
{
    assert(lower_seq(lower_seq(s)) =~= lower_seq(s));
    assert(lower_seq(upper_seq(s)) =~= lower_seq(s));
}

/// Firmware images of a machine.
///
/// - `rom`: system ROM dump (NC1020 `obj_lu.bin`, PC1000 `.rom`, CC800 `obj.bin`)
/// - `nor`: NOR Flash dump (`.fls` / `.nor`)
/// - `nand`: NAND Flash dump (NC2000 `.nand`)
/// - `nand0`: first NAND plane (NC2000 `.nand0`, optional)
#[derive(Clone)]
pub struct RomFiles {
    pub rom: Option<Vec<u8>>,
    pub nor: Option<Vec<u8>>,
    pub nand: Option<Vec<u8>>,
    pub nand0: Option<Vec<u8>>,
}

impl RomFiles {
    /// Build from loose images (any may be `None`).
    pub fn new(rom: Option<Vec<u8>>, nor: Option<Vec<u8>>, nand: Option<Vec<u8>>, nand0: Option<Vec<u8>>) -> (r: Self)
        ensures
            r.rom == rom && r.nor == nor && r.nand == nand && r.nand0 == nand0,
    {
        RomFiles { rom, nor, nand, nand0 }
    }
}

impl Default for RomFiles {
    fn default() -> (r: Self)
        ensures
            r.rom is None && r.nor is None && r.nand is None && r.nand0 is None,
    {
        RomFiles { rom: None, nor: None, nand: None, nand0: None }
    }
}

/// Why a machine could not be built or a state could not be restored.
#[derive(Clone, Copy, Debug, PartialEq, Eq, Structural)]
pub enum MachineError {
    /// The ROM image is shorter than the model needs.
    RomTooSmall { expected: usize, got: usize },
    /// The ROM image has none of the sizes the model accepts.
    RomSizeInvalid { got: usize },
    /// The NOR image is shorter than the model needs.
    NorTooSmall { expected: usize, got: usize },
    /// The NAND image is shorter than the model needs.
    NandTooSmall { expected: usize, got: usize },
    /// The model has no implementation.
    UnsupportedModel { model: MachineModel },
    /// The model has no NOR Flash to load or save.
    NorUnsupported,
    /// A saved session was written by another format version.
    StateVersionMismatch { expected_version: u32, got_version: u32 },
    /// A saved session belongs to another model.
    StateModelMismatch { expected_model: MachineModel, got_model: MachineModel },
    /// A saved session was taken with another firmware image.
    StateFirmwareMismatch,
}

/// The operations the emulator shell needs from every model.
pub trait Machine {
    /// What every operation keeps true of the machine.
    spec fn machine_inv(&self) -> bool;

    /// The model the machine implements.
    spec fn machine_model(&self) -> MachineModel;

    /// The byte a side-effect-free debugger read of `addr` sees.
    spec fn debug_byte(&self, addr: u16) -> u8;

    /// The LCD controller.
    spec fn lcd_view(&self) -> Lcd;

    /// Whether the device is asleep.
    spec fn asleep(&self) -> bool;

    /// The NOR image in dump layout, for the models that write one.
    spec fn nor_image(&self) -> Option<Seq<u8>>;

    /// Fingerprint of the immutable firmware that sessions leave out (0
    /// where the model keeps none apart).
    spec fn firmware_identity(&self) -> u64;

    /// Which model this machine implements.
    fn model(&self) -> (r: MachineModel)
        ensures
            r == self.machine_model(),
    ;

    /// Reset the machine to its power-on state (images stay loaded).
    fn reset(&mut self)
        requires
            old(self).machine_inv(),
        ensures
            final(self).machine_inv(),
            final(self).machine_model() == old(self).machine_model(),
    ;

    /// Load the system ROM / Flash images.
    fn load_rom(&mut self, files: &RomFiles) -> (r: Result<(), MachineError>)
        requires
            old(self).machine_inv(),
        ensures
            final(self).machine_inv(),
            final(self).machine_model() == old(self).machine_model(),
    ;

    /// Press or release the key at matrix row `key_id >> 3`, column
    /// `key_id & 7`.
    fn set_key(&mut self, key_id: u8, pressed: bool)
        requires
            old(self).machine_inv(),
            key_id < 64,
        ensures
            final(self).machine_inv(),
            final(self).machine_model() == old(self).machine_model(),
    ;

    /// Whether the device is asleep.
    fn is_sleeping(&self) -> (r: bool)
        ensures
            r == self.asleep(),
    ;

    /// Execute one instruction (or interrupt entry) together with the
    /// hardware time it takes; gives the cycles consumed.
    fn step(&mut self, cpu: &mut Cpu) -> (n: u64)
        requires
            old(self).machine_inv(),
        ensures
            final(self).machine_inv(),
            final(self).machine_model() == old(self).machine_model(),
            2 <= n <= CYCLES_PER_FRAME,
    ;

    /// Once per frame, after the CPU has run: LCD refresh, audio, wake-up.
    fn end_of_frame(&mut self, cpu: &mut Cpu)
        requires
            old(self).machine_inv(),
        ensures
            final(self).machine_inv(),
            final(self).machine_model() == old(self).machine_model(),
    ;

    /// Read an address without side effects.
    fn peek(&self, addr: u16) -> (r: u8)
        requires
            self.machine_inv(),
        ensures
            r == self.debug_byte(addr),
    ;

    /// Read a little-endian word without side effects.
    fn peek_u16(&self, addr: u16) -> (r: u16)
        requires
            self.machine_inv(),
        ensures
            r == self.debug_byte(addr) as u16 + 256 * self.debug_byte(addr.wrapping_add(1)) as u16,
    ;

    /// The LCD controller.
    fn lcd(&self) -> (r: &Lcd)
        ensures
            *r == self.lcd_view(),
    ;

    /// Move the pending audio samples to `out`.
    fn drain_audio(&mut self, out: &mut Vec<i16>)
        requires
            old(self).machine_inv(),
        ensures
            final(self).machine_inv(),
            final(self).machine_model() == old(self).machine_model(),
    ;

    /// Load a NOR Flash dump.
    fn load_nor(&mut self, data: &[u8]) -> (r: Result<(), MachineError>)
        requires
            old(self).machine_inv(),
        ensures
            final(self).machine_inv(),
            final(self).machine_model() == old(self).machine_model(),
    ;

    /// The NOR Flash contents in dump layout.
    fn save_nor(&self) -> (r: Result<Vec<u8>, MachineError>)
        ensures
            self.nor_image() matches Some(d) ==> r is Ok && r.unwrap()@ == d,
            self.nor_image() is None ==> r == Err::<Vec<u8>, MachineError>(MachineError::NorUnsupported),
    ;

    /// Enable or disable speed-up mode.
    fn set_speed_up(&mut self, speed_up: bool)
        requires
            old(self).machine_inv(),
        ensures
            final(self).machine_inv(),
            final(self).machine_model() == old(self).machine_model(),
    ;

    /// Capture a save state.
    fn save_state(&self, cpu: &Cpu) -> (r: SaveState)
        requires
            self.machine_inv(),
        ensures
            r.cpu == *cpu,
            r.wf(),
    ;

    /// The firmware fingerprint a saved session is bound to.
    fn persistent_state_identity(&self) -> (r: u64)
        ensures
            r == self.firmware_identity(),
    ;

    /// Restore a save state.
    fn load_state(&mut self, cpu: &mut Cpu, state: &SaveState)
        requires
            old(self).machine_inv(),
            state.wf(),
        ensures
            final(self).machine_inv(),
            final(self).machine_model() == old(self).machine_model(),
            *final(cpu) == state.cpu,
    ;
}

} // verus!
