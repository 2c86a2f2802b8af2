//! Save states, their checksum, and the fingerprint that ties a saved
//! session to its firmware.
//!
//! A save state holds the CPU, RAM, IO registers and the shared hardware
//! components.  The library defines no byte encoding for save states or
//! sessions: they are handed over as values, and the session header (format
//! version, model, firmware fingerprint) is checked by
//! [`check_persistent_header`] when a session is resumed.

use vstd::prelude::*;
use crate::audio::Audio;
use crate::cpu::Cpu;
use crate::flash::Flash;
use crate::input::Input;
use crate::machine::{MachineError, MachineModel};
use crate::timer::Timer;

verus! {

/// Save state version for compatibility checking.
pub const SAVE_STATE_VERSION: u32 = 1;

/// Persistent session version for compatibility checking.
pub const PERSISTENT_STATE_VERSION: u32 = 1;

/// FNV-1a offset basis.
pub const FNV_OFFSET: u64 = 0xcbf2_9ce4_8422_2325;

/// FNV-1a prime.
pub const FNV_PRIME: u64 = 0x0000_0100_0000_01b3;

/// Complete emulator save state.
pub struct SaveState {
    /// Version number for compatibility
    pub version: u32,
    /// CPU state
    pub cpu: Cpu,
    /// RAM contents
    pub ram: Vec<u8>,
    /// IO register contents
    pub io: Vec<u8>,
    /// Timer state
    pub timer: Timer,
    /// Input state
    pub input: Input,
    /// Audio state
    pub audio: Audio,
    /// Flash state
    pub flash: Flash,
    /// LCD address
    pub lcd_addr: u32,
    /// NOR Flash contents modified
    pub nor_dirty: bool,
}

/// `b` holds the same timer state as `a`.
pub open spec fn same_timer(a: Timer, b: Timer) -> bool {
    &&& b.clock_data@ == a.clock_data@
    &&& b.clock_flags == a.clock_flags
    &&& b.timer0_cycles == a.timer0_cycles
    &&& b.timer1_cycles == a.timer1_cycles
    &&& b.timer0_toggle == a.timer0_toggle
    &&& b.should_irq == a.should_irq
    &&& b.io_3d == a.io_3d
    &&& b.cycles == a.cycles
    &&& b.speed_up == a.speed_up
}

/// `b` holds the same audio state as `a`.
pub open spec fn same_audio(a: Audio, b: Audio) -> bool {
    &&& b.wave_buffer == a.wave_buffer
    &&& b.wave_flags == a.wave_flags
    &&& b.wave_index == a.wave_index
    &&& b.playing == a.playing
    &&& b.playback_pos == a.playback_pos
    &&& b.output_buffer@ == a.output_buffer@
}

/// `b` holds the same flash controller state as `a`.
pub open spec fn same_flash(a: Flash, b: Flash) -> bool {
    &&& b.step == a.step
    &&& b.flash_type == a.flash_type
    &&& b.bank_idx == a.bank_idx
    &&& b.bak1 == a.bak1
    &&& b.bak2 == a.bak2
    &&& b.buffer@ == a.buffer@
}

/// A copy of a timer.
pub fn copy_timer(t: &Timer) -> (r: Timer)
    ensures
        same_timer(*t, r),
{
    Timer {
        clock_data: t.clock_data.clone(),
        clock_flags: t.clock_flags,
        timer0_cycles: t.timer0_cycles,
        timer1_cycles: t.timer1_cycles,
        timer0_toggle: t.timer0_toggle,
        should_irq: t.should_irq,
        io_3d: t.io_3d,
        cycles: t.cycles,
        speed_up: t.speed_up,
    }
}

/// A copy of an audio state.
pub fn copy_audio(a: &Audio) -> (r: Audio)
    ensures
        same_audio(*a, r),
{
    Audio {
        wave_buffer: a.wave_buffer,
        wave_flags: a.wave_flags,
        wave_index: a.wave_index,
        playing: a.playing,
        playback_pos: a.playback_pos,
        output_buffer: a.output_buffer.clone(),
    }
}

/// A copy of a flash controller state.
pub fn copy_flash(f: &Flash) -> (r: Flash)
    ensures
        same_flash(*f, r),
{
    Flash {
        step: f.step,
        flash_type: f.flash_type,
        bank_idx: f.bank_idx,
        bak1: f.bak1,
        bak2: f.bak2,
        buffer: f.buffer.clone(),
    }
}

/// A copy of a byte slice.
fn copy_bytes(data: &[u8]) -> (r: Vec<u8>)
    ensures
        r@ == data@,
{
    let mut v: Vec<u8> = Vec::with_capacity(data.len());
    let n = data.len();
    let mut i: usize = 0;
    while i < n
        invariant
            i <= n,
            n == data@.len(),
            v@ == data@.subrange(0, i as int),
        decreases n - i,
    {
        v.push(data[i]);
        proof {
            assert(v@ =~= data@.subrange(0, i + 1));
        }
        i += 1;
    }
    proof {
        assert(v@ =~= data@);
    }
    v
}

impl SaveState {
    /// Component invariants a machine relies on when restoring.
    pub open spec fn wf(&self) -> bool {
        self.timer.wf() && self.audio.wf() && self.flash.wf()
    }

    /// Whether the components keep their invariants (see [`SaveState::wf`]).
    pub fn is_valid(&self) -> (r: bool)
        ensures
            r == self.wf(),
    {
        self.timer.clock_data.len() == 80 && self.audio.wave_index <= 32 && self.flash.buffer.len() == 0x100
    }

    /// A save state of the given components.
    pub fn new(
        cpu: &Cpu,
        ram: &[u8],
        io: &[u8],
        timer: &Timer,
        input: &Input,
        audio: &Audio,
        flash: &Flash,
        lcd_addr: u32,
    ) -> (r: Self)
        ensures
            r.version == SAVE_STATE_VERSION,
            r.cpu == *cpu,
            r.ram@ == ram@,
            r.io@ == io@,
            same_timer(*timer, r.timer),
            r.input == *input,
            same_audio(*audio, r.audio),
            same_flash(*flash, r.flash),
            r.lcd_addr == lcd_addr,
            !r.nor_dirty,
            timer.wf() && audio.wf() && flash.wf() ==> r.wf(),
    {
        SaveState {
            version: SAVE_STATE_VERSION,
            cpu: *cpu,
            ram: copy_bytes(ram),
            io: copy_bytes(io),
            timer: copy_timer(timer),
            input: *input,
            audio: copy_audio(audio),
            flash: copy_flash(flash),
            lcd_addr,
            nor_dirty: false,
        }
    }

    /// Accept a parsed save state of the current version only.
    pub fn check_version(version: u32) -> (r: Result<(), MachineError>)
        ensures
            version == SAVE_STATE_VERSION <==> r is Ok,
            version != SAVE_STATE_VERSION ==> r == Err::<(), MachineError>(
                MachineError::StateVersionMismatch { expected_version: SAVE_STATE_VERSION, got_version: version },
            ),
    {
        if version != SAVE_STATE_VERSION {
            return Err(
                MachineError::StateVersionMismatch { expected_version: SAVE_STATE_VERSION, got_version: version },
            );
        }
        Ok(())
    }

    /// Checksum of a serialized save state: the sum, wrapping at 32 bits,
    /// of each byte times its 1-based position.
    pub fn checksum(data: &[u8]) -> (r: u32)
        ensures
            r == checksum_spec(data@),
    {
        let n = data.len();
        let mut sum: u32 = 0;
        let mut i: usize = 0;
        while i < n
            invariant
                i <= n,
                n == data@.len(),
                sum == checksum_spec(data@.subrange(0, i as int)),
            decreases n - i,
        {
            let k = (i as u32).wrapping_add(1);
            proof {
                assert(data@.subrange(0, i + 1).drop_last() =~= data@.subrange(0, i as int));
                assert(k == ((i + 1) % 0x1_0000_0000) as u32) by (bit_vector)
                    requires k == (i as u32).wrapping_add(1);
            }
            sum = sum.wrapping_add((data[i] as u32).wrapping_mul(k));
            i += 1;
        }
        proof {
            assert(data@.subrange(0, n as int) =~= data@);
        }
        sum
    }
}

/// Checksum of `d` (see [`SaveState::checksum`]).
pub open spec fn checksum_spec(d: Seq<u8>) -> u32
    decreases d.len(),
{
    if d.len() == 0 {
        0
    } else {
        let prev = checksum_spec(d.drop_last());
        let k = (d.len() % 0x1_0000_0000) as u32;
        ((prev + ((d.last() as u32) * k) % 0x1_0000_0000) % 0x1_0000_0000) as u32
    }
}

/// The sum of each byte of `d` weighted by its position counted from one.
pub open spec fn weighted_sum(d: Seq<u8>) -> int
    decreases d.len(),
{
    if d.len() == 0 {
        0
    } else {
        weighted_sum(d.drop_last()) + d.last() * d.len()
    }
}

/// The checksum is the position-weighted byte sum, wrapped to 32 bits, for
/// every buffer whose positions fit in 32 bits.
pub proof fn law_checksum_is_weighted_sum(d: Seq<u8>)
    requires
        d.len() <= u32::MAX,
    ensures
        checksum_spec(d) == weighted_sum(d) % 0x1_0000_0000,
    decreases d.len(),
{
    if d.len() > 0 {
        law_checksum_is_weighted_sum(d.drop_last());
        let a = weighted_sum(d.drop_last());
        let b = d.last() * d.len();
        assert(0 <= b);
        vstd::arithmetic::div_mod::lemma_add_mod_noop(a, b, 0x1_0000_0000);
        vstd::arithmetic::div_mod::lemma_mod_twice(b, 0x1_0000_0000);
    }
}

/// FNV-1a hash of `d`.
pub open spec fn fnv1a(d: Seq<u8>) -> u64
    decreases d.len(),
{
    if d.len() == 0 {
        FNV_OFFSET
    } else {
        (((fnv1a(d.drop_last()) ^ (d.last() as u64)) as int * FNV_PRIME) % 0x1_0000_0000_0000_0000) as u64
    }
}

/// Stable fingerprint of a firmware image (64-bit FNV-1a), used to reject
/// sessions taken with another image.
pub fn persistent_identity(data: &[u8]) -> (r: u64)
    ensures
        r == fnv1a(data@),
{
    let n = data.len();
    let mut hash: u64 = FNV_OFFSET;
    let mut i: usize = 0;
    while i < n
        invariant
            i <= n,
            n == data@.len(),
            hash == fnv1a(data@.subrange(0, i as int)),
        decreases n - i,
    {
        proof {
            assert(data@.subrange(0, i + 1).drop_last() =~= data@.subrange(0, i as int));
        }
        let x = hash ^ (data[i] as u64);
        proof {
            assert(x.wrapping_mul(FNV_PRIME) == ((x as int * FNV_PRIME) % 0x1_0000_0000_0000_0000) as u64);
        }
        hash = x.wrapping_mul(FNV_PRIME);
        i += 1;
    }
    proof {
        assert(data@.subrange(0, n as int) =~= data@);
    }
    hash
}

/// Check the header of a saved session against the running machine: the
/// format version, then the model, then the firmware fingerprint.
pub fn check_persistent_header(
    version: u32,
    model: MachineModel,
    identity: u64,
    expected_model: MachineModel,
    expected_identity: u64,
) -> (r: Result<(), MachineError>)
    ensures
        r is Ok <==> version == PERSISTENT_STATE_VERSION && model == expected_model && identity == expected_identity,
        version != PERSISTENT_STATE_VERSION ==> r == Err::<(), MachineError>(
            MachineError::StateVersionMismatch { expected_version: PERSISTENT_STATE_VERSION, got_version: version },
        ),
        version == PERSISTENT_STATE_VERSION && model != expected_model ==> r == Err::<(), MachineError>(
            MachineError::StateModelMismatch { expected_model, got_model: model },
        ),
        version == PERSISTENT_STATE_VERSION && model == expected_model && identity != expected_identity ==> r == Err::<
            (),
            MachineError,
        >(MachineError::StateFirmwareMismatch),
{
    if version != PERSISTENT_STATE_VERSION {
        return Err(
            MachineError::StateVersionMismatch { expected_version: PERSISTENT_STATE_VERSION, got_version: version },
        );
    }
    if model != expected_model {
        return Err(MachineError::StateModelMismatch { expected_model, got_model: model });
    }
    if identity != expected_identity {
        return Err(MachineError::StateFirmwareMismatch);
    }
    Ok(())
}

} // verus!
