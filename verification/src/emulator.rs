//! Model-agnostic emulator shell: the shared 6502 CPU, the frame loop, and
//! the machine of the selected model.

use vstd::prelude::*;
use crate::audio::SAMPLE_RATE;
use crate::bytes::{half_swap, law_half_swap_involution};
use crate::cc800::Cc800Machine;
use crate::cpu::{Cpu, FLAG_I, FLAG_U, RESET_VECTOR};
use crate::lcd::{Lcd, CYCLES_PER_FRAME, LCD_HEIGHT, LCD_WIDTH, xrgb};
use crate::machine::{Machine, MachineError, MachineModel, RomFiles};
use crate::nc1020::Nc1020Machine;
use crate::nc2000::Nc2000Machine;
use crate::pc1000::Pc1000Machine;
use crate::save::{SaveState, check_persistent_header, PERSISTENT_STATE_VERSION};

verus! {

/// The machine of one of the supported models.
pub enum AnyMachine {
    Nc1020(Nc1020Machine),
    Pc1000(Pc1000Machine),
    Cc800(Cc800Machine),
    Nc2000(Nc2000Machine),
}

impl AnyMachine {
    /// The machine's own invariant.
    pub open spec fn wf(&self) -> bool {
        match self {
            AnyMachine::Nc1020(m) => m.wf(),
            AnyMachine::Pc1000(m) => m.wf(),
            AnyMachine::Cc800(m) => m.wf(),
            AnyMachine::Nc2000(m) => m.wf(),
        }
    }

    /// The model the machine implements.
    pub open spec fn model_spec(&self) -> MachineModel {
        match self {
            AnyMachine::Nc1020(_) => MachineModel::Nc1020,
            AnyMachine::Pc1000(_) => MachineModel::Pc1000,
            AnyMachine::Cc800(_) => MachineModel::Cc800,
            AnyMachine::Nc2000(_) => MachineModel::Nc2000,
        }
    }

    /// The byte a debugger read of `addr` sees.
    pub open spec fn peek_spec(&self, addr: u16) -> u8 {
        match self {
            AnyMachine::Nc1020(m) => m.peek_spec(addr),
            AnyMachine::Pc1000(m) => m.peek_spec(addr),
            AnyMachine::Cc800(m) => m.peek_spec(addr),
            AnyMachine::Nc2000(m) => m.peek_spec(addr),
        }
    }

    /// The LCD controller.
    pub open spec fn lcd_spec(&self) -> Lcd {
        match self {
            AnyMachine::Nc1020(m) => m.lcd,
            AnyMachine::Pc1000(m) => m.lcd,
            AnyMachine::Cc800(m) => m.lcd,
            AnyMachine::Nc2000(m) => m.lcd,
        }
    }

    /// What a machine built from `files` holds: the model's own images
    /// and power-on state.
    pub open spec fn built_from(&self, files: RomFiles) -> bool {
        match self {
            AnyMachine::Nc1020(m) => m.built_from(files),
            AnyMachine::Pc1000(m) => m.built_from(files),
            AnyMachine::Cc800(m) => m.built_from(files),
            AnyMachine::Nc2000(m) => m.built_from(files),
        }
    }

    /// What `set_key` does: the model's own effect of the key change.
    pub open spec fn set_key_post(&self, after: AnyMachine, key_id: u8, pressed: bool) -> bool {
        match (*self, after) {
            (AnyMachine::Nc1020(a), AnyMachine::Nc1020(b)) => a.set_key_post(b, key_id, pressed),
            (AnyMachine::Pc1000(a), AnyMachine::Pc1000(b)) => a.set_key_post(b, key_id, pressed),
            (AnyMachine::Cc800(a), AnyMachine::Cc800(b)) => a.set_key_post(b, key_id, pressed),
            (AnyMachine::Nc2000(a), AnyMachine::Nc2000(b)) => a.set_key_post(b, key_id, pressed),
            _ => false,
        }
    }

    /// What `reset` does: the model's own power-on state.
    pub open spec fn reset_post(&self, after: AnyMachine) -> bool {
        match (*self, after) {
            (AnyMachine::Nc1020(a), AnyMachine::Nc1020(b)) => a.reset_post(b),
            (AnyMachine::Pc1000(a), AnyMachine::Pc1000(b)) => a.reset_post(b),
            (AnyMachine::Cc800(a), AnyMachine::Cc800(b)) => a.reset_post(b),
            (AnyMachine::Nc2000(a), AnyMachine::Nc2000(b)) => a.reset_post(b),
            _ => false,
        }
    }

    /// What `step` does: the model's own instruction step.
    pub open spec fn step_post(&self, after: AnyMachine, cpu0: Cpu, cpu1: Cpu, n: u64) -> bool {
        match (*self, after) {
            (AnyMachine::Nc1020(a), AnyMachine::Nc1020(b)) => a.step_post(b, cpu0, cpu1, n),
            (AnyMachine::Pc1000(a), AnyMachine::Pc1000(b)) => a.step_post(b, cpu0, cpu1, n),
            (AnyMachine::Cc800(a), AnyMachine::Cc800(b)) => a.step_post(b, cpu0, cpu1, n),
            (AnyMachine::Nc2000(a), AnyMachine::Nc2000(b)) => a.step_post(b, cpu0, cpu1, n),
            _ => false,
        }
    }

    /// What `end_of_frame` does: the model's own frame end.
    pub open spec fn end_of_frame_post(&self, after: AnyMachine, cpu0: Cpu, cpu1: Cpu) -> bool {
        match (*self, after) {
            (AnyMachine::Nc1020(a), AnyMachine::Nc1020(b)) => a.end_of_frame_post(b, cpu0, cpu1),
            (AnyMachine::Pc1000(a), AnyMachine::Pc1000(b)) => a.end_of_frame_post(b, cpu0, cpu1),
            (AnyMachine::Cc800(a), AnyMachine::Cc800(b)) => a.end_of_frame_post(b, cpu0, cpu1),
            (AnyMachine::Nc2000(a), AnyMachine::Nc2000(b)) => a.end_of_frame_post(b, cpu0, cpu1),
            _ => false,
        }
    }

    /// The firmware ROM image (the NC2000 has none).
    pub open spec fn firmware(&self) -> Seq<u8> {
        match self {
            AnyMachine::Nc1020(m) => m.rom@,
            AnyMachine::Pc1000(m) => m.rom@,
            AnyMachine::Cc800(m) => m.rom@,
            AnyMachine::Nc2000(_) => Seq::empty(),
        }
    }

    /// Audio samples produced and not yet drained.
    pub open spec fn pending_audio(&self) -> Seq<i16> {
        match self {
            AnyMachine::Nc1020(m) => m.audio.output_buffer@,
            AnyMachine::Pc1000(m) => m.audio.output_buffer@,
            AnyMachine::Cc800(m) => m.audio.output_buffer@,
            AnyMachine::Nc2000(m) => m.audio.output_buffer@,
        }
    }

    /// What `save_state` captures with `cpu`: the model's own save state.
    pub open spec fn save_state_post(&self, cpu: Cpu, r: SaveState) -> bool {
        match self {
            AnyMachine::Nc1020(m) => m.save_state_post(cpu, r),
            AnyMachine::Pc1000(m) => m.save_state_post(cpu, r),
            AnyMachine::Cc800(m) => m.save_state_post(cpu, r),
            AnyMachine::Nc2000(m) => m.save_state_post(cpu, r),
        }
    }

    /// What `load_state` restores from `state`: the model's own restore.
    pub open spec fn load_state_post(&self, after: AnyMachine, cpu1: Cpu, state: SaveState) -> bool {
        match (*self, after) {
            (AnyMachine::Nc1020(a), AnyMachine::Nc1020(b)) => a.load_state_post(b, cpu1, state),
            (AnyMachine::Pc1000(a), AnyMachine::Pc1000(b)) => a.load_state_post(b, cpu1, state),
            (AnyMachine::Cc800(a), AnyMachine::Cc800(b)) => a.load_state_post(b, cpu1, state),
            (AnyMachine::Nc2000(a), AnyMachine::Nc2000(b)) => a.load_state_post(b, cpu1, state),
            _ => false,
        }
    }

    /// The RAM a save state carries back: all internal RAM, but only the
    /// first 24KB on the NC2000.
    pub open spec fn saved_ram(&self) -> Seq<u8> {
        match self {
            AnyMachine::Nc1020(m) => m.memory.ram@,
            AnyMachine::Pc1000(m) => m.ram@,
            AnyMachine::Cc800(m) => m.ram@,
            AnyMachine::Nc2000(m) => m.ram@.subrange(0, 0x6000),
        }
    }

    /// The 64 IO registers a save state carries.
    pub open spec fn saved_io(&self) -> Seq<u8> {
        match self {
            AnyMachine::Nc1020(m) => m.memory.io@,
            AnyMachine::Pc1000(m) => m.io@.subrange(0, 0x40),
            AnyMachine::Cc800(m) => m.io@.subrange(0, 0x40),
            AnyMachine::Nc2000(m) => m.io@,
        }
    }

    /// Which model this machine implements.
    pub fn model(&self) -> (r: MachineModel)
        ensures
            r == self.model_spec(),
    {
        match self {
            AnyMachine::Nc1020(m) => m.model(),
            AnyMachine::Pc1000(m) => m.model(),
            AnyMachine::Cc800(m) => m.model(),
            AnyMachine::Nc2000(m) => m.model(),
        }
    }

    /// Reset the machine to its power-on state.
    pub fn reset(&mut self)
        requires
            old(self).wf(),
        ensures
            final(self).wf(),
            final(self).model_spec() == old(self).model_spec(),
            old(self).reset_post(*final(self)),
            final(self).firmware() == old(self).firmware(),
    {
        match self {
            AnyMachine::Nc1020(m) => m.reset(),
            AnyMachine::Pc1000(m) => m.reset(),
            AnyMachine::Cc800(m) => m.reset(),
            AnyMachine::Nc2000(m) => m.reset(),
        }
    }

    /// Set a key state.
    pub fn set_key(&mut self, key_id: u8, pressed: bool)
        requires
            old(self).wf(),
            (*old(self)) is Nc1020 ==> key_id < 64,
        ensures
            final(self).wf(),
            final(self).model_spec() == old(self).model_spec(),
            old(self).set_key_post(*final(self), key_id, pressed),
            final(self).firmware() == old(self).firmware(),
    {
        match self {
            AnyMachine::Nc1020(m) => m.set_key(key_id, pressed),
            AnyMachine::Pc1000(m) => m.set_key(key_id, pressed),
            AnyMachine::Cc800(m) => m.set_key(key_id, pressed),
            AnyMachine::Nc2000(m) => m.set_key(key_id, pressed),
        }
    }

    /// Whether the device is in sleep mode.
    pub fn is_sleeping(&self) -> (r: bool)
        ensures
            self is Nc1020 ==> r == self->Nc1020_0.input.slept,
            self is Cc800 ==> r == self->Cc800_0.lcd_off,
            self is Pc1000 || self is Nc2000 ==> !r,
    {
        match self {
            AnyMachine::Nc1020(m) => m.is_sleeping(),
            AnyMachine::Pc1000(m) => m.is_sleeping(),
            AnyMachine::Cc800(m) => m.is_sleeping(),
            AnyMachine::Nc2000(m) => m.is_sleeping(),
        }
    }

    /// Execute one instruction; returns the cycles consumed.
    pub fn step(&mut self, cpu: &mut Cpu) -> (n: u64)
        requires
            old(self).wf(),
        ensures
            final(self).wf(),
            final(self).model_spec() == old(self).model_spec(),
            2 <= n <= CYCLES_PER_FRAME,
            old(self).step_post(*final(self), *old(cpu), *final(cpu), n),
            final(self).firmware() == old(self).firmware(),
    {
        match self {
            AnyMachine::Nc1020(m) => m.step(cpu),
            AnyMachine::Pc1000(m) => m.step(cpu),
            AnyMachine::Cc800(m) => m.step(cpu),
            AnyMachine::Nc2000(m) => m.step(cpu),
        }
    }

    /// Frame end: update the LCD (and audio, wake-up) for the frame.
    pub fn end_of_frame(&mut self, cpu: &mut Cpu)
        requires
            old(self).wf(),
        ensures
            final(self).wf(),
            final(self).model_spec() == old(self).model_spec(),
            old(self).end_of_frame_post(*final(self), *old(cpu), *final(cpu)),
            final(self).firmware() == old(self).firmware(),
    {
        match self {
            AnyMachine::Nc1020(m) => m.end_of_frame(cpu),
            AnyMachine::Pc1000(m) => m.end_of_frame(cpu),
            AnyMachine::Cc800(m) => m.end_of_frame(cpu),
            AnyMachine::Nc2000(m) => m.end_of_frame(cpu),
        }
    }

    /// Read a memory/IO address for debugging (no side effects).
    pub fn peek(&self, addr: u16) -> (r: u8)
        requires
            self.wf(),
        ensures
            r == self.peek_spec(addr),
    {
        match self {
            AnyMachine::Nc1020(m) => m.peek(addr),
            AnyMachine::Pc1000(m) => m.peek(addr),
            AnyMachine::Cc800(m) => m.peek(addr),
            AnyMachine::Nc2000(m) => m.peek(addr),
        }
    }

    /// Read a little-endian 16-bit word for debugging.
    pub fn peek_u16(&self, addr: u16) -> (r: u16)
        requires
            self.wf(),
        ensures
            r == self.peek_spec(addr) as u16 + 256 * self.peek_spec(addr.wrapping_add(1)) as u16,
    {
        match self {
            AnyMachine::Nc1020(m) => m.peek_u16(addr),
            AnyMachine::Pc1000(m) => m.peek_u16(addr),
            AnyMachine::Cc800(m) => m.peek_u16(addr),
            AnyMachine::Nc2000(m) => m.peek_u16(addr),
        }
    }

    /// The LCD controller.
    pub fn lcd(&self) -> (r: &Lcd)
        ensures
            *r == self.lcd_spec(),
    {
        match self {
            AnyMachine::Nc1020(m) => &m.lcd,
            AnyMachine::Pc1000(m) => &m.lcd,
            AnyMachine::Cc800(m) => &m.lcd,
            AnyMachine::Nc2000(m) => &m.lcd,
        }
    }

    /// Move pending audio samples to `out`.
    pub fn drain_audio(&mut self, out: &mut Vec<i16>)
        requires
            old(self).wf(),
        ensures
            final(self).wf(),
            final(self).model_spec() == old(self).model_spec(),
            final(out)@ == old(out)@ + old(self).pending_audio(),
            final(self).pending_audio().len() == 0,
            final(self).firmware() == old(self).firmware(),
    {
        match self {
            AnyMachine::Nc1020(m) => m.drain_audio(out),
            AnyMachine::Pc1000(m) => m.drain_audio(out),
            AnyMachine::Cc800(m) => m.drain_audio(out),
            AnyMachine::Nc2000(m) => m.drain_audio(out),
        }
    }

    /// What `set_speed_up` does: the NC1020 timer takes the mode; the other
    /// models have none and stay as they are.
    pub open spec fn speed_up_post(&self, after: AnyMachine, speed_up: bool) -> bool {
        match (*self, after) {
            (AnyMachine::Nc1020(a), AnyMachine::Nc1020(b)) => b.timer.speed_up_spec() == speed_up
                && b == (Nc1020Machine { timer: b.timer, ..a }),
            (AnyMachine::Nc1020(a), _) => false,
            _ => after == *self,
        }
    }

    /// Enable/disable speed-up mode (only the NC1020 timer has one).
    pub fn set_speed_up(&mut self, speed_up: bool)
        requires
            old(self).wf(),
        ensures
            final(self).wf(),
            final(self).model_spec() == old(self).model_spec(),
            old(self).speed_up_post(*final(self), speed_up),
            final(self).firmware() == old(self).firmware(),
    {
        match self {
            AnyMachine::Nc1020(m) => m.set_speed_up(speed_up),
            _ => {},
        }
    }

    /// Size of the NOR dump this model loads (the NC2000 loads none).
    pub open spec fn nor_size_spec(&self) -> int {
        if self is Nc1020 {
            0x10_0000
        } else {
            0x8_0000
        }
    }

    /// The NOR contents in the layout a dump is written in.
    pub open spec fn nor_dump_spec(&self) -> Seq<u8> {
        match self {
            AnyMachine::Nc1020(m) => half_swap(m.nor@),
            AnyMachine::Pc1000(m) => if m.nor_swapped {
                half_swap(m.nor@)
            } else {
                m.nor@
            },
            AnyMachine::Cc800(m) => half_swap(m.nor@),
            AnyMachine::Nc2000(_) => Seq::empty(),
        }
    }

    /// Whether a dump loaded now is written back in the layout it came in:
    /// always, but on a PC1000 whose ROM-time NOR image was half-swapped
    /// (its later dumps are loaded as they are and written back swapped).
    pub open spec fn nor_round_trips(&self) -> bool {
        match self {
            AnyMachine::Pc1000(m) => !m.nor_swapped,
            AnyMachine::Nc2000(_) => false,
            _ => true,
        }
    }

    /// What `load_rom` does: the model's own image loading.
    pub open spec fn load_rom_post(&self, after: AnyMachine, files: RomFiles, r: Result<(), MachineError>) -> bool {
        match (*self, after) {
            (AnyMachine::Nc1020(a), AnyMachine::Nc1020(b)) => a.load_rom_post(b, files, r),
            (AnyMachine::Pc1000(a), AnyMachine::Pc1000(b)) => a.load_rom_post(b, files, r),
            (AnyMachine::Cc800(a), AnyMachine::Cc800(b)) => a.load_rom_post(b, files, r),
            (AnyMachine::Nc2000(a), AnyMachine::Nc2000(b)) => a.load_rom_post(b, files, r),
            _ => false,
        }
    }

    /// What `load_nor` does: the model's own NOR loading; the NC2000 has
    /// none and refuses.
    pub open spec fn load_nor_post(&self, after: AnyMachine, data: Seq<u8>, r: Result<(), MachineError>) -> bool {
        match (*self, after) {
            (AnyMachine::Nc1020(a), AnyMachine::Nc1020(b)) => a.load_nor_post(b, data, r),
            (AnyMachine::Pc1000(a), AnyMachine::Pc1000(b)) => a.load_nor_post(b, data, r),
            (AnyMachine::Cc800(a), AnyMachine::Cc800(b)) => a.load_nor_post(b, data, r),
            (AnyMachine::Nc2000(a), AnyMachine::Nc2000(b)) => r == Err::<(), MachineError>(
                MachineError::NorUnsupported,
            ) && a == b,
            _ => false,
        }
    }

    /// Load a NOR Flash dump (the NC2000 has no NOR loading).  Writing the
    /// NOR back out afterwards gives the dump's first `nor_size_spec` bytes.
    pub fn load_nor(&mut self, data: &[u8]) -> (r: Result<(), MachineError>)
        requires
            old(self).wf(),
        ensures
            final(self).wf(),
            final(self).model_spec() == old(self).model_spec(),
            (*old(self)) is Nc2000 ==> r == Err::<(), MachineError>(MachineError::NorUnsupported)
                && *final(self) == *old(self),
            !((*old(self)) is Nc2000) && data@.len() < old(self).nor_size_spec() ==> r == Err::<(), MachineError>(
                MachineError::NorTooSmall { expected: old(self).nor_size_spec() as usize, got: data@.len() as usize },
            ) && *final(self) == *old(self),
            !((*old(self)) is Nc2000) && data@.len() >= old(self).nor_size_spec() ==> {
                let d = data@.subrange(0, old(self).nor_size_spec());
                &&& r is Ok
                &&& final(self).nor_round_trips() == old(self).nor_round_trips()
                &&& final(self).nor_dump_spec() == if old(self).nor_round_trips() { d } else { half_swap(d) }
            },
            old(self).load_nor_post(*final(self), data@, r),
            final(self).firmware() == old(self).firmware(),
    {
        match self {
            AnyMachine::Nc1020(m) => {
                let r = m.load_nor_data(data);
                proof {
                    if data@.len() >= 0x10_0000 {
                        law_half_swap_involution(data@.subrange(0, 0x10_0000));
                    }
                }
                r
            },
            AnyMachine::Pc1000(m) => m.load_nor_data(data),
            AnyMachine::Cc800(m) => {
                let r = m.load_nor_data(data);
                proof {
                    if data@.len() >= 0x8_0000 {
                        law_half_swap_involution(data@.subrange(0, 0x8_0000));
                    }
                }
                r
            },
            AnyMachine::Nc2000(_) => Err(MachineError::NorUnsupported),
        }
    }

    /// The NOR Flash contents in dump layout (the NC2000 has no NOR saving).
    pub fn save_nor(&self) -> (r: Result<Vec<u8>, MachineError>)
        ensures
            self is Nc2000 ==> r == Err::<Vec<u8>, MachineError>(MachineError::NorUnsupported),
            !(self is Nc2000) ==> r is Ok && r.unwrap()@ == self.nor_dump_spec(),
    {
        match self {
            AnyMachine::Nc1020(m) => Ok(m.save_nor_data()),
            AnyMachine::Pc1000(m) => Ok(m.save_nor_data()),
            AnyMachine::Cc800(m) => Ok(m.save_nor_data()),
            AnyMachine::Nc2000(_) => Err(MachineError::NorUnsupported),
        }
    }

    /// Capture a save state.
    pub fn save_state(&self, cpu: &Cpu) -> (r: SaveState)
        requires
            self.wf(),
        ensures
            r.cpu == *cpu,
            self.save_state_post(*cpu, r),
            r.wf(),
    {
        match self {
            AnyMachine::Nc1020(m) => m.save_state(cpu),
            AnyMachine::Pc1000(m) => m.save_state(cpu),
            AnyMachine::Cc800(m) => m.save_state(cpu),
            AnyMachine::Nc2000(m) => m.save_state(cpu),
        }
    }

    /// Restore a save state.
    pub fn load_state(&mut self, cpu: &mut Cpu, state: &SaveState)
        requires
            old(self).wf(),
            state.wf(),
        ensures
            final(self).wf(),
            final(self).model_spec() == old(self).model_spec(),
            *final(cpu) == state.cpu,
            old(self).load_state_post(*final(self), *final(cpu), *state),
            final(self).firmware() == old(self).firmware(),
    {
        match self {
            AnyMachine::Nc1020(m) => m.load_state(cpu, state),
            AnyMachine::Pc1000(m) => m.load_state(cpu, state),
            AnyMachine::Cc800(m) => m.load_state(cpu, state),
            AnyMachine::Nc2000(m) => m.load_state(cpu, state),
        }
    }
}

impl Machine for AnyMachine {
    open spec fn machine_inv(&self) -> bool {
        self.wf()
    }

    open spec fn machine_model(&self) -> MachineModel {
        self.model_spec()
    }

    open spec fn debug_byte(&self, addr: u16) -> u8 {
        self.peek_spec(addr)
    }

    open spec fn lcd_view(&self) -> Lcd {
        self.lcd_spec()
    }

    open spec fn asleep(&self) -> bool {
        match self {
            AnyMachine::Nc1020(m) => m.asleep(),
            AnyMachine::Pc1000(m) => m.asleep(),
            AnyMachine::Cc800(m) => m.asleep(),
            AnyMachine::Nc2000(m) => m.asleep(),
        }
    }

    open spec fn nor_image(&self) -> Option<Seq<u8>> {
        if self is Nc2000 {
            None
        } else {
            Some(self.nor_dump_spec())
        }
    }

    open spec fn firmware_identity(&self) -> u64 {
        match self {
            AnyMachine::Nc1020(m) => m.firmware_identity(),
            AnyMachine::Pc1000(m) => m.firmware_identity(),
            AnyMachine::Cc800(m) => m.firmware_identity(),
            AnyMachine::Nc2000(m) => m.firmware_identity(),
        }
    }


    fn model(&self) -> (r: MachineModel) {
        AnyMachine::model(self)
    }

    fn reset(&mut self)
        ensures
            old(self).reset_post(*final(self)),
    {
        AnyMachine::reset(self)
    }

    fn load_rom(&mut self, files: &RomFiles) -> (r: Result<(), MachineError>)
        ensures
            old(self).load_rom_post(*final(self), *files, r),
    {
        match self {
            AnyMachine::Nc1020(m) => m.load_rom(files),
            AnyMachine::Pc1000(m) => m.load_rom(files),
            AnyMachine::Cc800(m) => m.load_rom(files),
            AnyMachine::Nc2000(m) => m.load_rom_impl(files),
        }
    }

    fn set_key(&mut self, key_id: u8, pressed: bool)
        ensures
            old(self).set_key_post(*final(self), key_id, pressed),
    {
        AnyMachine::set_key(self, key_id, pressed)
    }

    fn is_sleeping(&self) -> (r: bool) {
        AnyMachine::is_sleeping(self)
    }

    fn step(&mut self, cpu: &mut Cpu) -> (n: u64)
        ensures
            old(self).step_post(*final(self), *old(cpu), *final(cpu), n),
    {
        AnyMachine::step(self, cpu)
    }

    fn end_of_frame(&mut self, cpu: &mut Cpu)
        ensures
            old(self).end_of_frame_post(*final(self), *old(cpu), *final(cpu)),
    {
        AnyMachine::end_of_frame(self, cpu)
    }

    fn peek(&self, addr: u16) -> (r: u8) {
        AnyMachine::peek(self, addr)
    }

    fn peek_u16(&self, addr: u16) -> (r: u16) {
        AnyMachine::peek_u16(self, addr)
    }

    fn lcd(&self) -> (r: &Lcd) {
        AnyMachine::lcd(self)
    }

    fn drain_audio(&mut self, out: &mut Vec<i16>)
        ensures
            final(out)@ == old(out)@ + old(self).pending_audio(),
            final(self).pending_audio().len() == 0,
    {
        AnyMachine::drain_audio(self, out)
    }

    fn load_nor(&mut self, data: &[u8]) -> (r: Result<(), MachineError>)
        ensures
            old(self).load_nor_post(*final(self), data@, r),
    {
        AnyMachine::load_nor(self, data)
    }

    fn save_nor(&self) -> (r: Result<Vec<u8>, MachineError>) {
        AnyMachine::save_nor(self)
    }

    fn set_speed_up(&mut self, speed_up: bool)
        ensures
            old(self).speed_up_post(*final(self), speed_up),
    {
        AnyMachine::set_speed_up(self, speed_up)
    }

    fn save_state(&self, cpu: &Cpu) -> (r: SaveState)
        ensures
            self.save_state_post(*cpu, r),
    {
        AnyMachine::save_state(self, cpu)
    }

    fn persistent_state_identity(&self) -> (r: u64) {
        match self {
            AnyMachine::Nc1020(m) => m.persistent_state_identity(),
            AnyMachine::Pc1000(m) => m.persistent_state_identity(),
            AnyMachine::Cc800(m) => m.persistent_state_identity(),
            AnyMachine::Nc2000(m) => m.persistent_state_identity(),
        }
    }

    fn load_state(&mut self, cpu: &mut Cpu, state: &SaveState)
        ensures
            old(self).load_state_post(*final(self), *final(cpu), *state),
    {
        AnyMachine::load_state(self, cpu, state)
    }
}

/// Restoring a save state on a machine of the same model gives back the
/// CPU, the saved RAM and the IO registers it was taken with.
pub proof fn law_save_state_round_trip(
    m: AnyMachine,
    cpu: Cpu,
    st: SaveState,
    target: AnyMachine,
    after: AnyMachine,
    cpu1: Cpu,
)
    requires
        m.wf(),
        target.wf(),
        target.model_spec() == m.model_spec(),
        m.save_state_post(cpu, st),
        target.load_state_post(after, cpu1, st),
    ensures
        cpu1 == cpu,
        after.saved_ram() == m.saved_ram(),
        after.saved_io() == m.saved_io(),
{
    match (m, target, after) {
        (AnyMachine::Nc2000(a), AnyMachine::Nc2000(t), AnyMachine::Nc2000(b)) => {
            assert(b.ram@.subrange(0, 0x6000) =~= a.ram@.subrange(0, 0x6000));
        },
        (AnyMachine::Pc1000(a), AnyMachine::Pc1000(t), AnyMachine::Pc1000(b)) => {
            assert(st.io@.subrange(0, 0x40) =~= st.io@);
            assert(st.ram@.subrange(0, 0x1_0000) =~= st.ram@);
        },
        (AnyMachine::Cc800(a), AnyMachine::Cc800(t), AnyMachine::Cc800(b)) => {
            assert(st.io@.subrange(0, 0x40) =~= st.io@);
            assert(st.ram@.subrange(0, 0x1_0000) =~= st.ram@);
        },
        _ => {},
    }
}

/// Bytes at offset 8MB of a CC800 system ROM: its second volume begins
/// with a copy of the boot page.
pub open spec fn cc800_volume1_mark() -> Seq<u8> {
    seq![0x4Cu8, 0x4A, 0x88, 0xEA, 0x60, 0xEA]
}

/// Whether NAND-based images are an NC3000's: a NAND image over 60MB, or
/// a 1MB NOR image beside the NAND.
pub open spec fn nc3000_images(files: RomFiles) -> bool {
    (files.nand is Some && files.nand.unwrap()@.len() > 0x3C0_0000) || (files.nor is Some
        && files.nor.unwrap()@.len() == 0x10_0000)
}

/// The model that the images suggest: NAND images mean an NC3000 (see
/// [`nc3000_images`]) or else an NC2000; a 24MB ROM an NC1020; a 12MB ROM
/// a PC1000; a 16MB ROM a CC800 when its second volume starts with the
/// boot-page copy, else a PC1000; anything else an NC1020.
pub open spec fn detect_model_spec(files: RomFiles) -> MachineModel {
    if files.nand is Some || files.nand0 is Some {
        if nc3000_images(files) {
            MachineModel::Nc3000
        } else {
            MachineModel::Nc2000
        }
    } else if files.rom is Some {
        let d = files.rom.unwrap()@;
        if d.len() == 0x180_0000 {
            MachineModel::Nc1020
        } else if d.len() == 0xC0_0000 {
            MachineModel::Pc1000
        } else if d.len() == 0x100_0000 {
            if d.subrange(0x80_0000, 0x80_0006) == cc800_volume1_mark() {
                MachineModel::Cc800
            } else {
                MachineModel::Pc1000
            }
        } else {
            MachineModel::Nc1020
        }
    } else {
        MachineModel::Nc1020
    }
}

/// Guess the machine model from the firmware images.
pub fn detect_model(files: &RomFiles) -> (r: MachineModel)
    ensures
        r == detect_model_spec(*files),
{
    if files.nand.is_some() || files.nand0.is_some() {
        let big_nand = match &files.nand {
            Some(nand) => nand.len() > 0x3C0_0000,
            None => false,
        };
        let nor_1m = match &files.nor {
            Some(nor) => nor.len() == 0x10_0000,
            None => false,
        };
        if big_nand || nor_1m {
            return MachineModel::Nc3000;
        }
        return MachineModel::Nc2000;
    }
    match &files.rom {
        Some(rom) => {
            let len = rom.len();
            if len == 0x180_0000 {
                MachineModel::Nc1020
            } else if len == 0xC0_0000 {
                MachineModel::Pc1000
            } else if len == 0x100_0000 {
                let mark: [u8; 6] = [0x4C, 0x4A, 0x88, 0xEA, 0x60, 0xEA];
                let mut k: usize = 0;
                let mut same = true;
                while k < 6
                    invariant
                        k <= 6,
                        rom@.len() == 0x100_0000,
                        mark@ == cc800_volume1_mark(),
                        same == (forall|j: int| 0 <= j < k ==> rom@[0x80_0000 + j] == mark@[j]),
                    decreases 6 - k,
                {
                    if rom[0x80_0000 + k] != mark[k] {
                        same = false;
                    }
                    k += 1;
                }
                proof {
                    let sub = rom@.subrange(0x80_0000, 0x80_0006);
                    if same {
                        assert(sub =~= mark@);
                    } else {
                        let j = choose|j: int| 0 <= j < 6 && rom@[0x80_0000 + j] != mark@[j];
                        assert(sub[j] != mark@[j]);
                    }
                }
                if same {
                    MachineModel::Cc800
                } else {
                    MachineModel::Pc1000
                }
            } else {
                MachineModel::Nc1020
            }
        },
        None => MachineModel::Nc1020,
    }
}

/// Create a machine for the given model, loading its images.
pub fn create_machine(model: MachineModel, files: &RomFiles) -> (r: Result<AnyMachine, MachineError>)
    ensures
        model == MachineModel::Nc3000 ==> r == Err::<AnyMachine, MachineError>(MachineError::UnsupportedModel { model }),
        r matches Ok(m) ==> m.wf() && m.model_spec() == model,
        r matches Ok(m) ==> m.built_from(*files),
        model == MachineModel::Nc1020 ==> (r is Err <==> (files.rom is Some && files.rom.unwrap()@.len() < 0x180_0000)
            || (files.nor is Some && files.nor.unwrap()@.len() < 0x10_0000)),
        model == MachineModel::Pc1000 ==> (r is Err <==> (files.rom is Some && files.rom.unwrap()@.len() != 0xC0_0000
            && files.rom.unwrap()@.len() != 0x100_0000) || (files.nor is Some && files.nor.unwrap()@.len() < 0x8_0000)),
        model == MachineModel::Cc800 ==> (r is Err <==> (files.rom is Some && files.rom.unwrap()@.len() < 0x100_0000)
            || (files.nor is Some && files.nor.unwrap()@.len() < 0x8_0000)),
        model == MachineModel::Nc2000 ==> (r is Err <==> files.nor is Some && files.nor.unwrap()@.len() < 0x8_0000),
{
    match model {
        MachineModel::Nc1020 => match Nc1020Machine::new(files) {
            Ok(m) => Ok(AnyMachine::Nc1020(m)),
            Err(e) => Err(e),
        },
        MachineModel::Pc1000 => match Pc1000Machine::new(files) {
            Ok(m) => Ok(AnyMachine::Pc1000(m)),
            Err(e) => Err(e),
        },
        MachineModel::Cc800 => match Cc800Machine::new(files) {
            Ok(m) => Ok(AnyMachine::Cc800(m)),
            Err(e) => Err(e),
        },
        MachineModel::Nc2000 => match Nc2000Machine::new(files) {
            Ok(m) => Ok(AnyMachine::Nc2000(m)),
            Err(e) => Err(e),
        },
        MachineModel::Nc3000 => Err(MachineError::UnsupportedModel { model }),
    }
}

/// The total of the cycle counts.
pub open spec fn total_cycles(ns: Seq<u64>) -> int
    decreases ns.len(),
{
    if ns.len() == 0 {
        0
    } else {
        total_cycles(ns.drop_last()) + ns.last()
    }
}

/// Step `i` of a run takes machine and CPU from `ms[i]`, `cs[i]` to
/// `ms[i + 1]`, `cs[i + 1]` in `ns[i]` cycles.
pub open spec fn step_at(ms: Seq<AnyMachine>, cs: Seq<Cpu>, ns: Seq<u64>, i: int) -> bool {
    ms[i].step_post(ms[i + 1], cs[i], cs[i + 1], ns[i])
}

/// `ms` and `cs` are the machine and CPU states of a run of steps that
/// took `ns` cycles.
pub open spec fn stepped(ms: Seq<AnyMachine>, cs: Seq<Cpu>, ns: Seq<u64>) -> bool {
    &&& ms.len() == ns.len() + 1
    &&& cs.len() == ns.len() + 1
    &&& forall|i: int| 0 <= i < ns.len() ==> #[trigger] step_at(ms, cs, ns, i)
}

/// One frame from `m0`, `c0` to `m1`, `c1`: steps until a frame's worth of
/// cycles has passed (and no longer), then the frame end.
pub open spec fn frame_post(m0: AnyMachine, c0: Cpu, m1: AnyMachine, c1: Cpu) -> bool {
    exists|ms: Seq<AnyMachine>, cs: Seq<Cpu>, ns: Seq<u64>|
        #[trigger] stepped(ms, cs, ns)
        && ms[0] == m0
        && cs[0] == c0
        && ns.len() > 0
        && total_cycles(ns) >= CYCLES_PER_FRAME
        && total_cycles(ns.drop_last()) < CYCLES_PER_FRAME
        && ms.last().end_of_frame_post(m1, cs.last(), c1)
}

/// Main emulator.
pub struct Emulator {
    /// CPU state
    pub cpu: Cpu,
    /// Model-specific hardware
    pub machine: AnyMachine,
    /// Frame counter
    pub frame_count: u64,
    /// Speed-up mode
    pub speed_up: bool,
}

impl Emulator {
    /// The machine keeps its invariant.
    pub open spec fn wf(&self) -> bool {
        self.machine.wf()
    }

    /// The reset vector as the machine shows it.
    pub open spec fn reset_vector(&self) -> u16 {
        (self.machine.peek_spec(RESET_VECTOR) as u16 + 256 * self.machine.peek_spec((RESET_VECTOR + 1) as u16) as u16) as u16
    }

    /// Create an emulator for the given model, loading its images; the
    /// machine is reset and the CPU starts at the reset vector.
    pub fn new(model: MachineModel, files: &RomFiles) -> (r: Result<Self, MachineError>)
        ensures
            r is Err <==> create_machine_fails(model, files),
            model == MachineModel::Nc3000 ==> r == Err::<Self, MachineError>(MachineError::UnsupportedModel { model }),
            r matches Ok(e) ==> {
                &&& e.wf()
                &&& e.machine.model_spec() == model
                &&& exists|b: AnyMachine| #[trigger] b.built_from(*files) && b.reset_post(e.machine)
                &&& e.cpu.pc == e.reset_vector()
                &&& e.cpu.a == 0 && e.cpu.x == 0 && e.cpu.y == 0
                &&& e.cpu.sp == 0xFF
                &&& e.cpu.ps == FLAG_I | FLAG_U
                &&& e.cpu.cycles == 0
                &&& !e.cpu.irq_pending && !e.cpu.nmi_pending
                &&& e.frame_count == 0
                &&& !e.speed_up
            },
    {
        let mut machine = match create_machine(model, files) {
            Ok(m) => m,
            Err(e) => {
                return Err(e);
            },
        };
        let ghost built = machine;
        machine.reset();
        proof {
            assert(built.built_from(*files) && built.reset_post(machine));
        }
        let mut cpu = Cpu::new();
        cpu.pc = machine.peek_u16(RESET_VECTOR);
        Ok(Emulator { cpu, machine, frame_count: 0, speed_up: false })
    }

    /// Convenience constructor for the NC1020 model (ROM and optional NOR
    /// images).
    pub fn from_rom(rom: Vec<u8>, nor: Option<Vec<u8>>) -> (r: Result<Self, MachineError>)
        ensures
            r is Err <==> rom@.len() < 0x180_0000 || (nor is Some && nor.unwrap()@.len() < 0x10_0000),
            r matches Ok(e) ==> e.wf() && e.machine.model_spec() == MachineModel::Nc1020 && e.cpu.pc == e.reset_vector(),
            r matches Ok(e) ==> {
                let files = (RomFiles { rom: Some(rom), nor: nor, nand: None, nand0: None });
                &&& exists|b: AnyMachine| #[trigger] b.built_from(files) && b.reset_post(e.machine)
                &&& e.cpu.a == 0 && e.cpu.x == 0 && e.cpu.y == 0
                &&& e.cpu.sp == 0xFF
                &&& e.cpu.ps == FLAG_I | FLAG_U
                &&& e.cpu.cycles == 0
                &&& !e.cpu.irq_pending && !e.cpu.nmi_pending
                &&& e.frame_count == 0
                &&& !e.speed_up
            },
    {
        let files = RomFiles::new(Some(rom), nor, None, None);
        Self::new(MachineModel::Nc1020, &files)
    }

    /// Reset to the power-on state: machine reset, CPU reset at the reset
    /// vector, frame counter cleared.
    pub fn reset(&mut self)
        requires
            old(self).wf(),
        ensures
            final(self).wf(),
            final(self).machine.model_spec() == old(self).machine.model_spec(),
            old(self).machine.reset_post(final(self).machine),
            final(self).cpu.pc == final(self).reset_vector(),
            final(self).cpu.a == 0 && final(self).cpu.x == 0 && final(self).cpu.y == 0,
            final(self).cpu.sp == 0xFF,
            final(self).cpu.ps == FLAG_I | FLAG_U,
            !final(self).cpu.irq_pending && !final(self).cpu.nmi_pending,
            final(self).cpu.cycles == old(self).cpu.cycles,
            final(self).frame_count == 0,
            final(self).speed_up == old(self).speed_up,
            final(self).machine.firmware() == old(self).machine.firmware(),
    {
        self.machine.reset();
        self.cpu.reset(0);
        let reset_vec = self.machine.peek_u16(RESET_VECTOR);
        self.cpu.pc = reset_vec;
        self.frame_count = 0;
    }

    /// Load a NOR Flash dump (models with NOR only); see
    /// [`AnyMachine::load_nor`].
    pub fn load_nor(&mut self, data: &[u8]) -> (r: Result<(), MachineError>)
        requires
            old(self).wf(),
        ensures
            final(self).wf(),
            final(self).cpu == old(self).cpu,
            final(self).frame_count == old(self).frame_count,
            final(self).machine.model_spec() == old(self).machine.model_spec(),
            old(self).machine is Nc2000 ==> r == Err::<(), MachineError>(MachineError::NorUnsupported),
            !(old(self).machine is Nc2000) && data@.len() < old(self).machine.nor_size_spec() ==> r == Err::<
                (),
                MachineError,
            >(
                MachineError::NorTooSmall {
                    expected: old(self).machine.nor_size_spec() as usize,
                    got: data@.len() as usize,
                },
            ),
            !(old(self).machine is Nc2000) && data@.len() >= old(self).machine.nor_size_spec() ==> {
                let d = data@.subrange(0, old(self).machine.nor_size_spec());
                &&& r is Ok
                &&& final(self).machine.nor_dump_spec() == if old(self).machine.nor_round_trips() {
                    d
                } else {
                    half_swap(d)
                }
            },
            final(self).machine.firmware() == old(self).machine.firmware(),
    {
        self.machine.load_nor(data)
    }

    /// The NOR Flash contents in dump layout (models with NOR only).
    pub fn save_nor(&self) -> (r: Result<Vec<u8>, MachineError>)
        ensures
            self.machine is Nc2000 ==> r == Err::<Vec<u8>, MachineError>(MachineError::NorUnsupported),
            !(self.machine is Nc2000) ==> r is Ok && r.unwrap()@ == self.machine.nor_dump_spec(),
    {
        self.machine.save_nor()
    }

    /// Set a key state.
    pub fn set_key(&mut self, key_id: u8, pressed: bool)
        requires
            old(self).wf(),
            old(self).machine is Nc1020 ==> key_id < 64,
        ensures
            final(self).wf(),
            old(self).machine.set_key_post(final(self).machine, key_id, pressed),
            final(self).cpu == old(self).cpu,
            final(self).frame_count == old(self).frame_count,
            final(self).speed_up == old(self).speed_up,
            final(self).machine.firmware() == old(self).machine.firmware(),
    {
        self.machine.set_key(key_id, pressed);
    }

    /// Set speed-up mode.
    pub fn set_speed_up(&mut self, speed_up: bool)
        requires
            old(self).wf(),
        ensures
            final(self).wf(),
            final(self).speed_up == speed_up,
            final(self).cpu == old(self).cpu,
            old(self).machine.speed_up_post(final(self).machine, speed_up),
            final(self).frame_count == old(self).frame_count,
            final(self).machine.firmware() == old(self).machine.firmware(),
    {
        self.speed_up = speed_up;
        self.machine.set_speed_up(speed_up);
    }

    /// Run one frame: steps until at least a frame's worth of cycles has
    /// passed, then the frame end; the frame counter advances by one.
    pub fn run_frame(&mut self)
        requires
            old(self).wf(),
        ensures
            final(self).wf(),
            final(self).machine.model_spec() == old(self).machine.model_spec(),
            final(self).frame_count == (if old(self).frame_count == u64::MAX { 0 } else { old(self).frame_count + 1 }),
            final(self).machine.firmware() == old(self).machine.firmware(),
            frame_post(old(self).machine, old(self).cpu, final(self).machine, final(self).cpu),
    {
        let target_cycles = CYCLES_PER_FRAME;
        let mut cycles_this_frame: u64 = 0;
        let ghost mut ms: Seq<AnyMachine> = seq![self.machine];
        let ghost mut cs: Seq<Cpu> = seq![self.cpu];
        let ghost mut ns: Seq<u64> = Seq::empty();
        while cycles_this_frame < target_cycles
            invariant
                self.wf(),
                self.machine.model_spec() == old(self).machine.model_spec(),
                self.machine.firmware() == old(self).machine.firmware(),
                self.frame_count == old(self).frame_count,
                cycles_this_frame <= 2 * CYCLES_PER_FRAME,
                target_cycles == CYCLES_PER_FRAME,
                stepped(ms, cs, ns),
                ms[0] == old(self).machine,
                cs[0] == old(self).cpu,
                ms.last() == self.machine,
                cs.last() == self.cpu,
                total_cycles(ns) == cycles_this_frame,
                ns.len() > 0 ==> total_cycles(ns.drop_last()) < CYCLES_PER_FRAME,
            decreases 2 * CYCLES_PER_FRAME - cycles_this_frame,
        {
            let ghost m0 = self.machine;
            let ghost c0 = self.cpu;
            let ghost before = cycles_this_frame;
            let cycles = self.machine.step(&mut self.cpu);
            cycles_this_frame = cycles_this_frame + cycles;
            proof {
                let ms1 = ms.push(self.machine);
                let cs1 = cs.push(self.cpu);
                let ns1 = ns.push(cycles);
                assert forall|i: int| 0 <= i < ns1.len() implies #[trigger] step_at(ms1, cs1, ns1, i) by {
                    if i < ns.len() {
                        assert(step_at(ms, cs, ns, i));
                        assert(ms1[i] == ms[i] && ms1[i + 1] == ms[i + 1]);
                        assert(cs1[i] == cs[i] && cs1[i + 1] == cs[i + 1]);
                        assert(ns1[i] == ns[i]);
                    } else {
                        assert(ms1[i] == m0 && cs1[i] == c0);
                    }
                }
                assert(ns1.drop_last() =~= ns);
                ms = ms1;
                cs = cs1;
                ns = ns1;
            }
        }
        let ghost ml = self.machine;
        let ghost cl = self.cpu;
        self.machine.end_of_frame(&mut self.cpu);
        self.frame_count = self.frame_count.wrapping_add(1);
        proof {
            assert(ns.len() > 0);
            assert(stepped(ms, cs, ns) && ms[0] == old(self).machine && cs[0] == old(self).cpu
                && ns.len() > 0 && total_cycles(ns) >= CYCLES_PER_FRAME
                && total_cycles(ns.drop_last()) < CYCLES_PER_FRAME
                && ms.last().end_of_frame_post(self.machine, cs.last(), self.cpu));
        }
    }

    /// Read a memory/IO address for debugging.
    pub fn peek(&self, addr: u16) -> (r: u8)
        requires
            self.wf(),
        ensures
            r == self.machine.peek_spec(addr),
    {
        self.machine.peek(addr)
    }

    /// Read a little-endian 16-bit word for debugging.
    pub fn peek_u16(&self, addr: u16) -> (r: u16)
        requires
            self.wf(),
        ensures
            r == self.machine.peek_spec(addr) as u16 + 256 * self.machine.peek_spec(addr.wrapping_add(1)) as u16,
    {
        self.machine.peek_u16(addr)
    }

    /// The LCD as XRGB8888 pixels.
    pub fn framebuffer(&self) -> (r: Vec<u32>)
        requires
            self.wf(),
        ensures
            r@ == Seq::new(12800, |i: int| xrgb(self.machine.lcd_spec().brightness()[i])),
    {
        self.machine.lcd().framebuffer_xrgb8888()
    }

    /// The raw packed framebuffer.
    pub fn framebuffer_raw(&self) -> (r: &[u8])
        ensures
            r@ == self.machine.lcd_spec().fb(),
    {
        self.machine.lcd().framebuffer_raw()
    }

    /// The frame counter.
    pub fn frame_count(&self) -> (r: u64)
        ensures
            r == self.frame_count,
    {
        self.frame_count
    }

    /// The LCD width.
    pub fn lcd_width(&self) -> (r: usize)
        ensures
            r == LCD_WIDTH,
    {
        LCD_WIDTH
    }

    /// The LCD height.
    pub fn lcd_height(&self) -> (r: usize)
        ensures
            r == LCD_HEIGHT,
    {
        LCD_HEIGHT
    }

    /// The audio sample rate.
    pub fn sample_rate(&self) -> (r: u32)
        ensures
            r == SAMPLE_RATE,
    {
        SAMPLE_RATE
    }

    /// Move pending audio samples to `output`.
    pub fn drain_audio(&mut self, output: &mut Vec<i16>)
        requires
            old(self).wf(),
        ensures
            final(self).wf(),
            final(output)@ == old(output)@ + old(self).machine.pending_audio(),
            final(self).machine.pending_audio().len() == 0,
            final(self).machine.model_spec() == old(self).machine.model_spec(),
            final(self).cpu == old(self).cpu,
            final(self).frame_count == old(self).frame_count,
            final(self).machine.firmware() == old(self).machine.firmware(),
    {
        self.machine.drain_audio(output);
    }

    /// Whether the device is in sleep mode.
    pub fn is_sleeping(&self) -> (r: bool)
        ensures
            self.machine is Nc1020 ==> r == self.machine->Nc1020_0.input.slept,
            self.machine is Cc800 ==> r == self.machine->Cc800_0.lcd_off,
            self.machine is Pc1000 || self.machine is Nc2000 ==> !r,
    {
        self.machine.is_sleeping()
    }

    /// The CPU program counter.
    pub fn pc(&self) -> (r: u16)
        ensures
            r == self.cpu.pc,
    {
        self.cpu.pc
    }

    /// The active machine model.
    pub fn model(&self) -> (r: MachineModel)
        ensures
            r == self.machine.model_spec(),
    {
        self.machine.model()
    }

    /// The parts of a persistent session: the format version, the model,
    /// the firmware fingerprint, the CPU, the frame counter, the speed-up
    /// mode and the machine state.
    pub fn session(&self) -> (r: (u32, MachineModel, u64, Cpu, u64, bool, &AnyMachine))
        ensures
            r.0 == PERSISTENT_STATE_VERSION,
            r.1 == self.machine.model_spec(),
            r.2 == self.machine.firmware_identity(),
            r.3 == self.cpu,
            r.4 == self.frame_count,
            r.5 == self.speed_up,
            *r.6 == self.machine,
    {
        let identity = Machine::persistent_state_identity(&self.machine);
        (PERSISTENT_STATE_VERSION, self.machine.model(), identity, self.cpu, self.frame_count, self.speed_up, &self.machine)
    }

    /// Resume a persistent session: its header must carry the current format
    /// version, this emulator's model and firmware fingerprint, and its
    /// machine state must be of that model; then the CPU, frame counter,
    /// speed-up mode and machine state are taken over.  A refused session
    /// changes nothing.  `machine` is a machine state this library built,
    /// as [`Emulator::session`] hands it out.
    pub fn restore_session(
        &mut self,
        version: u32,
        model: MachineModel,
        identity: u64,
        cpu: Cpu,
        frame_count: u64,
        speed_up: bool,
        machine: AnyMachine,
    ) -> (r: Result<(), MachineError>)
        requires
            old(self).wf(),
            machine.wf(),
        ensures
            final(self).wf(),
            r is Ok <==> version == PERSISTENT_STATE_VERSION && model == old(self).machine.model_spec()
                && identity == old(self).machine.firmware_identity() && machine.model_spec() == model,
            version != PERSISTENT_STATE_VERSION ==> r == Err::<(), MachineError>(
                MachineError::StateVersionMismatch { expected_version: PERSISTENT_STATE_VERSION, got_version: version },
            ),
            version == PERSISTENT_STATE_VERSION && model != old(self).machine.model_spec() ==> r == Err::<(), MachineError>(
                MachineError::StateModelMismatch { expected_model: old(self).machine.model_spec(), got_model: model },
            ),
            version == PERSISTENT_STATE_VERSION && model == old(self).machine.model_spec()
                && identity != old(self).machine.firmware_identity() ==> r == Err::<(), MachineError>(
                MachineError::StateFirmwareMismatch,
            ),
            version == PERSISTENT_STATE_VERSION && model == old(self).machine.model_spec()
                && identity == old(self).machine.firmware_identity() && machine.model_spec() != model ==> r == Err::<
                (),
                MachineError,
            >(MachineError::StateModelMismatch { expected_model: model, got_model: machine.model_spec() }),
            r is Err ==> *final(self) == *old(self),
            r is Ok ==> final(self).cpu == cpu && final(self).frame_count == frame_count
                && final(self).speed_up == speed_up && final(self).machine == machine,
    {
        let expected_model = self.machine.model();
        let expected_identity = Machine::persistent_state_identity(&self.machine);
        match check_persistent_header(version, model, identity, expected_model, expected_identity) {
            Ok(()) => {},
            Err(e) => {
                return Err(e);
            },
        }
        let got_model = machine.model();
        if got_model != model {
            return Err(MachineError::StateModelMismatch { expected_model: model, got_model });
        }
        self.cpu = cpu;
        self.frame_count = frame_count;
        self.speed_up = speed_up;
        self.machine = machine;
        Ok(())
    }

    /// Create a save state.
    pub fn save_state(&self) -> (r: SaveState)
        requires
            self.wf(),
        ensures
            r.cpu == self.cpu,
            self.machine.save_state_post(self.cpu, r),
            r.wf(),
    {
        self.machine.save_state(&self.cpu)
    }

    /// Load a save state.
    pub fn load_state(&mut self, state: &SaveState) -> (r: Result<(), MachineError>)
        requires
            old(self).wf(),
            state.wf(),
        ensures
            final(self).wf(),
            r is Ok,
            final(self).cpu == state.cpu,
            old(self).machine.load_state_post(final(self).machine, final(self).cpu, *state),
            final(self).machine.model_spec() == old(self).machine.model_spec(),
            final(self).frame_count == old(self).frame_count,
            final(self).machine.firmware() == old(self).machine.firmware(),
    {
        self.machine.load_state(&mut self.cpu, state);
        Ok(())
    }
}

/// Whether creating a machine of `model` from `files` fails.
pub open spec fn create_machine_fails(model: MachineModel, files: &RomFiles) -> bool {
    match model {
        MachineModel::Nc1020 => (files.rom is Some && files.rom.unwrap()@.len() < 0x180_0000) || (files.nor is Some
            && files.nor.unwrap()@.len() < 0x10_0000),
        MachineModel::Pc1000 => (files.rom is Some && files.rom.unwrap()@.len() != 0xC0_0000
            && files.rom.unwrap()@.len() != 0x100_0000) || (files.nor is Some && files.nor.unwrap()@.len() < 0x8_0000),
        MachineModel::Cc800 => (files.rom is Some && files.rom.unwrap()@.len() < 0x100_0000) || (files.nor is Some
            && files.nor.unwrap()@.len() < 0x8_0000),
        MachineModel::Nc2000 => files.nor is Some && files.nor.unwrap()@.len() < 0x8_0000,
        MachineModel::Nc3000 => true,
    }
}

} // verus!
