//! JG WAV audio for the NC1020 family.
//!
//! Register 0x20 is the control register (0x80 = stop, 0x40 = reset),
//! 0x22 holds a data byte and 0x23 takes commands (0xC2 = write the byte
//! at the current index, 0xC4 = write and advance, 0x80 = play).  The
//! 32-byte waveform is rendered as a square wave, 44 samples per byte.

use vstd::prelude::*;
use crate::bytes::filled;

verus! {

/// Audio sample rate.
pub const SAMPLE_RATE: u32 = 44100;
/// Waveform buffer size.
pub const WAVE_BUFFER_SIZE: usize = 0x20;
/// Samples rendered per waveform byte.
pub const SAMPLES_PER_BYTE: u32 = 44;
/// Samples per 1/30 s frame.
pub const SAMPLES_PER_FRAME: u32 = 1470;
/// Period, in samples, of the 440 Hz play tone.
pub const TONE_PERIOD: u32 = 100;

/// Audio system state.
#[derive(Clone)]
pub struct Audio {
    /// Waveform buffer (32 bytes)
    pub wave_buffer: [u8; 32],
    /// Waveform flags
    pub wave_flags: u8,
    /// Current write index in the wave buffer
    pub wave_index: u8,
    /// Whether audio is currently playing
    pub playing: bool,
    /// Current playback position (in samples)
    pub playback_pos: u32,
    /// Pending output samples
    pub output_buffer: Vec<i16>,
}

/// Square-wave sample for a waveform byte.
pub open spec fn tone_sample(b: u8) -> i16 {
    if b & 0x80 != 0 { 4000i16 } else { -4000i16 }
}

/// Samples rendered from the first `n` waveform bytes.
pub open spec fn tone_samples(wave: Seq<u8>, n: nat) -> Seq<i16> {
    Seq::new(n * 44, |k: int| tone_sample(wave[k / 44]))
}

/// Sample `i` of a frame of the 440 Hz play tone starting at `pos`.
pub open spec fn frame_sample(pos: u32, i: int) -> i16 {
    if (pos + i) % 100 < 50 { 3000i16 } else { -3000i16 }
}

/// Effect of a command-register write (data byte from register 0x22):
/// 0xC2 stores the byte at the write index, 0xC4 stores it and advances,
/// 0x80 clears the flags and starts playing what was loaded.
pub open spec fn command_post(a: Audio, b: Audio, data: u8, command: u8) -> bool {
    &&& (command == 0xC2 && (a.wave_index as int) < 32 ==> b == (Audio { wave_buffer: b.wave_buffer, ..a })
        && b.wave_buffer@ == a.wave_buffer@.update(a.wave_index as int, data))
    &&& (command == 0xC4 && (a.wave_index as int) < 32 ==> b == (Audio {
        wave_buffer: b.wave_buffer,
        wave_index: (a.wave_index + 1) as u8,
        ..a
    }) && b.wave_buffer@ == a.wave_buffer@.update(a.wave_index as int, data))
    &&& (command == 0x80 && a.wave_index > 0 ==> {
        &&& b.wave_flags == 0
        &&& b.playing
        &&& b.playback_pos == 0
        &&& b.wave_index == 0
        &&& b.wave_buffer == a.wave_buffer
        &&& b.output_buffer@ == tone_samples(a.wave_buffer@, a.wave_index as nat)
    })
    &&& (command == 0x80 && a.wave_index == 0 ==> b == (Audio { wave_flags: 0, ..a }))
    &&& (!(command == 0x80 || ((command == 0xC2 || command == 0xC4) && (a.wave_index as int) < 32)) ==> b == a)
}

/// Effect of a control-register write: 0x80 (stop) and 0x40 (reset) clear
/// the waveform, set the flags to 1 and stop playback; other values are
/// ignored.
pub open spec fn control_post(a: Audio, b: Audio, value: u8) -> bool {
    if value == 0x80 || value == 0x40 {
        &&& b.wave_buffer@ == seq![0u8; 32]
        &&& b.wave_flags == 1
        &&& b.wave_index == 0
        &&& !b.playing
        &&& b.playback_pos == a.playback_pos
        &&& b.output_buffer == a.output_buffer
    } else {
        b == a
    }
}

impl Audio {
    /// The write index never passes the end of the waveform buffer.
    pub open spec fn wf(&self) -> bool {
        self.wave_index <= 32
    }

    /// Create a silent audio system.
    pub fn new() -> (r: Self)
        ensures
            r.wave_buffer@ == seq![0u8; 32],
            r.wave_flags == 0 && r.wave_index == 0,
            !r.playing && r.playback_pos == 0,
            r.output_buffer@.len() == 0,
    {
        Audio {
            wave_buffer: filled(0),
            wave_flags: 0,
            wave_index: 0,
            playing: false,
            playback_pos: 0,
            output_buffer: Vec::new(),
        }
    }

    /// Reset audio state.
    pub fn reset(&mut self)
        ensures
            final(self).wave_buffer@ == seq![0u8; 32],
            final(self).wave_flags == 0 && final(self).wave_index == 0,
            !final(self).playing && final(self).playback_pos == 0,
            final(self).output_buffer@.len() == 0,
    {
        self.wave_buffer = filled(0);
        self.wave_flags = 0;
        self.wave_index = 0;
        self.playing = false;
        self.playback_pos = 0;
        self.output_buffer.clear();
    }

    /// Control register write: 0x80 (stop) and 0x40 (reset) clear the
    /// waveform, set the flags to 1 and stop playback; other values are
    /// ignored.
    pub fn write_control(&mut self, value: u8)
        ensures
            control_post(*old(self), *final(self), value),
    {
        if value == 0x80 || value == 0x40 {
            self.wave_buffer = filled(0);
            self.wave_flags = 1;
            self.wave_index = 0;
            self.playing = false;
            assert(self.wave_buffer@ =~= seq![0u8; 32]);
        }
    }

    /// Command register write with the data byte of register 0x22.
    pub fn write_command(&mut self, data: u8, command: u8)
        requires
            old(self).wf(),
        ensures
            final(self).wf(),
            command_post(*old(self), *final(self), data, command),
    {
        if command == 0xC2 && (self.wave_index as usize) < WAVE_BUFFER_SIZE {
            self.wave_buffer[self.wave_index as usize] = data;
        } else if command == 0xC4 && (self.wave_index as usize) < WAVE_BUFFER_SIZE {
            self.wave_buffer[self.wave_index as usize] = data;
            self.wave_index = self.wave_index + 1;
        } else if command == 0x80 {
            self.wave_flags = 0;
            if self.wave_index > 0 {
                self.playing = true;
                self.playback_pos = 0;
                self.generate_tone();
                self.wave_index = 0;
            }
        }
    }

    /// Render the first `wave_index` waveform bytes as a square wave.
    fn generate_tone(&mut self)
        requires
            old(self).playing,
            old(self).wave_index > 0,
            old(self).wave_index <= 32,
        ensures
            *final(self) == (Audio { output_buffer: final(self).output_buffer, ..*old(self) }),
            final(self).output_buffer@ == tone_samples(old(self).wave_buffer@, old(self).wave_index as nat),
    {
        self.output_buffer.clear();
        let n = self.wave_index as usize;
        let mut i: usize = 0;
        while i < n
            invariant
                n == self.wave_index as usize,
                n <= 32,
                i <= n,
                *self == (Audio { output_buffer: self.output_buffer, ..*old(self) }),
                self.output_buffer@ == tone_samples(old(self).wave_buffer@, i as nat),
            decreases n - i,
        {
            let amplitude: i16 = if self.wave_buffer[i] & 0x80 != 0 { 4000 } else { -4000 };
            let mut j: u32 = 0;
            while j < SAMPLES_PER_BYTE
                invariant
                    n == self.wave_index as usize,
                    n <= 32,
                    i < n,
                    j <= 44,
                    amplitude == tone_sample(old(self).wave_buffer@[i as int]),
                    *self == (Audio { output_buffer: self.output_buffer, ..*old(self) }),
                    self.output_buffer@ == tone_samples(old(self).wave_buffer@, i as nat) + Seq::new(
                        j as nat,
                        |k: int| amplitude,
                    ),
                decreases 44 - j,
            {
                self.output_buffer.push(amplitude);
                proof {
                    assert(Seq::new((j + 1) as nat, |k: int| amplitude) =~= Seq::new(j as nat, |k: int| amplitude).push(amplitude));
                }
                j += 1;
            }
            proof {
                let w = old(self).wave_buffer@;
                assert forall|k: int| 0 <= k < (i + 1) * 44 implies #[trigger] tone_samples(w, (i + 1) as nat)[k]
                    == (tone_samples(w, i as nat) + Seq::new(44, |k: int| amplitude))[k] by {
                    if k >= i * 44 {
                        assert(k / 44 == i) by (nonlinear_arith)
                            requires
                                i * 44 <= k < (i + 1) * 44,
                        ;
                    } else {
                        assert(k / 44 < i) by (nonlinear_arith)
                            requires
                                0 <= k < i * 44,
                        ;
                    }
                }
                assert(tone_samples(w, (i + 1) as nat) =~= tone_samples(w, i as nat) + Seq::new(44, |k: int| amplitude)) by {
                    assert((i + 1) * 44 == i * 44 + 44) by (nonlinear_arith);
                }
            }
            i += 1;
        }
    }

    /// Append a frame of constant-level output (the beeper of the SPDC1016
    /// models).
    pub fn output_frame(&mut self, level: i16)
        ensures
            *final(self) == (Audio { output_buffer: final(self).output_buffer, ..*old(self) }),
            final(self).output_buffer@ == old(self).output_buffer@ + Seq::new(1470, |k: int| level),
    {
        let mut i: u32 = 0;
        while i < SAMPLES_PER_FRAME
            invariant
                i <= 1470,
                *self == (Audio { output_buffer: self.output_buffer, ..*old(self) }),
                self.output_buffer@ == old(self).output_buffer@ + Seq::new(i as nat, |k: int| level),
            decreases 1470 - i,
        {
            self.output_buffer.push(level);
            proof {
                assert(Seq::new((i + 1) as nat, |k: int| level) =~= Seq::new(i as nat, |k: int| level).push(level));
            }
            i += 1;
        }
    }

    /// Move all pending samples to `output`.
    pub fn drain_audio(&mut self, output: &mut Vec<i16>)
        ensures
            final(output)@ == old(output)@ + old(self).output_buffer@,
            final(self).output_buffer@.len() == 0,
            *final(self) == (Audio { output_buffer: final(self).output_buffer, ..*old(self) }),
    {
        output.append(&mut self.output_buffer);
    }

    /// Generate one 1/30 s frame of the 440 Hz play tone while playing.
    /// Returns the number of samples generated; playback stops after two
    /// seconds.
    pub fn generate_frame_samples(&mut self) -> (n: usize)
        requires
            old(self).playback_pos <= 0xFFFF_FFFF - 1470,
        ensures
            !old(self).playing ==> n == 0 && *final(self) == *old(self),
            old(self).playing ==> {
                &&& n == 1470
                &&& final(self).output_buffer@ == old(self).output_buffer@ + Seq::new(
                    1470,
                    |i: int| frame_sample(old(self).playback_pos, i),
                )
                &&& final(self).playback_pos == old(self).playback_pos + 1470
                &&& final(self).playing == (old(self).playback_pos + 1470 <= 88200)
                &&& final(self).wave_buffer == old(self).wave_buffer
                &&& final(self).wave_index == old(self).wave_index
                &&& final(self).wave_flags == old(self).wave_flags
            },
    {
        if !self.playing {
            return 0;
        }
        let pos0 = self.playback_pos;
        let mut i: u32 = 0;
        while i < SAMPLES_PER_FRAME
            invariant
                i <= 1470,
                pos0 == old(self).playback_pos,
                pos0 <= 0xFFFF_FFFF - 1470,
                *self == (Audio { output_buffer: self.output_buffer, ..*old(self) }),
                self.output_buffer@ == old(self).output_buffer@ + Seq::new(i as nat, |k: int| frame_sample(pos0, k)),
            decreases 1470 - i,
        {
            let pos = (pos0 + i) % TONE_PERIOD;
            let sample: i16 = if pos < TONE_PERIOD / 2 { 3000 } else { -3000 };
            self.output_buffer.push(sample);
            proof {
                assert(Seq::new((i + 1) as nat, |k: int| frame_sample(pos0, k)) =~= Seq::new(i as nat, |k: int| frame_sample(pos0, k)).push(sample));
            }
            i += 1;
        }
        self.playback_pos = pos0 + SAMPLES_PER_FRAME;
        if self.playback_pos > SAMPLE_RATE * 2 {
            self.playing = false;
        }
        SAMPLES_PER_FRAME as usize
    }

    /// Whether audio is playing.
    pub fn is_playing(&self) -> (r: bool)
        ensures
            r == self.playing,
    {
        self.playing
    }

    /// Wave flags for register 0x20.
    pub fn wave_flags_reg(&self) -> (r: u8)
        ensures
            r == self.wave_flags,
    {
        self.wave_flags
    }
}

impl Default for Audio {
    fn default() -> (r: Self)
        ensures
            r.wave_buffer@ == seq![0u8; 32],
            r.wave_flags == 0 && r.wave_index == 0,
            !r.playing && r.playback_pos == 0,
            r.output_buffer@.len() == 0,
    {
        Self::new()
    }
}

} // verus!
