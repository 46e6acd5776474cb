//! The sound engine: the running state of the two tone channels, which is
//! advanced with the cycle clock, and the stereo samples that it emits at
//! the output rate.
//!
//! A sample is held as a whole number: the sample `s` stands for the
//! amplitude `s / SAMPLE_SCALE`, which lies between -1 and 1.
use crate::bits::bit;
use crate::bits::test_bit;
use crate::io::IORegisters;
use vstd::prelude::*;

verus! {

/// The cycles that the processor runs in a second.
pub const SOUND_CPU_SPEED: u32 = 4194304;

/// The cycles between two ticks of a channel's length counter (256 Hz).
pub const SOUND_LENGTH_CLOCK_STEP: u64 = 16384;

/// The cycles of one unit of sweep time (128 Hz).
pub const SOUND_SWEEP_CLOCK_STEP: u64 = 32768;

/// The cycles of one unit of envelope time (64 Hz).
pub const SOUND_ENVELOPE_CLOCK_STEP: u64 = 65536;

/// The samples that are emitted in a second, for each side.
pub const OUTPUT_FREQUENCY: u32 = 48000;

/// The size of the sample buffer: one frame's worth of stereo samples.
pub const FRAME_SIZE: usize = 1626;

/// The number that a sample of full amplitude would be.
pub const SAMPLE_SCALE: i32 = 45000;

/// The part of the wave's period, in eighths, for which a duty setting
/// keeps the wave low.
pub open spec fn duty_eighths(duty: u8) -> int {
    if duty == 0 {
        0
    } else if duty == 1 {
        1
    } else if duty == 2 {
        2
    } else {
        4
    }
}

/// A rectangular wave of `frequency` Hz, `step` cycles after its start: -1
/// during the first `low_eighths` eighths of each period, 1 after them, and
/// 0 where the two meet.
pub open spec fn rectangle_wave(step: u64, frequency: u32, low_eighths: int) -> int {
    let phase = (step * frequency) % (SOUND_CPU_SPEED as int);
    if phase * 8 < low_eighths * SOUND_CPU_SPEED {
        -1
    } else if phase * 8 == low_eighths * SOUND_CPU_SPEED {
        0
    } else {
        1
    }
}

/// Whether a clock of the given period ticks during the `cycles` cycles that
/// follow `step`.
pub open spec fn ticks_within(step: u64, cycles: u8, period: int) -> bool {
    step as int / period != (step + cycles) / period
}

/// The number of the output sample that is due after `cycle` cycles.
pub open spec fn sample_index(cycle: int) -> int {
    cycle * OUTPUT_FREQUENCY / (SOUND_CPU_SPEED as int)
}

/// The registers of one tone channel.
#[derive(PartialEq, Eq, Structural, Debug, Clone, Copy)]
pub struct ToneRegisters {
    /// Sweep time, direction and shift (channel 1 only).
    pub sweep: u8,
    /// Wave duty and length counter.
    pub length: u8,
    /// Volume and its envelope.
    pub envelope: u8,
    /// The low eight bits of the frequency.
    pub frequency_lo: u8,
    /// Restart, length enable and the high three bits of the frequency.
    pub frequency_hi: u8,
}

/// The running state of one tone channel.
#[derive(PartialEq, Eq, Structural, Debug, Clone, Copy)]
pub struct ToneState {
    pub running: bool,
    /// The cycles since the channel was last restarted.
    pub step: u64,
}

/// What a channel has become after some cycles, and what it sounds.
#[derive(PartialEq, Eq, Structural, Debug, Clone, Copy)]
pub struct ToneOutcome {
    pub state: ToneState,
    pub regs: ToneRegisters,
    /// The wave times the volume: from -15 to 15.
    pub level: i16,
}

impl ToneRegisters {
    /// The 11-bit frequency setting.
    pub open spec fn frequency(self) -> int {
        self.frequency_lo + (self.frequency_hi % 8) * 256
    }

    pub open spec fn with_frequency(self, frequency: int) -> ToneRegisters {
        ToneRegisters {
            frequency_lo: (frequency % 256) as u8,
            frequency_hi: (self.frequency_hi - self.frequency_hi % 8 + (frequency / 256) % 8) as u8,
            ..self
        }
    }

    /// The registers after a restart was taken: the restart bit is cleared.
    pub open spec fn restarted(self) -> ToneRegisters {
        if bit(self.frequency_hi, 7) {
            ToneRegisters { frequency_hi: (self.frequency_hi % 128) as u8, ..self }
        } else {
            self
        }
    }

    /// The length counter after the cycles: one more where the length
    /// clock ticks.
    pub open spec fn length_after(self, step: u64, cycles: u8) -> int {
        if ticks_within(step, cycles, SOUND_LENGTH_CLOCK_STEP as int) {
            self.length % 64 + 1
        } else {
            (self.length % 64) as int
        }
    }

    /// The registers after the length counter has run, if it is enabled.
    pub open spec fn length_run(self, step: u64, cycles: u8) -> ToneRegisters {
        if bit(self.frequency_hi, 6) && ticks_within(step, cycles, SOUND_LENGTH_CLOCK_STEP as int) {
            ToneRegisters {
                length: (self.length - self.length % 64 + (self.length % 64 + 1) % 64) as u8,
                ..self
            }
        } else {
            self
        }
    }

    /// Whether the length counter, if it is enabled, runs out.
    pub open spec fn expires(self, step: u64, cycles: u8) -> bool {
        bit(self.frequency_hi, 6) && self.length_after(step, cycles) > 63
    }

    /// Whether the sweep clock ticks.
    pub open spec fn sweep_due(self, step: u64, cycles: u8) -> bool {
        (self.sweep / 16) % 8 > 0 && ticks_within(
            step,
            cycles,
            ((self.sweep / 16) % 8) * SOUND_SWEEP_CLOCK_STEP,
        )
    }

    /// The frequency after one sweep: moved by itself shifted right, down
    /// where the direction bit is set and up where it is not, unless that
    /// would leave the range that is allowed.
    pub open spec fn swept_frequency(self) -> int {
        let frequency = self.frequency() as u32;
        let change = frequency >> ((self.sweep % 8) as u32);
        if bit(self.sweep, 3) {
            if frequency - change >= 0 {
                frequency - change
            } else {
                frequency as int
            }
        } else {
            if frequency + change <= 0b111 {
                frequency + change
            } else {
                frequency as int
            }
        }
    }

    pub open spec fn swept(self, step: u64, cycles: u8) -> ToneRegisters {
        if self.sweep_due(step, cycles) {
            self.with_frequency(self.swept_frequency())
        } else {
            self
        }
    }

    /// Whether the envelope clock ticks.
    pub open spec fn envelope_due(self, step: u64, cycles: u8) -> bool {
        self.envelope % 8 > 0 && ticks_within(
            step,
            cycles,
            (self.envelope % 8) * SOUND_ENVELOPE_CLOCK_STEP,
        )
    }

    /// The volume after the envelope has run: one step up or down where
    /// its clock ticks, within 0 to 15.
    pub open spec fn volume_after(self, step: u64, cycles: u8) -> int {
        let volume = self.envelope / 16;
        if self.envelope_due(step, cycles) {
            if bit(self.envelope, 3) {
                if volume < 15 {
                    volume + 1
                } else {
                    volume as int
                }
            } else {
                if volume > 0 {
                    volume - 1
                } else {
                    volume as int
                }
            }
        } else {
            volume as int
        }
    }

    pub open spec fn enveloped(self, step: u64, cycles: u8) -> ToneRegisters {
        if self.envelope_due(step, cycles) {
            ToneRegisters {
                envelope: (self.envelope % 16 + self.volume_after(step, cycles) * 16) as u8,
                ..self
            }
        } else {
            self
        }
    }

    /// The frequency in Hz of the wave that the channel plays.
    pub open spec fn hertz(self) -> u32 {
        (131072int / (2048 - self.frequency())) as u32
    }
}

/// One channel after `cycles` cycles. A set restart bit starts the channel
/// anew. A running channel counts its length, sweeps its frequency if it
/// `sweeps`, plays its wave at the volume that its envelope gives, and
/// moves on by the cycles; a channel that is not running is silent.
pub open spec fn tone_step(state: ToneState, regs: ToneRegisters, cycles: u8, sweeps: bool) -> ToneOutcome {
    let started = if bit(regs.frequency_hi, 7) {
        ToneState { running: true, step: 0 }
    } else {
        state
    };
    let cleared = regs.restarted();
    if !started.running {
        ToneOutcome { state: started, regs: cleared, level: 0 }
    } else {
        let counted = cleared.length_run(started.step, cycles);
        let swept = if sweeps {
            counted.swept(started.step, cycles)
        } else {
            counted
        };
        ToneOutcome {
            state: ToneState {
                running: !cleared.expires(started.step, cycles),
                step: ((started.step + cycles) % 0x1_0000_0000_0000_0000) as u64,
            },
            regs: swept.enveloped(started.step, cycles),
            level: (rectangle_wave(started.step, swept.hertz(), duty_eighths(counted.length / 64))
                * swept.volume_after(started.step, cycles)) as i16,
        }
    }
}

/// What the channels put out on one side: the levels of the channels that
/// are switched to this side, times the side's master volume.
pub open spec fn mixed(first: ToneOutcome, first_on: bool, second: ToneOutcome, second_on: bool, master: u8) -> i16 {
    (((if first.state.running && first_on {
        first.level as int
    } else {
        0
    }) + (if second.state.running && second_on {
        second.level as int
    } else {
        0
    })) * master) as i16
}

impl IORegisters {
    pub open spec fn tone_1(self) -> ToneRegisters {
        ToneRegisters {
            sweep: self.nr10,
            length: self.nr11,
            envelope: self.nr12,
            frequency_lo: self.nr13,
            frequency_hi: self.nr14,
        }
    }

    pub open spec fn tone_2(self) -> ToneRegisters {
        ToneRegisters {
            sweep: 0,
            length: self.nr21,
            envelope: self.nr22,
            frequency_lo: self.nr23,
            frequency_hi: self.nr24,
        }
    }

    pub open spec fn with_tones(self, first: ToneRegisters, second: ToneRegisters) -> IORegisters {
        IORegisters {
            nr11: first.length,
            nr12: first.envelope,
            nr13: first.frequency_lo,
            nr14: first.frequency_hi,
            nr21: second.length,
            nr22: second.envelope,
            nr23: second.frequency_lo,
            nr24: second.frequency_hi,
            ..self
        }
    }
}

/// A sound engine as the contracts see it.
pub struct SoundView {
    pub channel_1: ToneState,
    pub channel_2: ToneState,
    /// The sample buffer, left and right in turn.
    pub samples: Seq<i16>,
    /// The number of samples in the buffer.
    pub sample_pointer: usize,
    /// The cycles that have passed.
    pub last_cycle: u64,
}

impl SoundView {
    /// The sound engine at power-on: both channels at rest and no samples.
    pub open spec fn power_on() -> SoundView {
        SoundView {
            channel_1: ToneState { running: false, step: 0 },
            channel_2: ToneState { running: false, step: 0 },
            samples: Seq::new(FRAME_SIZE as nat, |i: int| 0i16),
            sample_pointer: 0,
            last_cycle: 0,
        }
    }

    /// What holds of every sound engine: the sample buffer has its size.
    pub open spec fn wf(self) -> bool {
        self.samples.len() == FRAME_SIZE
    }

    /// Whether an output sample falls due within the next `cycles` cycles.
    pub open spec fn sample_due(self, cycles: u8) -> bool {
        sample_index(self.last_cycle as int) != sample_index(self.last_cycle + cycles)
    }

    /// The engine and the registers after `cycles` cycles. Nothing moves
    /// while the master switch (bit 7 of NR52) is off. A sample that falls
    /// due is appended to the buffer, and dropped when the buffer is full.
    pub open spec fn step(self, regs: IORegisters, cycles: u8) -> (SoundView, IORegisters) {
        if !bit(regs.nr52, 7) {
            (self, regs)
        } else {
            let first = tone_step(self.channel_1, regs.tone_1(), cycles, true);
            let second = tone_step(self.channel_2, regs.tone_2(), cycles, false);
            let left = mixed(
                first,
                bit(regs.nr51, 0),
                second,
                bit(regs.nr51, 1),
                ((regs.nr50 / 16) % 8) as u8,
            );
            let right = mixed(
                first,
                bit(regs.nr51, 4),
                second,
                bit(regs.nr51, 5),
                (regs.nr50 % 8) as u8,
            );
            let emits = self.sample_due(cycles) && self.sample_pointer + 2 <= FRAME_SIZE;
            (
                SoundView {
                    channel_1: first.state,
                    channel_2: second.state,
                    samples: if emits {
                        self.samples.update(self.sample_pointer as int, left).update(
                            self.sample_pointer + 1,
                            right,
                        )
                    } else {
                        self.samples
                    },
                    sample_pointer: if emits {
                        (self.sample_pointer + 2) as usize
                    } else {
                        self.sample_pointer
                    },
                    last_cycle: ((self.last_cycle + cycles) % 0x1_0000_0000_0000_0000) as u64,
                },
                regs.with_tones(first.regs, second.regs),
            )
        }
    }
}

pub struct Sound {
    pub channel_1_running: bool,
    pub channel_1_step: u64,
    pub channel_2_running: bool,
    pub channel_2_step: u64,
    pub samples: Vec<i16>,
    pub sample_pointer: usize,
    pub last_cycle: u64,
}

impl View for Sound {
    type V = SoundView;

    open spec fn view(&self) -> SoundView {
        SoundView {
            channel_1: ToneState { running: self.channel_1_running, step: self.channel_1_step },
            channel_2: ToneState { running: self.channel_2_running, step: self.channel_2_step },
            samples: self.samples@,
            sample_pointer: self.sample_pointer,
            last_cycle: self.last_cycle,
        }
    }
}

/// Generates a rectangular wave.
fn rectangle_wave_at(step: u64, frequency: u32, low_eighths: u8) -> (wave: i16)
    requires
        low_eighths <= 8,
    ensures
        wave == rectangle_wave(step, frequency, low_eighths as int),
{
    assert(step * frequency <= 0xFFFF_FFFF_FFFF_FFFF * 0xFFFF_FFFF) by (nonlinear_arith)
        requires
            0 <= step <= 0xFFFF_FFFF_FFFF_FFFF,
            0 <= frequency <= 0xFFFF_FFFF,
    ;
    let phase: u128 = (step as u128 * frequency as u128) % (SOUND_CPU_SPEED as u128);
    let edge: u128 = low_eighths as u128 * SOUND_CPU_SPEED as u128;
    if phase * 8 < edge {
        -1
    } else if phase * 8 == edge {
        0
    } else {
        1
    }
}

fn ticks(step: u64, cycles: u8, period: u64) -> (ticked: bool)
    requires
        period > 0,
    ensures
        ticked == ticks_within(step, cycles, period as int),
{
    step as u128 / period as u128 != (step as u128 + cycles as u128) / period as u128
}

/// Counts the channel's length, if it is enabled. Returns the registers
/// and whether the length has run out.
fn run_length(regs: ToneRegisters, step: u64, cycles: u8) -> (counted: (ToneRegisters, bool))
    ensures
        counted.0 == regs.length_run(step, cycles),
        counted.1 == regs.expires(step, cycles),
{
    let mut regs = regs;
    let mut expired: bool = false;
    if test_bit(regs.frequency_hi, 6) {
        let mut current_sound_tick: u8 = regs.length % 64;
        if ticks(step, cycles, SOUND_LENGTH_CLOCK_STEP) {
            current_sound_tick += 1;
            regs.length = regs.length - regs.length % 64 + current_sound_tick % 64;
        }
        if current_sound_tick > 63 {
            expired = true;
        }
    }
    (regs, expired)
}

/// Sweeps the channel's frequency where the sweep clock ticks.
fn sweep(regs: ToneRegisters, step: u64, cycles: u8) -> (swept: ToneRegisters)
    ensures
        swept == regs.swept(step, cycles),
{
    let mut regs = regs;
    let raw_sweep_time: u8 = (regs.sweep / 16) % 8;
    if raw_sweep_time > 0 {
        assert(raw_sweep_time as u64 * SOUND_SWEEP_CLOCK_STEP == raw_sweep_time * 32768);
        if ticks(step, cycles, raw_sweep_time as u64 * SOUND_SWEEP_CLOCK_STEP) {
            let mut gb_frequency: u32 = regs.frequency_lo as u32 + (regs.frequency_hi % 8) as u32
                * 256;
            let component: u32 = gb_frequency >> ((regs.sweep % 8) as u32);
            if test_bit(regs.sweep, 3) {
                if component <= gb_frequency {
                    gb_frequency -= component;
                }
            } else {
                if gb_frequency <= 0b111 && component <= 0b111 - gb_frequency {
                    gb_frequency += component;
                }
            }
            regs.frequency_lo = (gb_frequency % 256) as u8;
            regs.frequency_hi = regs.frequency_hi - regs.frequency_hi % 8 + ((gb_frequency / 256)
                % 8) as u8;
        }
    }
    regs
}

/// Runs the channel's volume envelope. Returns the registers and the volume.
fn envelope(regs: ToneRegisters, step: u64, cycles: u8) -> (enveloped: (ToneRegisters, u8))
    ensures
        enveloped.0 == regs.enveloped(step, cycles),
        enveloped.1 == regs.volume_after(step, cycles),
        enveloped.1 <= 15,
{
    let mut regs = regs;
    let mut volume: u8 = regs.envelope / 16;
    let raw_envelope: u8 = regs.envelope % 8;
    if raw_envelope > 0 {
        assert(raw_envelope as u64 * SOUND_ENVELOPE_CLOCK_STEP == raw_envelope * 65536);
        if ticks(step, cycles, raw_envelope as u64 * SOUND_ENVELOPE_CLOCK_STEP) {
            if test_bit(regs.envelope, 3) {
                if volume < 0xF {
                    volume += 1;
                }
            } else {
                if volume > 0 {
                    volume -= 1;
                }
            }
            regs.envelope = regs.envelope % 16 + volume * 16;
        }
    }
    (regs, volume)
}

/// The wave that the channel plays, `step` cycles after its start.
fn wave(length: u8, regs: ToneRegisters, step: u64) -> (wave: i16)
    ensures
        wave == rectangle_wave(step, regs.hertz(), duty_eighths(length / 64)),
        -1 <= wave <= 1,
{
    let duty: u8 = length / 64;
    let low_eighths: u8 = if duty == 0 {
        0
    } else if duty == 1 {
        1
    } else if duty == 2 {
        2
    } else {
        4
    };
    let gb_frequency: u32 = regs.frequency_lo as u32 + (regs.frequency_hi % 8) as u32 * 256;
    let hz_frequency: u32 = 131072 / (2048 - gb_frequency);
    rectangle_wave_at(step, hz_frequency, low_eighths)
}

fn step_tone(state: ToneState, regs: ToneRegisters, cycles: u8, sweeps: bool) -> (outcome: ToneOutcome)
    ensures
        outcome == tone_step(state, regs, cycles, sweeps),
        -15 <= outcome.level <= 15,
{
    let mut state = state;
    let mut regs = regs;
    if test_bit(regs.frequency_hi, 7) {
        regs.frequency_hi = regs.frequency_hi % 128;
        state.running = true;
        state.step = 0;
    }
    if !state.running {
        return ToneOutcome { state, regs, level: 0 };
    }
    let step: u64 = state.step;
    let (counted, expired) = run_length(regs, step, cycles);
    let swept = if sweeps {
        sweep(counted, step, cycles)
    } else {
        counted
    };
    let wave_pattern: i16 = wave(counted.length, swept, step);
    let (enveloped, volume) = envelope(swept, step, cycles);
    state.running = !expired;
    state.step = step.wrapping_add(cycles as u64);
    assert(-15 <= wave_pattern * volume <= 15) by (nonlinear_arith)
        requires
            -1 <= wave_pattern <= 1,
            0 <= volume <= 15,
    ;
    ToneOutcome { state, regs: enveloped, level: wave_pattern * volume as i16 }
}

fn mix(first: ToneOutcome, first_on: bool, second: ToneOutcome, second_on: bool, master: u8) -> (sample: i16)
    requires
        -15 <= first.level <= 15,
        -15 <= second.level <= 15,
        master <= 7,
    ensures
        sample == mixed(first, first_on, second, second_on, master),
{
    let mut sum: i16 = 0;
    if first.state.running && first_on {
        sum += first.level;
    }
    if second.state.running && second_on {
        sum += second.level;
    }
    assert(-210 <= sum * master <= 210) by (nonlinear_arith)
        requires
            -30 <= sum <= 30,
            0 <= master <= 7,
    ;
    sum * master as i16
}

/// The number of the output sample that is due after `cycle` cycles.
fn sample_number(cycle: u128) -> (number: u128)
    requires
        cycle <= 0x1_0000_0000_0000_00FF,
    ensures
        number == sample_index(cycle as int),
{
    assert(cycle * OUTPUT_FREQUENCY <= 0x1_0000_0000_0000_00FF * 48000) by (nonlinear_arith)
        requires
            0 <= cycle <= 0x1_0000_0000_0000_00FF,
            OUTPUT_FREQUENCY == 48000,
    ;
    cycle * OUTPUT_FREQUENCY as u128 / SOUND_CPU_SPEED as u128
}

impl Sound {
    /// What holds of every sound engine: the sample buffer has its size.
    pub open spec fn wf(&self) -> bool {
        self@.wf()
    }

    /// Whether the sample buffer has its size.
    pub fn is_valid(&self) -> (valid: bool)
        ensures
            valid == self.wf(),
    {
        self.samples.len() == FRAME_SIZE
    }

    /// Advances the sound engine by `cycles` cycles.
    pub fn step(&mut self, registers: &mut IORegisters, cycles: u8)
        requires
            old(self).wf(),
        ensures
            final(self).wf(),
            (final(self)@, *final(registers)) == old(self)@.step(*old(registers), cycles),
    {
        if !test_bit(registers.nr52, 7) {
            return ;
        }
        let first = step_tone(
            ToneState { running: self.channel_1_running, step: self.channel_1_step },
            ToneRegisters {
                sweep: registers.nr10,
                length: registers.nr11,
                envelope: registers.nr12,
                frequency_lo: registers.nr13,
                frequency_hi: registers.nr14,
            },
            cycles,
            true,
        );
        let second = step_tone(
            ToneState { running: self.channel_2_running, step: self.channel_2_step },
            ToneRegisters {
                sweep: 0,
                length: registers.nr21,
                envelope: registers.nr22,
                frequency_lo: registers.nr23,
                frequency_hi: registers.nr24,
            },
            cycles,
            false,
        );
        let left_wave: i16 = mix(
            first,
            test_bit(registers.nr51, 0),
            second,
            test_bit(registers.nr51, 1),
            (registers.nr50 / 16) % 8,
        );
        let right_wave: i16 = mix(
            first,
            test_bit(registers.nr51, 4),
            second,
            test_bit(registers.nr51, 5),
            registers.nr50 % 8,
        );
        let before: u128 = sample_number(self.last_cycle as u128);
        let after: u128 = sample_number(self.last_cycle as u128 + cycles as u128);
        if before != after {
            if self.sample_pointer <= FRAME_SIZE - 2 {
                self.samples[self.sample_pointer] = left_wave;
                self.samples[self.sample_pointer + 1] = right_wave;
                self.sample_pointer += 2;
            }
        }
        self.channel_1_running = first.state.running;
        self.channel_1_step = first.state.step;
        self.channel_2_running = second.state.running;
        self.channel_2_step = second.state.step;
        registers.nr11 = first.regs.length;
        registers.nr12 = first.regs.envelope;
        registers.nr13 = first.regs.frequency_lo;
        registers.nr14 = first.regs.frequency_hi;
        registers.nr21 = second.regs.length;
        registers.nr22 = second.regs.envelope;
        registers.nr23 = second.regs.frequency_lo;
        registers.nr24 = second.regs.frequency_hi;
        self.last_cycle = self.last_cycle.wrapping_add(cycles as u64);
    }

    /// Drains all samples from the engine: returns the buffer and the
    /// number of samples in it, and leaves an empty buffer behind.
    pub fn take_samples(&mut self) -> (taken: (Vec<i16>, usize))
        requires
            old(self).wf(),
        ensures
            final(self).wf(),
            taken.0@ == old(self)@.samples,
            taken.1 == old(self)@.sample_pointer,
            final(self)@ == (SoundView {
                samples: Seq::new(FRAME_SIZE as nat, |i: int| 0i16),
                sample_pointer: 0,
                ..old(self)@
            }),
    {
        let mut samples: Vec<i16> = vec![0i16; FRAME_SIZE];
        proof {
            assert(samples@ =~= Seq::new(FRAME_SIZE as nat, |i: int| 0i16));
        }
        std::mem::swap(&mut self.samples, &mut samples);
        let old_pointer = self.sample_pointer;
        self.sample_pointer = 0;
        (samples, old_pointer)
    }

    pub fn build() -> (sound: Sound)
        ensures
            sound.wf(),
            sound@ == SoundView::power_on(),
    {
        let sound = Sound {
            channel_1_running: false,
            channel_1_step: 0,
            channel_2_running: false,
            channel_2_step: 0,
            samples: vec![0i16; FRAME_SIZE],
            sample_pointer: 0,
            last_cycle: 0,
        };
        proof {
            assert(sound@.samples =~= Seq::new(FRAME_SIZE as nat, |i: int| 0i16));
        }
        sound
    }
}

/// What a channel sounds lies within -15 and 15.
pub proof fn lemma_level_range(state: ToneState, regs: ToneRegisters, cycles: u8, sweeps: bool)
    ensures
        -15 <= tone_step(state, regs, cycles, sweeps).level <= 15,
{
    let started = if bit(regs.frequency_hi, 7) {
        ToneState { running: true, step: 0 }
    } else {
        state
    };
    if started.running {
        let cleared = regs.restarted();
        let counted = cleared.length_run(started.step, cycles);
        let swept = if sweeps {
            counted.swept(started.step, cycles)
        } else {
            counted
        };
        let wave = rectangle_wave(started.step, swept.hertz(), duty_eighths(counted.length / 64));
        let volume = swept.volume_after(started.step, cycles);
        assert(-15 <= wave * volume <= 15) by (nonlinear_arith)
            requires
                -1 <= wave <= 1,
                0 <= volume <= 15,
        ;
    }
}

/// Every sample that a step appends lies within -210 and 210, so that the
/// amplitude that it stands for lies within -1 and 1.
pub proof fn lemma_sample_range(sound: SoundView, regs: IORegisters, cycles: u8, i: int)
    requires
        sound.wf(),
        0 <= i < FRAME_SIZE,
        -210 <= sound.samples[i] <= 210,
    ensures
        -210 <= sound.step(regs, cycles).0.samples[i] <= 210,
        210 < SAMPLE_SCALE,
{
    let first = tone_step(sound.channel_1, regs.tone_1(), cycles, true);
    let second = tone_step(sound.channel_2, regs.tone_2(), cycles, false);
    lemma_level_range(sound.channel_1, regs.tone_1(), cycles, true);
    lemma_level_range(sound.channel_2, regs.tone_2(), cycles, false);
    lemma_mixed_range(first, bit(regs.nr51, 0), second, bit(regs.nr51, 1), ((regs.nr50 / 16) % 8) as u8);
    lemma_mixed_range(first, bit(regs.nr51, 4), second, bit(regs.nr51, 5), (regs.nr50 % 8) as u8);
}

/// What the channels put out on one side lies within -210 and 210.
proof fn lemma_mixed_range(first: ToneOutcome, first_on: bool, second: ToneOutcome, second_on: bool, master: u8)
    requires
        -15 <= first.level <= 15,
        -15 <= second.level <= 15,
        master <= 7,
    ensures
        -210 <= mixed(first, first_on, second, second_on, master) <= 210,
{
    let sum = (if first.state.running && first_on {
        first.level as int
    } else {
        0
    }) + (if second.state.running && second_on {
        second.level as int
    } else {
        0
    });
    assert(-210 <= sum * master <= 210) by (nonlinear_arith)
        requires
            -30 <= sum <= 30,
            0 <= master <= 7,
    ;
}

} // verus!
