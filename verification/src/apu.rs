//! The audio unit: a cycle counter stepped in lock-step with the core at
//! the core clock rate, a square-wave generator that fills the bus's audio
//! buffer, and the pulse-channel state machine (timer, envelope, sweep and
//! length counters driven by the four write-only registers of a channel).

use vstd::prelude::*;

use crate::bus::{Bus, BusView};

verus! {

/// Samples the square-wave generator writes per call.
pub const AUDIO_BUFFER_SIZE: u32 = 50 * 1024;

/// The audio unit: its cycle counter and the sample rate it synthesizes
/// for.
pub struct APU {
    pub cycle: u32,
    pub sample_rate: u32,
}

/// The `x`-th sample of a square wave of the given period: the wave sits
/// high for one period, low for the next.
pub open spec fn spec_square_sample(x: u32, period: u32) -> i16 {
    if (x / period) % 2 == 0 {
        1000i16
    } else {
        -1000i16
    }
}

impl APU {
    pub fn new(sample_rate: u32) -> (r: APU)
        ensures
            r == (APU { cycle: 0, sample_rate }),
    {
        APU { cycle: 0, sample_rate }
    }

    /// Advance the unit's cycle counter by one.
    pub fn tick(&mut self)
        requires
            old(self).cycle < u32::MAX,
        ensures
            *final(self) == (APU { cycle: (old(self).cycle + 1) as u32, ..*old(self) }),
    {
        self.cycle = self.cycle + 1;
    }

    /// Fill the bus's audio buffer with a square wave of the given tone.
    /// The tone must be positive and no higher than the sample rate, so
    /// that a period spans at least one sample.
    pub fn square_wave(&mut self, bus: &mut Bus, tone_hz: u32)
        requires
            0 < tone_hz <= old(self).sample_rate,
        ensures
            *final(self) == *old(self),
            final(bus)@ == (BusView {
                apu_buffer: Seq::new(
                    AUDIO_BUFFER_SIZE as nat,
                    |x: int| spec_square_sample(x as u32, old(self).sample_rate / tone_hz),
                ),
                ..old(bus)@
            }),
    {
        let rate = self.sample_rate;
        let period = rate / tone_hz;
        proof {
            assert(period >= 1) by (nonlinear_arith)
                requires
                    0 < tone_hz <= rate,
                    period == rate / tone_hz,
            ;
        }
        let mut samples: Vec<i16> = Vec::new();

        let mut x: u32 = 0;
        while x < AUDIO_BUFFER_SIZE
            invariant
                x <= AUDIO_BUFFER_SIZE,
                period >= 1,
                samples@ == Seq::new(x as nat, |i: int| spec_square_sample(i as u32, period)),
            decreases AUDIO_BUFFER_SIZE - x,
        {
            samples.push(
                if (x / period) % 2 == 0 {
                    1000
                } else {
                    -1000
                },
            );
            proof {
                assert(samples@ =~= Seq::new(
                    (x + 1) as nat,
                    |i: int| spec_square_sample(i as u32, period),
                ));
            }
            x = x + 1;
        }

        bus.apu_buffer = samples;
        proof {
            assert(bus@ =~= (BusView {
                apu_buffer: Seq::new(
                    AUDIO_BUFFER_SIZE as nat,
                    |i: int| spec_square_sample(i as u32, old(self).sample_rate / tone_hz),
                ),
                ..old(bus)@
            }));
        }
    }

    /// One step of the audio unit per core cycle: advance its clock. The
    /// synthesis itself runs only on demand through `square_wave`.
    pub fn step(&mut self, bus: &mut Bus)
        requires
            old(self).cycle < u32::MAX,
        ensures
            *final(bus) == *old(bus),
            *final(self) == (APU { cycle: (old(self).cycle + 1) as u32, ..*old(self) }),
    {
        self.tick();
    }
}

/// The length counter loaded by a write to a channel's timer-high
/// register, looked up by the value's top five bits.
pub open spec fn spec_length_table(i: u8) -> u8 {
    match i {
        0 => 10,
        1 => 254,
        2 => 20,
        3 => 2,
        4 => 40,
        5 => 4,
        6 => 80,
        7 => 6,
        8 => 160,
        9 => 8,
        10 => 60,
        11 => 10,
        12 => 14,
        13 => 12,
        14 => 26,
        15 => 14,
        16 => 12,
        17 => 16,
        18 => 24,
        19 => 18,
        20 => 48,
        21 => 20,
        22 => 96,
        23 => 22,
        24 => 192,
        25 => 24,
        26 => 72,
        27 => 26,
        28 => 16,
        29 => 28,
        30 => 32,
        _ => 30,
    }
}

/// The length counter loaded by a write to a channel's timer-high
/// register, looked up by the value's top five bits.
pub fn length_table(i: u8) -> (r: u8)
    ensures
        r == spec_length_table(i),
{
    match i {
        0 => 10,
        1 => 254,
        2 => 20,
        3 => 2,
        4 => 40,
        5 => 4,
        6 => 80,
        7 => 6,
        8 => 160,
        9 => 8,
        10 => 60,
        11 => 10,
        12 => 14,
        13 => 12,
        14 => 26,
        15 => 14,
        16 => 12,
        17 => 16,
        18 => 24,
        19 => 18,
        20 => 48,
        21 => 20,
        22 => 96,
        23 => 22,
        24 => 192,
        25 => 24,
        26 => 72,
        27 => 26,
        28 => 16,
        29 => 28,
        30 => 32,
        _ => 30,
    }
}

/// The duty cycle of a pulse channel: whether the wave sits high at step
/// `value` of duty shape `mode`.
pub open spec fn spec_duty(mode: u8, value: u8) -> u8 {
    if mode == 0 {
        if value == 1 {
            1u8
        } else {
            0u8
        }
    } else if mode == 1 {
        if value == 1 || value == 2 {
            1u8
        } else {
            0u8
        }
    } else if mode == 2 {
        if 1 <= value && value <= 4 {
            1u8
        } else {
            0u8
        }
    } else {
        if value == 0 || value >= 3 {
            1u8
        } else {
            0u8
        }
    }
}

/// The duty cycle of a pulse channel: whether the wave sits high at step
/// `value` of duty shape `mode`.
pub fn duty(mode: u8, value: u8) -> (r: u8)
    ensures
        r == spec_duty(mode, value),
{
    if mode == 0 {
        if value == 1 {
            1
        } else {
            0
        }
    } else if mode == 1 {
        if value == 1 || value == 2 {
            1
        } else {
            0
        }
    } else if mode == 2 {
        if 1 <= value && value <= 4 {
            1
        } else {
            0
        }
    } else {
        if value == 0 || value >= 3 {
            1
        } else {
            0
        }
    }
}

/// One pulse channel of the audio unit.
pub struct Pulse {
    pub enabled: bool,
    pub channel: u8,
    pub length_enabled: bool,
    pub length_value: u8,
    pub timer_period: u16,
    pub timer_value: u16,
    pub duty_mode: u8,
    pub duty_value: u8,
    pub sweep_reload: bool,
    pub sweep_enabled: bool,
    pub sweep_negate: bool,
    pub sweep_shift: u8,
    pub sweep_period: u8,
    pub sweep_value: u8,
    pub envelope_enabled: bool,
    pub envelope_loop: bool,
    pub envelope_start: bool,
    pub envelope_period: u8,
    pub envelope_value: u8,
    pub envelope_volume: u8,
    pub constant_volume: u8,
}

/// The channel after one tick of its timer: reload and bump the duty step
/// when it runs out, count down otherwise.
pub open spec fn spec_step_timer(p: Pulse) -> Pulse {
    if p.timer_value == 0 {
        Pulse { timer_value: p.timer_period, duty_value: ((p.duty_value + 1) % 8) as u8, ..p }
    } else {
        Pulse { timer_value: (p.timer_value - 1) as u16, ..p }
    }
}

/// The channel after one tick of its envelope unit.
pub open spec fn spec_step_envelope(p: Pulse) -> Pulse {
    if p.envelope_start {
        Pulse {
            envelope_volume: 15,
            envelope_value: p.envelope_period,
            envelope_start: false,
            ..p
        }
    } else if p.envelope_value > 0 {
        Pulse { envelope_value: (p.envelope_value - 1) as u8, ..p }
    } else if p.envelope_volume > 0 {
        Pulse {
            envelope_volume: (p.envelope_volume - 1) as u8,
            envelope_value: p.envelope_period,
            ..p
        }
    } else if p.envelope_loop {
        Pulse { envelope_volume: 15, envelope_value: p.envelope_period, ..p }
    } else {
        Pulse { envelope_value: p.envelope_period, ..p }
    }
}

/// The channel's timer period after its sweep unit adjusts it: down by the
/// shifted delta (one further on the first channel) when negating, up by
/// it otherwise.
pub open spec fn spec_sweep(p: Pulse) -> Pulse {
    let delta = p.timer_period >> p.sweep_shift;
    if p.sweep_negate {
        if p.channel == 1 {
            Pulse { timer_period: (p.timer_period - delta - 1) as u16, ..p }
        } else {
            Pulse { timer_period: (p.timer_period - delta) as u16, ..p }
        }
    } else {
        Pulse { timer_period: (p.timer_period + delta) as u16, ..p }
    }
}

/// No sweep adjustment may underflow the period or overflow it past the
/// 16-bit register.
pub open spec fn spec_sweep_in_range(p: Pulse) -> bool {
    let delta = p.timer_period >> p.sweep_shift;
    &&& p.sweep_shift < 16
    &&& (p.sweep_negate && p.channel == 1 ==> p.timer_period - delta >= 1)
    &&& (!p.sweep_negate ==> p.timer_period + delta <= 0xFFFF)
}

/// The channel after one tick of its sweep unit.
pub open spec fn spec_step_sweep(p: Pulse) -> Pulse {
    if p.sweep_reload {
        let p1 = if p.sweep_enabled && p.sweep_value == 0 {
            spec_sweep(p)
        } else {
            p
        };
        Pulse { sweep_value: p1.sweep_period, sweep_reload: false, ..p1 }
    } else if p.sweep_value > 0 {
        Pulse { sweep_value: (p.sweep_value - 1) as u8, ..p }
    } else {
        let p1 = if p.sweep_enabled {
            spec_sweep(p)
        } else {
            p
        };
        Pulse { sweep_value: p1.sweep_period, ..p1 }
    }
}

/// What the channel contributes to the mix: silence when disabled, when
/// its length counter has run out, when the duty shape sits low, or when
/// the period leaves the supported band; otherwise the envelope volume or
/// the constant volume.
pub open spec fn spec_output(p: Pulse) -> u8 {
    if !p.enabled {
        0
    } else if p.length_value == 0 {
        0
    } else if spec_duty(p.duty_mode, p.duty_value) == 0 {
        0
    } else if p.timer_period < 8 || p.timer_period > 0x7FF {
        0
    } else if p.envelope_enabled {
        p.envelope_volume
    } else {
        p.constant_volume
    }
}

impl Pulse {
    /// The duty step stays inside its eight-step shape.
    pub open spec fn wf(&self) -> bool {
        self.duty_value < 8
    }

    /// Decode a write to the channel's control register.
    pub fn write_control(&mut self, value: u8)
        ensures
            *final(self) == (Pulse {
                duty_mode: (value >> 6) & 3,
                length_enabled: (value >> 5) & 1 == 0,
                envelope_loop: (value >> 5) & 1 == 1,
                envelope_enabled: (value >> 4) & 1 == 0,
                envelope_period: value & 15,
                constant_volume: value & 15,
                envelope_start: true,
                ..*old(self)
            }),
    {
        self.duty_mode = (value >> 6) & 3;
        self.length_enabled = (value >> 5) & 1 == 0;
        self.envelope_loop = (value >> 5) & 1 == 1;
        self.envelope_enabled = (value >> 4) & 1 == 0;
        self.envelope_period = value & 15;
        self.constant_volume = value & 15;
        self.envelope_start = true;
    }

    /// Decode a write to the channel's sweep register.
    pub fn write_sweep(&mut self, value: u8)
        ensures
            *final(self) == (Pulse {
                sweep_enabled: (value >> 7) & 1 == 1,
                sweep_period: (value >> 4) & 8,
                sweep_negate: (value >> 3) & 1 == 1,
                sweep_shift: value & 7,
                sweep_reload: true,
                ..*old(self)
            }),
    {
        self.sweep_enabled = (value >> 7) & 1 == 1;
        self.sweep_period = (value >> 4) & 8;
        self.sweep_negate = (value >> 3) & 1 == 1;
        self.sweep_shift = value & 7;
        self.sweep_reload = true;
    }

    /// Store the low byte of the timer period.
    pub fn write_timer_low(&mut self, value: u8)
        ensures
            *final(self) == (Pulse {
                timer_period: (old(self).timer_period & 0xFF00) | value as u16,
                ..*old(self)
            }),
    {
        self.timer_period = (self.timer_period & 0xFF00) | value as u16;
    }

    /// Store the high bits of the timer period, reload the length counter
    /// from the table, and restart envelope and duty.
    pub fn write_timer_high(&mut self, value: u8)
        ensures
            *final(self) == (Pulse {
                length_value: spec_length_table(value >> 3),
                timer_period: (old(self).timer_period & 0x00FF) | (((value & 7) as u16) << 8),
                envelope_start: true,
                duty_value: 0,
                ..*old(self)
            }),
    {
        self.length_value = length_table(value >> 3);
        self.timer_period = (self.timer_period & 0x00FF) | (((value & 7) as u16) << 8);
        self.envelope_start = true;
        self.duty_value = 0;
    }

    /// One tick of the channel's timer.
    pub fn step_timer(&mut self)
        requires
            old(self).wf(),
        ensures
            final(self).wf(),
            *final(self) == spec_step_timer(*old(self)),
    {
        if self.timer_value == 0 {
            self.timer_value = self.timer_period;
            self.duty_value = (self.duty_value + 1) % 8;
        } else {
            self.timer_value = self.timer_value - 1;
        }
    }

    /// One tick of the channel's envelope unit.
    pub fn step_envelope(&mut self)
        ensures
            *final(self) == spec_step_envelope(*old(self)),
    {
        if self.envelope_start {
            self.envelope_volume = 15;
            self.envelope_value = self.envelope_period;
            self.envelope_start = false;
        } else if self.envelope_value > 0 {
            self.envelope_value = self.envelope_value - 1;
        } else {
            if self.envelope_volume > 0 {
                self.envelope_volume = self.envelope_volume - 1;
            } else if self.envelope_loop {
                self.envelope_volume = 15;
            }
            self.envelope_value = self.envelope_period;
        }
    }

    /// One tick of the channel's sweep unit.
    pub fn step_sweep(&mut self)
        requires
            spec_sweep_in_range(*old(self)),
        ensures
            *final(self) == spec_step_sweep(*old(self)),
    {
        if self.sweep_reload {
            if self.sweep_enabled && self.sweep_value == 0 {
                self.sweep();
            }
            self.sweep_value = self.sweep_period;
            self.sweep_reload = false;
        } else if self.sweep_value > 0 {
            self.sweep_value = self.sweep_value - 1;
        } else {
            if self.sweep_enabled {
                self.sweep();
            }
            self.sweep_value = self.sweep_period;
        }
    }

    /// One tick of the channel's length counter.
    pub fn step_length(&mut self)
        ensures
            *final(self) == (if old(self).length_enabled && old(self).length_value > 0 {
                Pulse { length_value: (old(self).length_value - 1) as u8, ..*old(self) }
            } else {
                *old(self)
            }),
    {
        if self.length_enabled && self.length_value > 0 {
            self.length_value = self.length_value - 1;
        }
    }

    /// Apply the sweep adjustment to the timer period.
    pub fn sweep(&mut self)
        requires
            spec_sweep_in_range(*old(self)),
        ensures
            *final(self) == spec_sweep(*old(self)),
    {
        proof {
            assert(forall|tp: u16, sh: u8| #[trigger] (tp >> sh) <= tp) by (bit_vector);
        }
        let delta = self.timer_period >> self.sweep_shift;
        if self.sweep_negate {
            self.timer_period = self.timer_period - delta;
            if self.channel == 1 {
                self.timer_period = self.timer_period - 1;
            }
        } else {
            self.timer_period = self.timer_period + delta;
        }
    }

    /// What the channel contributes to the mix.
    pub fn output(&mut self) -> (r: u8)
        ensures
            *final(self) == *old(self),
            r == spec_output(*old(self)),
    {
        if !self.enabled {
            return 0;
        }
        if self.length_value == 0 {
            return 0;
        }
        if duty(self.duty_mode, self.duty_value) == 0 {
            return 0;
        }
        if self.timer_period < 8 || self.timer_period > 0x7FF {
            return 0;
        }
        if self.envelope_enabled {
            self.envelope_volume
        } else {
            self.constant_volume
        }
    }
}

} // verus!
