//! The pulse channel: a square wave with four duty presets, shaped by an
//! envelope, a sweep unit and a length counter.

use vstd::prelude::*;
use crate::envelope::Envelope;
use crate::length_counter::LengthCounter;
use crate::sweep::{Sweep, SweepPolarity};

verus! {

/// The waveform table: eight phases for each of the four duty presets
/// (12.5%, 25%, 50%, 25% negated).
pub open spec fn duty_table() -> Seq<bool> {
    seq![
        false, false, false, false, false, false, false, true,
        false, false, false, false, false, false, true, true,
        false, false, false, false, true, true, true, true,
        true, true, true, true, true, true, false, false,
    ]
}

pub const DUTY_SEQUENCE: [bool; 32] = [
    false, false, false, false, false, false, false, true,
    false, false, false, false, false, false, true, true,
    false, false, false, false, true, true, true, true,
    true, true, true, true, true, true, false, false,
];

/// The smallest timer value at which a pulse channel sounds.
pub const MIN_TIMER: u16 = 8;

/// The first period that mutes a pulse channel.
pub const MUTE_PERIOD: u16 = 0x800;

#[derive(Clone, Copy, Debug, PartialEq, Eq)]
pub struct Pulse {
    /// Duty preset, two bits.
    pub duty_select: u8,
    /// Position in the preset's waveform, three bits.
    pub duty_phase: u8,
    pub envelope: Envelope,
    pub sweep: Sweep,
    pub length_counter: LengthCounter,
}

impl Pulse {
    pub open spec fn wf(self) -> bool {
        &&& self.duty_select <= 3
        &&& self.duty_phase <= 7
        &&& self.envelope.wf()
        &&& self.sweep.wf()
    }

    /// Whether the waveform is high at the current preset and phase.
    pub open spec fn waveform_high(self) -> bool {
        duty_table()[self.duty_select * 8 + self.duty_phase]
    }

    /// Whether only the waveform can silence the channel: the length counter
    /// runs, the timer is at least 8, and the period fits in eleven bits.
    pub open spec fn gate_open(self) -> bool {
        &&& self.length_counter.counter > 0
        &&& self.sweep.timer >= MIN_TIMER
        &&& self.sweep.period < MUTE_PERIOD
    }

    /// The level the channel feeds to the mixer.
    pub open spec fn output_level(self) -> u8 {
        if self.waveform_high() && self.gate_open() {
            self.envelope.level()
        } else {
            0
        }
    }

    /// After a write of `DDLC VVVV`: duty, length-counter halt (which is also
    /// the envelope's loop flag), constant volume, and volume or envelope period.
    pub open spec fn with_dlcv(self, val: u8) -> Pulse {
        Pulse {
            duty_select: val >> 6,
            length_counter: LengthCounter { enabled: val & 0x20 == 0, ..self.length_counter },
            envelope: Envelope {
                loop_flag: val & 0x20 != 0,
                constant_volume: val & 0x10 != 0,
                period: val & 0x0F,
                ..self.envelope
            },
            ..self
        }
    }

    /// After a write of the sweep register.
    pub open spec fn with_epns(self, val: u8) -> Pulse {
        Pulse { sweep: self.sweep.loaded(val), ..self }
    }

    /// After a write of the timer's low eight bits.
    pub open spec fn with_t(self, val: u8) -> Pulse {
        Pulse {
            sweep: Sweep { timer: (self.sweep.timer & 0xFF00) | (val as u16), ..self.sweep },
            ..self
        }
    }

    /// After a write of `LLLL LTTT`: the waveform restarts, the length counter
    /// loads, and the timer takes its high three bits.
    pub open spec fn with_lt(self, val: u8) -> Pulse {
        Pulse {
            duty_phase: 0,
            length_counter: self.length_counter.loaded(val >> 3),
            sweep: Sweep {
                timer: (self.sweep.timer & 0xF8FF) | (((val & 0x07) as u16) << 8),
                ..self.sweep
            },
            ..self
        }
    }

    /// After one clock of the channel's timer: it counts down, and on expiry
    /// advances the waveform by one phase and reloads from the period.
    pub open spec fn clocked(self) -> Pulse {
        if self.sweep.timer > 0 {
            Pulse { sweep: Sweep { timer: (self.sweep.timer - 1) as u16, ..self.sweep }, ..self }
        } else {
            Pulse {
                duty_phase: ((self.duty_phase + 1) % 8) as u8,
                sweep: Sweep { timer: self.sweep.period, ..self.sweep },
                ..self
            }
        }
    }

    /// After an envelope clock.
    pub open spec fn quarter_framed(self) -> Pulse {
        Pulse { envelope: self.envelope.clocked(), ..self }
    }

    /// After a clock of all three frame-level units.
    pub open spec fn frame_clocked(self) -> Pulse {
        Pulse {
            length_counter: self.length_counter.clocked(),
            envelope: self.envelope.clocked(),
            sweep: self.sweep.clocked(),
            ..self
        }
    }

    /// The channel at power-on.
    pub open spec fn initial(polarity: SweepPolarity) -> Pulse {
        Pulse {
            duty_select: 0,
            duty_phase: 0,
            envelope: Envelope::initial(),
            sweep: Sweep::initial(polarity),
            length_counter: LengthCounter::initial(),
        }
    }

    pub fn new(polarity: SweepPolarity) -> (r: Pulse)
        ensures
            r == Pulse::initial(polarity),
            r.wf(),
    {
        Pulse {
            duty_select: 0,
            duty_phase: 0,
            envelope: Envelope::new(),
            sweep: Sweep::new(polarity),
            length_counter: LengthCounter::new(),
        }
    }

    /// Tests the type's invariant, for callers that build a channel by hand.
    pub fn is_well_formed(&self) -> (ok: bool)
        ensures
            ok == self.wf(),
    {
        self.duty_select <= 3 && self.duty_phase <= 7 && self.envelope.is_well_formed()
            && self.sweep.is_well_formed()
    }

    pub fn set_dlcv(&mut self, val: u8)
        ensures
            *final(self) == old(self).with_dlcv(val),
            old(self).wf() ==> final(self).wf(),
    {
        assert(val >> 6 <= 3 && val & 0x0F <= 15) by (bit_vector);
        self.duty_select = val >> 6;
        self.length_counter.enabled = (val & 0x20) == 0;
        self.envelope.loop_flag = (val & 0x20) != 0;
        self.envelope.constant_volume = (val & 0x10) != 0;
        self.envelope.period = val & 0x0F;
    }

    pub fn set_epns(&mut self, val: u8)
        ensures
            *final(self) == old(self).with_epns(val),
            old(self).wf() ==> final(self).wf(),
    {
        self.sweep.load(val);
    }

    pub fn set_t(&mut self, val: u8)
        ensures
            *final(self) == old(self).with_t(val),
            old(self).wf() ==> final(self).wf(),
    {
        self.sweep.timer = (self.sweep.timer & 0xFF00) | (val as u16);
    }

    pub fn set_lt(&mut self, val: u8)
        ensures
            *final(self) == old(self).with_lt(val),
            old(self).wf() ==> final(self).wf(),
    {
        assert(val >> 3 < 32) by (bit_vector);
        self.duty_phase = 0;
        self.length_counter.load(val >> 3);
        self.sweep.timer = (self.sweep.timer & 0xF8FF) | (((val & 0x07) as u16) << 8);
    }

    /// One clock of the channel's timer.
    pub fn clock(&mut self)
        requires
            old(self).wf(),
        ensures
            *final(self) == old(self).clocked(),
            final(self).wf(),
    {
        if self.sweep.timer > 0 {
            self.sweep.timer -= 1;
        } else {
            let phase: u8 = self.duty_phase;
            assert((phase + 1) as u8 & 7 == (phase + 1) % 8) by (bit_vector)
                requires
                    phase <= 7,
            ;
            self.duty_phase = (self.duty_phase + 1) & 7;
            self.sweep.timer = self.sweep.period;
        }
    }

    /// Clocks the length counter, the envelope and the sweep unit, in that order.
    pub fn frame_clock(&mut self)
        requires
            old(self).wf(),
        ensures
            *final(self) == old(self).frame_clocked(),
            final(self).wf(),
    {
        self.length_counter.clock();
        self.envelope.clock();
        self.sweep.clock();
    }

    /// The level fed to the mixer: the envelope's level while the waveform is
    /// high and nothing silences the channel, zero otherwise.
    pub fn output(&self) -> (r: u8)
        requires
            self.wf(),
        ensures
            r == self.output_level(),
            r <= 15,
    {
        let active = DUTY_SEQUENCE[(self.duty_select * 8 + self.duty_phase) as usize];
        if active && self.length_counter.counter > 0 && self.sweep.timer >= MIN_TIMER
            && self.sweep.period < MUTE_PERIOD {
            self.envelope.volume()
        } else {
            0
        }
    }
}

/// The four presets by their shape: high in the last phase, in the last two,
/// in the last four, and in all but the last two.
pub proof fn lemma_duty_presets(select: int, phase: int)
    requires
        0 <= select <= 3,
        0 <= phase <= 7,
    ensures
        duty_table()[select * 8 + phase] == (if select == 0 {
            phase == 7
        } else if select == 1 {
            phase >= 6
        } else if select == 2 {
            phase >= 4
        } else {
            phase <= 5
        }),
{
}

} // verus!
