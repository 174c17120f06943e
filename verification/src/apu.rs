//! The sound unit as a whole: the frame sequencer that paces the channels, the
//! register interface, and the selection of the mixer's table entries.

use vstd::prelude::*;
use crate::dmc::Dmc;
use crate::frame_counter::FrameCounter;
use crate::noise::Noise;
use crate::pulse::Pulse;
use crate::sweep::{wrap16, SweepPolarity};
use crate::triangle::Triangle;

verus! {

/// Processor cycles per output sample.
pub const SAMPLE_FREQ: u32 = 40;

/// Entries in the mixer's table for the two pulse channels.
pub const PULSE_TABLE_LEN: usize = 31;

/// Entries in the mixer's table for triangle, noise and delta modulation.
pub const TND_TABLE_LEN: usize = 203;

/// Where one sample is found in the mixer's two tables.
#[derive(Clone, Copy, Debug, PartialEq, Eq)]
pub struct MixerInput {
    /// Sum of the two pulse levels.
    pub pulse: u8,
    /// `3 * triangle + 2 * noise + dmc`.
    pub tnd: u8,
}

#[derive(Clone, Copy, Debug, PartialEq, Eq)]
pub struct Apu {
    /// Processor cycles since the frame sequence began.
    pub cycles: u16,
    /// Processor cycles since the last sample.
    pub sample_counter: u32,
    pub pulse_1: Pulse,
    pub pulse_2: Pulse,
    pub triangle: Triangle,
    pub noise: Noise,
    pub dmc: Dmc,
    pub frame_counter: FrameCounter,
}

/// Whether the sequencer clocks the envelopes alone at this cycle count.
pub open spec fn quarter_frame_at(cycles: u16) -> bool {
    cycles == 7457 || cycles == 22371
}

/// Whether the sequencer clocks envelopes, length counters and sweep units at
/// this cycle count.
pub open spec fn half_frame_at(mode: bool, cycles: u16) -> bool {
    cycles == 14913 || cycles == (if mode { 37281u16 } else { 29829u16 })
}

/// The cycle count at which the sequence starts over.
pub open spec fn sequence_end(mode: bool) -> u16 {
    if mode { 37282 } else { 29830 }
}

impl Apu {
    pub open spec fn wf(self) -> bool {
        &&& self.sample_counter < SAMPLE_FREQ
        &&& self.pulse_1.wf()
        &&& self.pulse_1.sweep.polarity == SweepPolarity::OnesComplement
        &&& self.pulse_2.wf()
        &&& self.pulse_2.sweep.polarity == SweepPolarity::TwosComplement
        &&& self.triangle.wf()
        &&& self.noise.wf()
        &&& self.dmc.wf()
    }

    /// The unit at power-on.
    pub open spec fn initial() -> Apu {
        Apu {
            cycles: 0,
            sample_counter: 0,
            pulse_1: Pulse::initial(SweepPolarity::OnesComplement),
            pulse_2: Pulse::initial(SweepPolarity::TwosComplement),
            triangle: Triangle::initial(),
            noise: Noise::initial(),
            dmc: Dmc::initial(),
            frame_counter: FrameCounter::initial(),
        }
    }

    /// After a clock of both pulse timers.
    pub open spec fn pulses_clocked(self) -> Apu {
        Apu { pulse_1: self.pulse_1.clocked(), pulse_2: self.pulse_2.clocked(), ..self }
    }

    /// After a quarter-frame event: both pulse envelopes clock.
    pub open spec fn quarter_framed(self) -> Apu {
        Apu {
            pulse_1: self.pulse_1.quarter_framed(),
            pulse_2: self.pulse_2.quarter_framed(),
            ..self
        }
    }

    /// After a half-frame event: both pulse channels clock their frame-level
    /// units, and noise and triangle clock their length counters.
    pub open spec fn half_framed(self) -> Apu {
        Apu {
            pulse_1: self.pulse_1.frame_clocked(),
            pulse_2: self.pulse_2.frame_clocked(),
            noise: Noise { length_counter: self.noise.length_counter.clocked(), ..self.noise },
            triangle: Triangle {
                length_counter: self.triangle.length_counter.clocked(),
                ..self.triangle
            },
            ..self
        }
    }

    /// Whether the next cycle completes a sample period.
    pub open spec fn sample_due(self) -> bool {
        self.sample_counter + 1 == SAMPLE_FREQ
    }

    /// The unit one processor cycle later.
    pub open spec fn ticked(self) -> Apu {
        let timed = if self.cycles % 2 == 0 { self.pulses_clocked() } else { self };
        let cycles = wrap16(self.cycles + 1);
        let mode = self.frame_counter.mode;
        let framed = if half_frame_at(mode, cycles) {
            timed.half_framed()
        } else if quarter_frame_at(cycles) {
            timed.quarter_framed()
        } else {
            timed
        };
        Apu {
            cycles: if cycles == sequence_end(mode) { 0 } else { cycles },
            sample_counter: if self.sample_due() { 0 } else { (self.sample_counter + 1) as u32 },
            ..framed
        }
    }

    /// The unit `n` processor cycles later.
    pub open spec fn ticked_n(self, n: nat) -> Apu
        decreases n,
    {
        if n == 0 {
            self
        } else {
            self.ticked().ticked_n((n - 1) as nat)
        }
    }

    /// The table entries that the current channel levels select. Triangle,
    /// noise and delta modulation contribute silence.
    pub open spec fn mixer_input(self) -> MixerInput {
        MixerInput {
            pulse: (self.pulse_1.output_level() + self.pulse_2.output_level()) as u8,
            tnd: 0,
        }
    }

    /// After a write of the master enable register `---D NT21`: the
    /// delta-modulation interrupt flag clears, and each channel's length
    /// counter takes its bit, emptying at once where the bit is clear.
    pub open spec fn status_written(self, val: u8) -> Apu {
        Apu {
            dmc: Dmc { irq_enable: false, ..self.dmc },
            noise: self.noise.gated(val & 0x08 != 0),
            triangle: Triangle {
                length_counter: self.triangle.length_counter.gated(val & 0x04 != 0),
                ..self.triangle
            },
            pulse_2: Pulse {
                length_counter: self.pulse_2.length_counter.gated(val & 0x02 != 0),
                ..self.pulse_2
            },
            pulse_1: Pulse {
                length_counter: self.pulse_1.length_counter.gated(val & 0x01 != 0),
                ..self.pulse_1
            },
            ..self
        }
    }

    /// After a write of the frame counter register: with bit 7 set the
    /// half-frame units clock at once; the mode and inhibit flags follow the
    /// value either way.
    pub open spec fn frame_written(self, val: u8) -> Apu {
        let clocked = if val & 0x80 != 0 { self.half_framed() } else { self };
        Apu { frame_counter: self.frame_counter.with_mi(val), ..clocked }
    }

    /// The unit after a write of `val` to the register at `addr`. Addresses
    /// outside the register set change nothing.
    pub open spec fn written(self, addr: u16, val: u8) -> Apu {
        if addr == 0x4000 {
            Apu { pulse_1: self.pulse_1.with_dlcv(val), ..self }
        } else if addr == 0x4001 {
            Apu { pulse_1: self.pulse_1.with_epns(val), ..self }
        } else if addr == 0x4002 {
            Apu { pulse_1: self.pulse_1.with_t(val), ..self }
        } else if addr == 0x4003 {
            Apu { pulse_1: self.pulse_1.with_lt(val), ..self }
        } else if addr == 0x4004 {
            Apu { pulse_2: self.pulse_2.with_dlcv(val), ..self }
        } else if addr == 0x4005 {
            Apu { pulse_2: self.pulse_2.with_epns(val), ..self }
        } else if addr == 0x4006 {
            Apu { pulse_2: self.pulse_2.with_t(val), ..self }
        } else if addr == 0x4007 {
            Apu { pulse_2: self.pulse_2.with_lt(val), ..self }
        } else if addr == 0x4008 {
            Apu { triangle: self.triangle.with_c(val), ..self }
        } else if addr == 0x400A {
            Apu { triangle: self.triangle.with_tl(val), ..self }
        } else if addr == 0x400B {
            Apu { triangle: self.triangle.with_l(val), ..self }
        } else if addr == 0x400C {
            Apu { noise: self.noise.with_lcn(val), ..self }
        } else if addr == 0x400E {
            Apu { noise: self.noise.with_lp(val), ..self }
        } else if addr == 0x400F {
            Apu { noise: self.noise.with_l(val), ..self }
        } else if addr == 0x4010 {
            Apu { dmc: self.dmc.with_ilf(val), ..self }
        } else if addr == 0x4011 {
            Apu { dmc: self.dmc.with_d(val), ..self }
        } else if addr == 0x4012 {
            Apu { dmc: self.dmc.with_a(val), ..self }
        } else if addr == 0x4013 {
            Apu { dmc: self.dmc.with_l(val), ..self }
        } else if addr == 0x4015 {
            self.status_written(val)
        } else if addr == 0x4017 {
            self.frame_written(val)
        } else {
            self
        }
    }

    /// The interrupt line after a register write: a write of the frame counter
    /// register that leaves the inhibit flag set drops it.
    pub open spec fn irq_after_write(self, addr: u16, val: u8, irq_signal: bool) -> bool {
        irq_signal && !(addr == 0x4017 && self.frame_counter.with_mi(val).irq_inhibit)
    }

    /// The status byte: bits 0 to 3 tell which of pulse 1, pulse 2, triangle
    /// and noise have a running length counter, bit 6 the frame counter's
    /// inhibit flag, bit 7 the delta-modulation interrupt flag.
    pub open spec fn status_byte(self) -> u8 {
        ((if self.pulse_1.length_counter.counter > 0 { 0x01int } else { 0 })
            + (if self.pulse_2.length_counter.counter > 0 { 0x02int } else { 0 })
            + (if self.triangle.length_counter.counter > 0 { 0x04int } else { 0 })
            + (if self.noise.length_counter.counter > 0 { 0x08int } else { 0 })
            + (if self.frame_counter.irq_inhibit { 0x40int } else { 0 })
            + (if self.dmc.irq_enable { 0x80int } else { 0 })) as u8
    }

    /// After a read of the status register: the inhibit flag is clear.
    pub open spec fn status_read(self) -> Apu {
        Apu { frame_counter: FrameCounter { irq_inhibit: false, ..self.frame_counter }, ..self }
    }

    pub fn new() -> (r: Apu)
        ensures
            r == Apu::initial(),
            r.wf(),
    {
        Apu {
            cycles: 0,
            sample_counter: 0,
            pulse_1: Pulse::new(SweepPolarity::OnesComplement),
            pulse_2: Pulse::new(SweepPolarity::TwosComplement),
            triangle: Triangle::new(),
            noise: Noise::new(),
            dmc: Dmc::new(),
            frame_counter: FrameCounter::new(),
        }
    }

    /// Tests the type's invariant, for callers that build a unit by hand.
    pub fn is_well_formed(&self) -> (ok: bool)
        ensures
            ok == self.wf(),
    {
        self.sample_counter < SAMPLE_FREQ && self.pulse_1.is_well_formed()
            && matches!(self.pulse_1.sweep.polarity, SweepPolarity::OnesComplement)
            && self.pulse_2.is_well_formed()
            && matches!(self.pulse_2.sweep.polarity, SweepPolarity::TwosComplement)
            && self.triangle.is_well_formed() && self.noise.is_well_formed()
            && self.dmc.is_well_formed()
    }

    /// Clocks the envelopes of both pulse channels.
    pub fn quarter_frame(&mut self)
        requires
            old(self).wf(),
        ensures
            *final(self) == old(self).quarter_framed(),
            final(self).wf(),
    {
        self.pulse_1.envelope.clock();
        self.pulse_2.envelope.clock();
    }

    /// Clocks the frame-level units of both pulse channels and the length
    /// counters of noise and triangle.
    pub fn half_frame(&mut self)
        requires
            old(self).wf(),
        ensures
            *final(self) == old(self).half_framed(),
            final(self).wf(),
    {
        self.pulse_1.frame_clock();
        self.pulse_2.frame_clock();
        self.noise.length_counter.clock();
        self.triangle.length_counter.clock();
    }

    /// Advances the unit by one processor cycle. Every fortieth cycle yields
    /// the mixer's table entries for one sample, taken after the cycle's work.
    pub fn apu_tick(&mut self) -> (sample: Option<MixerInput>)
        requires
            old(self).wf(),
        ensures
            *final(self) == old(self).ticked(),
            final(self).wf(),
            sample == (if old(self).sample_due() {
                Some(final(self).mixer_input())
            } else {
                None
            }),
            sample matches Some(s) ==> s.pulse < PULSE_TABLE_LEN && s.tnd < TND_TABLE_LEN,
    {
        if self.cycles % 2 == 0 {
            self.pulse_1.clock();
            self.pulse_2.clock();
        }
        self.cycles = self.cycles.wrapping_add(1);

        if self.frame_counter.mode {
            match self.cycles {
                7457 => self.quarter_frame(),
                14913 => self.half_frame(),
                22371 => self.quarter_frame(),
                37281 => self.half_frame(),
                37282 => {
                    self.cycles = 0;
                },
                _ => (),
            }
        } else {
            match self.cycles {
                7457 => self.quarter_frame(),
                14913 => self.half_frame(),
                22371 => self.quarter_frame(),
                29829 => self.half_frame(),
                29830 => {
                    self.cycles = 0;
                },
                _ => (),
            }
        }

        self.sample_counter += 1;
        if self.sample_counter == SAMPLE_FREQ {
            self.sample_counter = 0;
            Some(self.mixer())
        } else {
            None
        }
    }

    /// Selects the mixer's table entries for the current channel levels.
    pub fn mixer(&self) -> (r: MixerInput)
        requires
            self.wf(),
        ensures
            r == self.mixer_input(),
            r.pulse < PULSE_TABLE_LEN,
            r.tnd < TND_TABLE_LEN,
    {
        let pulse_1: u8 = self.pulse_1.output();
        let pulse_2: u8 = self.pulse_2.output();
        let triangle: u8 = 0;
        let noise: u8 = 0;
        let dmc: u8 = 0;
        MixerInput { pulse: pulse_1 + pulse_2, tnd: 3 * triangle + 2 * noise + dmc }
    }

    /// Writes `val` to the register at `addr`; addresses outside the register
    /// set are ignored. `irq_signal` is the interrupt line shared with the
    /// processor.
    pub fn apu_write_reg(&mut self, addr: u16, val: u8, irq_signal: &mut bool)
        requires
            old(self).wf(),
        ensures
            *final(self) == old(self).written(addr, val),
            *final(irq_signal) == old(self).irq_after_write(addr, val, *old(irq_signal)),
            final(self).wf(),
    {
        match addr {
            0x4000 => self.pulse_1.set_dlcv(val),
            0x4001 => self.pulse_1.set_epns(val),
            0x4002 => self.pulse_1.set_t(val),
            0x4003 => self.pulse_1.set_lt(val),
            0x4004 => self.pulse_2.set_dlcv(val),
            0x4005 => self.pulse_2.set_epns(val),
            0x4006 => self.pulse_2.set_t(val),
            0x4007 => self.pulse_2.set_lt(val),
            0x4008 => self.triangle.set_c(val),
            0x400A => self.triangle.set_tl(val),
            0x400B => self.triangle.set_l(val),
            0x400C => self.noise.set_lcn(val),
            0x400E => self.noise.set_lp(val),
            0x400F => self.noise.set_l(val),
            0x4010 => self.dmc.set_ilf(val),
            0x4011 => self.dmc.set_d(val),
            0x4012 => self.dmc.set_a(val),
            0x4013 => self.dmc.set_l(val),
            0x4015 => self.apu_write_status(val),
            0x4017 => {
                if val & 0x80 != 0 {
                    self.half_frame();
                }
                self.frame_counter.set_mi(val, irq_signal)
            },
            _ => (),
        }
    }

    /// Reads the status register. The read clears the frame counter's inhibit
    /// flag and drops the interrupt line.
    pub fn apu_read_status(&mut self, irq_signal: &mut bool) -> (result: u8)
        ensures
            result == old(self).status_byte(),
            *final(self) == old(self).status_read(),
            !*final(irq_signal),
            old(self).wf() ==> final(self).wf(),
    {
        let mut result: u8 = 0;
        if self.pulse_1.length_counter.counter > 0 {
            proof { lemma_set_flag(result, 0x01); }
            result |= 0x01;
        }
        if self.pulse_2.length_counter.counter > 0 {
            proof { lemma_set_flag(result, 0x02); }
            result |= 0x02;
        }
        if self.triangle.length_counter.counter > 0 {
            proof { lemma_set_flag(result, 0x04); }
            result |= 0x04;
        }
        if self.noise.length_counter.counter > 0 {
            proof { lemma_set_flag(result, 0x08); }
            result |= 0x08;
        }
        if self.frame_counter.irq_inhibit {
            proof { lemma_set_flag(result, 0x40); }
            result |= 0x40;
        }
        if self.dmc.irq_enable {
            proof { lemma_set_flag(result, 0x80); }
            result |= 0x80;
        }
        self.frame_counter.irq_inhibit = false;
        *irq_signal = false;
        result
    }

    /// Writes the master enable register.
    pub fn apu_write_status(&mut self, val: u8)
        ensures
            *final(self) == old(self).status_written(val),
            old(self).wf() ==> final(self).wf(),
    {
        self.dmc.irq_enable = false;
        self.noise.set_enabled(val & 0x08 != 0);
        self.triangle.length_counter.set_enabled(val & 0x04 != 0);
        self.pulse_2.length_counter.set_enabled(val & 0x02 != 0);
        self.pulse_1.length_counter.set_enabled(val & 0x01 != 0);
    }
}

/// Each bit of the status byte reports what it stands for, and bits 4 and 5
/// read as zero.
pub proof fn lemma_status_bits(apu: Apu)
    ensures
        apu.status_byte() & 0x01 != 0 <==> apu.pulse_1.length_counter.counter > 0,
        apu.status_byte() & 0x02 != 0 <==> apu.pulse_2.length_counter.counter > 0,
        apu.status_byte() & 0x04 != 0 <==> apu.triangle.length_counter.counter > 0,
        apu.status_byte() & 0x08 != 0 <==> apu.noise.length_counter.counter > 0,
        apu.status_byte() & 0x30 == 0,
        apu.status_byte() & 0x40 != 0 <==> apu.frame_counter.irq_inhibit,
        apu.status_byte() & 0x80 != 0 <==> apu.dmc.irq_enable,
{
    lemma_flag_sum(
        apu.pulse_1.length_counter.counter > 0,
        apu.pulse_2.length_counter.counter > 0,
        apu.triangle.length_counter.counter > 0,
        apu.noise.length_counter.counter > 0,
        apu.frame_counter.irq_inhibit,
        apu.dmc.irq_enable,
    );
}

/// A channel whose bit is clear in a write of the master enable register has
/// an empty length counter at once, whatever it held, and the next status
/// byte shows it.
pub proof fn lemma_disable_silences(apu: Apu, val: u8)
    ensures
        val & 0x01 == 0 ==> apu.status_written(val).pulse_1.length_counter.counter == 0
            && apu.status_written(val).status_byte() & 0x01 == 0,
        val & 0x02 == 0 ==> apu.status_written(val).pulse_2.length_counter.counter == 0
            && apu.status_written(val).status_byte() & 0x02 == 0,
        val & 0x04 == 0 ==> apu.status_written(val).triangle.length_counter.counter == 0
            && apu.status_written(val).status_byte() & 0x04 == 0,
        val & 0x08 == 0 ==> apu.status_written(val).noise.length_counter.counter == 0
            && apu.status_written(val).status_byte() & 0x08 == 0,
{
    lemma_status_bits(apu.status_written(val));
}

/// A write of the frame counter register with bit 7 set clocks the frame-level
/// units of both pulse channels and the length counters of noise and triangle
/// in the same call, wherever the sequence stands.
pub proof fn lemma_frame_write_clocks_at_once(apu: Apu, val: u8)
    requires
        val & 0x80 != 0,
    ensures
        apu.written(0x4017, val).pulse_1 == apu.pulse_1.frame_clocked(),
        apu.written(0x4017, val).pulse_2 == apu.pulse_2.frame_clocked(),
        apu.written(0x4017, val).noise.length_counter == apu.noise.length_counter.clocked(),
        apu.written(0x4017, val).triangle.length_counter
            == apu.triangle.length_counter.clocked(),
        apu.written(0x4017, val).cycles == apu.cycles,
        apu.written(0x4017, val).frame_counter.mode,
        apu.written(0x4017, val).frame_counter.irq_inhibit == (val & 0x40 != 0),
{
}

/// Samples come once every forty cycles: after `n` cycles the sample divider
/// stands at the old count plus `n`, modulo forty.
pub proof fn lemma_sample_cadence(apu: Apu, n: nat)
    requires
        apu.wf(),
    ensures
        apu.ticked_n(n).sample_counter == (apu.sample_counter + n) % (SAMPLE_FREQ as int),
    decreases n,
{
    if n > 0 {
        let next = apu.ticked();
        assert(next.sample_counter == (apu.sample_counter + 1) % (SAMPLE_FREQ as int));
        lemma_ticked_wf(apu);
        lemma_sample_cadence(next, (n - 1) as nat);
    }
}

/// Short of the end of the sequence, the cycle counter simply counts: after
/// `n` cycles it stands `n` higher, and the mode has not moved.
pub proof fn lemma_sequence_position(apu: Apu, n: nat)
    requires
        apu.wf(),
        apu.cycles + n < sequence_end(apu.frame_counter.mode),
    ensures
        apu.ticked_n(n).cycles == apu.cycles + n,
        apu.ticked_n(n).frame_counter == apu.frame_counter,
        apu.ticked_n(n).wf(),
    decreases n,
{
    if n > 0 {
        lemma_ticked_wf(apu);
        lemma_sequence_position(apu.ticked(), (n - 1) as nat);
    }
}

/// The sequence starts over when the cycle counter reaches its end: 29830
/// cycles in the four-step mode, 37282 in the five-step mode.
pub proof fn lemma_sequence_restarts(apu: Apu)
    requires
        apu.wf(),
        apu.cycles < sequence_end(apu.frame_counter.mode),
    ensures
        apu.ticked_n((sequence_end(apu.frame_counter.mode) - apu.cycles) as nat).cycles == 0,
{
    let rest = (sequence_end(apu.frame_counter.mode) - apu.cycles - 1) as nat;
    lemma_sequence_position(apu, rest);
    lemma_ticked_n_last(apu, rest);
}

/// Running `n + 1` cycles is running `n` cycles and then one more.
pub proof fn lemma_ticked_n_last(apu: Apu, n: nat)
    ensures
        apu.ticked_n(n + 1) == apu.ticked_n(n).ticked(),
    decreases n,
{
    if n > 0 {
        lemma_ticked_n_last(apu.ticked(), (n - 1) as nat);
    } else {
        assert(apu.ticked_n(1) == apu.ticked().ticked_n(0));
    }
}

/// A cycle keeps the unit well formed.
pub proof fn lemma_ticked_wf(apu: Apu)
    requires
        apu.wf(),
    ensures
        apu.ticked().wf(),
{
}

/// The sum of distinct flag values has exactly the bits of the flags that are
/// set.
proof fn lemma_flag_sum(b0: bool, b1: bool, b2: bool, b3: bool, b6: bool, b7: bool)
    by (bit_vector)
    ensures
        ({
            let s = ((if b0 { 0x01int } else { 0 })
                + (if b1 { 0x02int } else { 0 })
                + (if b2 { 0x04int } else { 0 })
                + (if b3 { 0x08int } else { 0 })
                + (if b6 { 0x40int } else { 0 })
                + (if b7 { 0x80int } else { 0 })) as u8;
            &&& s & 0x01 != 0 <==> b0
            &&& s & 0x02 != 0 <==> b1
            &&& s & 0x04 != 0 <==> b2
            &&& s & 0x08 != 0 <==> b3
            &&& s & 0x30 == 0
            &&& s & 0x40 != 0 <==> b6
            &&& s & 0x80 != 0 <==> b7
        }),
{
}

/// Setting a flag above every bit already set adds its value.
proof fn lemma_set_flag(x: u8, flag: u8)
    by (bit_vector)
    requires
        x < flag,
        flag == 0x01 || flag == 0x02 || flag == 0x04 || flag == 0x08 || flag == 0x40 || flag
            == 0x80,
    ensures
        x | flag == x + flag,
{
}

} // verus!
