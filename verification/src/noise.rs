//! Register state of the noise channel.

use vstd::prelude::*;
use crate::length_counter::LengthCounter;

verus! {

#[derive(Clone, Copy, Debug, PartialEq, Eq)]
pub struct Noise {
    pub constant_volume: bool,
    /// Volume or envelope period, four bits.
    pub volume: u8,
    pub loop_noise: bool,
    /// Index of the noise period, four bits.
    pub noise_period: u8,
    pub length_counter: LengthCounter,
}

impl Noise {
    pub open spec fn wf(self) -> bool {
        &&& self.volume <= 15
        &&& self.noise_period <= 15
    }

    /// The channel at power-on.
    pub open spec fn initial() -> Noise {
        Noise {
            constant_volume: false,
            volume: 0,
            loop_noise: false,
            noise_period: 0,
            length_counter: LengthCounter::initial(),
        }
    }

    /// After a write of `--LC VVVV`.
    pub open spec fn with_lcn(self, val: u8) -> Noise {
        Noise {
            length_counter: LengthCounter { enabled: val & 0x20 == 0, ..self.length_counter },
            constant_volume: val & 0x10 != 0,
            volume: val & 0x0F,
            ..self
        }
    }

    /// After a write of `L--- PPPP`.
    pub open spec fn with_lp(self, val: u8) -> Noise {
        Noise { loop_noise: val & 0x80 != 0, noise_period: val & 0x0F, ..self }
    }

    /// After a write of `LLLL L---`: the length counter loads.
    pub open spec fn with_l(self, val: u8) -> Noise {
        Noise { length_counter: self.length_counter.loaded(val >> 3), ..self }
    }

    /// After a write of the channel's bit of the master enable register: the
    /// length counter takes the bit; the other registers keep their values.
    pub open spec fn gated(self, enable: bool) -> Noise {
        Noise { length_counter: self.length_counter.gated(enable), ..self }
    }

    pub fn new() -> (r: Noise)
        ensures
            r == Noise::initial(),
            r.wf(),
    {
        Noise {
            constant_volume: false,
            volume: 0,
            loop_noise: false,
            noise_period: 0,
            length_counter: LengthCounter::new(),
        }
    }

    /// Tests the type's invariant, for callers that build a channel by hand.
    pub fn is_well_formed(&self) -> (ok: bool)
        ensures
            ok == self.wf(),
    {
        self.volume <= 15 && self.noise_period <= 15
    }

    /// Applies the channel's bit of the master enable register.
    pub fn set_enabled(&mut self, enable: bool)
        ensures
            *final(self) == old(self).gated(enable),
            old(self).wf() ==> final(self).wf(),
    {
        self.length_counter.set_enabled(enable);
    }

    pub fn set_lcn(&mut self, val: u8)
        ensures
            *final(self) == old(self).with_lcn(val),
            old(self).wf() ==> final(self).wf(),
    {
        assert(val & 0x0F <= 15) by (bit_vector);
        self.length_counter.enabled = (val & 0x20) == 0;
        self.constant_volume = (val & 0x10) != 0;
        self.volume = val & 0x0F;
    }

    pub fn set_lp(&mut self, val: u8)
        ensures
            *final(self) == old(self).with_lp(val),
            old(self).wf() ==> final(self).wf(),
    {
        assert(val & 0x0F <= 15) by (bit_vector);
        self.loop_noise = (val & 0x80) != 0;
        self.noise_period = val & 0x0F;
    }

    pub fn set_l(&mut self, val: u8)
        ensures
            *final(self) == old(self).with_l(val),
            old(self).wf() ==> final(self).wf(),
    {
        assert(val >> 3 < 32) by (bit_vector);
        self.length_counter.load(val >> 3);
    }
}

} // verus!
