//! Register state of the delta-modulation channel.

use vstd::prelude::*;

verus! {

/// Where sample memory begins.
pub const SAMPLE_BASE: u16 = 0xC000;

#[derive(Clone, Copy, Debug, PartialEq, Eq)]
pub struct Dmc {
    pub irq_enable: bool,
    pub loop_sample: bool,
    /// Index of the playback rate, four bits.
    pub frequency_index: u8,
    /// Directly loaded output level, seven bits.
    pub direct_load: u8,
    pub sample_address: u16,
    pub sample_length: u16,
}

impl Dmc {
    pub open spec fn wf(self) -> bool {
        &&& self.frequency_index <= 15
        &&& self.direct_load <= 0x7F
    }

    /// The channel at power-on.
    pub open spec fn initial() -> Dmc {
        Dmc {
            irq_enable: false,
            loop_sample: false,
            frequency_index: 0,
            direct_load: 0,
            sample_address: 0,
            sample_length: 0,
        }
    }

    /// After a write of `IL-- FFFF`.
    pub open spec fn with_ilf(self, val: u8) -> Dmc {
        Dmc {
            irq_enable: val & 0x80 != 0,
            loop_sample: val & 0x40 != 0,
            frequency_index: val & 0x0F,
            ..self
        }
    }

    /// After a write of `-DDD DDDD`.
    pub open spec fn with_d(self, val: u8) -> Dmc {
        Dmc { direct_load: val & 0x7F, ..self }
    }

    /// After a write of the sample address: `0xC000 + 64 * val`.
    pub open spec fn with_a(self, val: u8) -> Dmc {
        Dmc { sample_address: (SAMPLE_BASE + 64 * val) as u16, ..self }
    }

    /// After a write of the sample length: `16 * val + 1`, always odd.
    pub open spec fn with_l(self, val: u8) -> Dmc {
        Dmc { sample_length: (16 * val + 1) as u16, ..self }
    }

    pub fn new() -> (r: Dmc)
        ensures
            r == Dmc::initial(),
            r.wf(),
    {
        Dmc {
            irq_enable: false,
            loop_sample: false,
            frequency_index: 0,
            direct_load: 0,
            sample_address: 0,
            sample_length: 0,
        }
    }

    /// Tests the type's invariant, for callers that build a channel by hand.
    pub fn is_well_formed(&self) -> (ok: bool)
        ensures
            ok == self.wf(),
    {
        self.frequency_index <= 15 && self.direct_load <= 0x7F
    }

    pub fn set_ilf(&mut self, val: u8)
        ensures
            *final(self) == old(self).with_ilf(val),
            old(self).wf() ==> final(self).wf(),
    {
        assert(val & 0x0F <= 15) by (bit_vector);
        self.irq_enable = (val & 0x80) != 0;
        self.loop_sample = (val & 0x40) != 0;
        self.frequency_index = val & 0x0F;
    }

    pub fn set_d(&mut self, val: u8)
        ensures
            *final(self) == old(self).with_d(val),
            old(self).wf() ==> final(self).wf(),
    {
        assert(val & 0x7F <= 0x7F) by (bit_vector);
        self.direct_load = val & 0x7F;
    }

    pub fn set_a(&mut self, val: u8)
        ensures
            *final(self) == old(self).with_a(val),
            old(self).wf() ==> final(self).wf(),
    {
        assert(0xC000u16 | ((val as u16) << 6) == 0xC000 + 64 * val) by (bit_vector);
        self.sample_address = SAMPLE_BASE | ((val as u16) << 6);
    }

    pub fn set_l(&mut self, val: u8)
        ensures
            *final(self) == old(self).with_l(val),
            old(self).wf() ==> final(self).wf(),
    {
        assert(1u16 | ((val as u16) << 4) == 16 * val + 1) by (bit_vector);
        self.sample_length = 1 | ((val as u16) << 4);
    }
}

} // verus!
