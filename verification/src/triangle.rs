//! Register state of the triangle channel.

use vstd::prelude::*;
use crate::length_counter::LengthCounter;

verus! {

#[derive(Clone, Copy, Debug, PartialEq, Eq)]
pub struct Triangle {
    /// Linear-counter control flag; it also halts the length counter.
    pub counter_control: bool,
    /// Linear-counter reload value, seven bits.
    pub counter_reload: u8,
    /// Timer period, eleven bits.
    pub timer: u16,
    pub length_counter: LengthCounter,
}

impl Triangle {
    pub open spec fn wf(self) -> bool {
        &&& self.counter_reload <= 0x7F
        &&& self.timer <= 0x7FF
    }

    /// The channel at power-on.
    pub open spec fn initial() -> Triangle {
        Triangle {
            counter_control: false,
            counter_reload: 0,
            timer: 0,
            length_counter: LengthCounter::initial(),
        }
    }

    /// After a write of `CRRR RRRR`.
    pub open spec fn with_c(self, val: u8) -> Triangle {
        Triangle {
            counter_control: val & 0x80 != 0,
            counter_reload: val & 0x7F,
            length_counter: LengthCounter { enabled: val & 0x80 == 0, ..self.length_counter },
            ..self
        }
    }

    /// After a write of the timer's low eight bits.
    pub open spec fn with_tl(self, val: u8) -> Triangle {
        Triangle { timer: (self.timer & 0xFF00) | (val as u16), ..self }
    }

    /// After a write of `LLLL LTTT`: the length counter loads and the timer
    /// takes its high three bits.
    pub open spec fn with_l(self, val: u8) -> Triangle {
        Triangle {
            length_counter: self.length_counter.loaded(val >> 3),
            timer: (self.timer & 0xF8FF) | (((val & 0x07) as u16) << 8),
            ..self
        }
    }

    pub fn new() -> (r: Triangle)
        ensures
            r == Triangle::initial(),
            r.wf(),
    {
        Triangle {
            counter_control: false,
            counter_reload: 0,
            timer: 0,
            length_counter: LengthCounter::new(),
        }
    }

    /// Tests the type's invariant, for callers that build a channel by hand.
    pub fn is_well_formed(&self) -> (ok: bool)
        ensures
            ok == self.wf(),
    {
        self.counter_reload <= 0x7F && self.timer <= 0x7FF
    }

    pub fn set_c(&mut self, val: u8)
        ensures
            *final(self) == old(self).with_c(val),
            old(self).wf() ==> final(self).wf(),
    {
        assert(val & 0x7F <= 0x7F) by (bit_vector);
        self.counter_control = val & 0x80 != 0;
        self.length_counter.enabled = val & 0x80 == 0;
        self.counter_reload = val & 0x7F;
    }

    pub fn set_tl(&mut self, val: u8)
        ensures
            *final(self) == old(self).with_tl(val),
            old(self).wf() ==> final(self).wf(),
    {
        let timer: u16 = self.timer;
        assert(timer <= 0x7FF ==> (timer & 0xFF00) | (val as u16) <= 0x7FF) by (bit_vector);
        self.timer = (self.timer & 0xFF00) | (val as u16);
    }

    pub fn set_l(&mut self, val: u8)
        ensures
            *final(self) == old(self).with_l(val),
            old(self).wf() ==> final(self).wf(),
    {
        let timer: u16 = self.timer;
        assert(val >> 3 < 32) by (bit_vector);
        assert(timer <= 0x7FF ==> (timer & 0xF8FF) | (((val & 0x07) as u16) << 8) <= 0x7FF)
            by (bit_vector);
        self.length_counter.load(val >> 3);
        self.timer = (self.timer & 0xF8FF) | (((val & 0x07) as u16) << 8);
    }
}

} // verus!
