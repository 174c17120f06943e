//! The length counter: a per-channel duration timer that silences the channel
//! when it runs out.

use vstd::prelude::*;

verus! {

/// The durations, in half-frame clocks, that a five-bit load index selects.
pub open spec fn length_table() -> Seq<u8> {
    seq![
        10u8, 254, 20, 2, 40, 4, 80, 6, 160, 8, 60, 10, 14, 12, 26, 14,
        12, 16, 24, 18, 48, 20, 96, 22, 192, 24, 72, 26, 16, 28, 32, 30,
    ]
}

pub const LENGTH_TABLE: [u8; 32] = [
    10, 254, 20, 2, 40, 4, 80, 6, 160, 8, 60, 10, 14, 12, 26, 14,
    12, 16, 24, 18, 48, 20, 96, 22, 192, 24, 72, 26, 16, 28, 32, 30,
];

#[derive(Clone, Copy, Debug, PartialEq, Eq)]
pub struct LengthCounter {
    /// While clear, the counter neither loads nor counts.
    pub enabled: bool,
    /// Half-frame clocks left before the channel falls silent.
    pub counter: u8,
}

impl LengthCounter {
    /// The counter after a load with `index`: the table's duration when
    /// enabled, the old state otherwise.
    pub open spec fn loaded(self, index: u8) -> LengthCounter {
        if self.enabled {
            LengthCounter { counter: length_table()[index as int], ..self }
        } else {
            self
        }
    }

    /// The counter after one half-frame clock.
    pub open spec fn clocked(self) -> LengthCounter {
        if self.counter > 0 && self.enabled {
            LengthCounter { counter: (self.counter - 1) as u8, ..self }
        } else {
            self
        }
    }

    /// The counter after a write of its enable bit: a cleared bit empties it at
    /// once, whatever it held.
    pub open spec fn gated(self, enable: bool) -> LengthCounter {
        LengthCounter { enabled: enable, counter: if enable { self.counter } else { 0 } }
    }

    /// The counter at power-on: enabled and empty.
    pub open spec fn initial() -> LengthCounter {
        LengthCounter { enabled: true, counter: 0 }
    }

    pub fn new() -> (r: LengthCounter)
        ensures
            r == LengthCounter::initial(),
    {
        LengthCounter { enabled: true, counter: 0 }
    }

    /// Loads the duration that `index` selects, if the counter is enabled.
    pub fn load(&mut self, index: u8)
        requires
            index < 32,
        ensures
            *final(self) == old(self).loaded(index),
            old(self).enabled ==> final(self).counter == length_table()[index as int],
            !old(self).enabled ==> final(self).counter == old(self).counter,
    {
        if self.enabled {
            self.counter = LENGTH_TABLE[index as usize];
        }
    }

    /// Counts down by one, stopping at zero; a disabled counter holds.
    pub fn clock(&mut self)
        ensures
            *final(self) == old(self).clocked(),
    {
        if self.counter > 0 && self.enabled {
            self.counter -= 1;
        }
    }

    /// Applies the channel's bit of the master enable register.
    pub fn set_enabled(&mut self, enable: bool)
        ensures
            *final(self) == old(self).gated(enable),
            !enable ==> final(self).counter == 0,
    {
        if !enable {
            self.counter = 0;
        }
        self.enabled = enable;
    }
}

} // verus!
