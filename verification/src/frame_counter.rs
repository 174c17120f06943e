//! The frame counter's register: sequence mode and interrupt inhibit.

use vstd::prelude::*;

verus! {

#[derive(Clone, Copy, Debug, PartialEq, Eq)]
pub struct FrameCounter {
    /// `false` selects the four-step sequence, `true` the five-step one.
    pub mode: bool,
    pub irq_inhibit: bool,
}

impl FrameCounter {
    /// The register at power-on: four-step, interrupts inhibited.
    pub open spec fn initial() -> FrameCounter {
        FrameCounter { mode: false, irq_inhibit: true }
    }

    /// After a write of `MI-- ----`: the mode follows bit 7 and the inhibit
    /// flag follows bit 6, whatever they held.
    pub open spec fn with_mi(self, val: u8) -> FrameCounter {
        FrameCounter { mode: val & 0x80 != 0, irq_inhibit: val & 0x40 != 0 }
    }

    pub fn new() -> (r: FrameCounter)
        ensures
            r == FrameCounter::initial(),
    {
        FrameCounter { mode: false, irq_inhibit: true }
    }

    /// Decodes a register write; a set inhibit flag drops a pending interrupt.
    pub fn set_mi(&mut self, val: u8, irq_signal: &mut bool)
        ensures
            *final(self) == old(self).with_mi(val),
            *final(irq_signal) == (*old(irq_signal) && !final(self).irq_inhibit),
    {
        self.mode = val & 0x80 != 0;
        self.irq_inhibit = val & 0x40 != 0;
        if self.irq_inhibit {
            *irq_signal = false;
        }
    }
}

} // verus!
