//! The sweep unit: a divider that periodically bends a pulse channel's period
//! up or down. The two pulse channels wire the adder's carry differently, so the
//! unit carries its polarity.

use vstd::arithmetic::power2::pow2;
use vstd::bits::lemma_u16_shr_is_div;
use vstd::prelude::*;

verus! {

/// How the adder takes a negated change amount.
#[derive(Clone, Copy, Debug, PartialEq, Eq)]
pub enum SweepPolarity {
    /// Carry-in of one: a negated change `c` adds `1 - c`.
    OnesComplement,
    /// No carry-in: a negated change `c` adds `-c`.
    TwosComplement,
}

impl SweepPolarity {
    pub open spec fn spec_adder(self) -> u16 {
        match self {
            SweepPolarity::OnesComplement => 1,
            SweepPolarity::TwosComplement => 0,
        }
    }

    /// The constant that the adder contributes when the change is negated.
    #[verifier::when_used_as_spec(spec_adder)]
    pub fn adder(self) -> (r: u16)
        ensures
            r == self.spec_adder(),
    {
        match self {
            SweepPolarity::OnesComplement => 1,
            SweepPolarity::TwosComplement => 0,
        }
    }
}

/// The value of `x` in a sixteen-bit register.
pub open spec fn wrap16(x: int) -> u16 {
    (x % 0x1_0000) as u16
}

#[derive(Clone, Copy, Debug, PartialEq, Eq)]
pub struct Sweep {
    pub polarity: SweepPolarity,
    pub enabled: bool,
    pub negate: bool,
    /// Shift count, three bits.
    pub shift: u8,
    /// The channel's period; 0x800 and above mutes the channel.
    pub period: u16,
    /// Divider counter.
    pub counter: u16,
    pub reload: bool,
    /// The channel's raw timer, which the shifter reads.
    pub timer: u16,
}

impl Sweep {
    pub open spec fn wf(self) -> bool {
        self.shift <= 7
    }

    /// The unit after a write of its register: `EPPP NSSS`.
    pub open spec fn loaded(self, val: u8) -> Sweep {
        Sweep {
            enabled: val & 0x80 != 0,
            period: ((val & 0x70) >> 4) as u16,
            negate: val & 0x08 != 0,
            shift: val & 0x07,
            reload: true,
            ..self
        }
    }

    /// The amount by which the period is about to move: the timer shifted
    /// right by the shift count.
    pub open spec fn change(self) -> u16 {
        self.timer >> self.shift
    }

    /// The period that an adjustment produces, as the sixteen-bit register
    /// holds it.
    pub open spec fn target_period(self) -> u16 {
        if self.negate {
            wrap16(self.period + self.polarity.adder() - self.change())
        } else {
            wrap16(self.period + self.change())
        }
    }

    /// The unit after its divider has been stepped: reloaded to `period + 1`
    /// when it was at zero or a reload was pending, decremented otherwise.
    pub open spec fn divided(self) -> Sweep {
        Sweep {
            counter: if self.counter == 0 || self.reload {
                wrap16(self.period + 1)
            } else {
                (self.counter - 1) as u16
            },
            reload: false,
            ..self
        }
    }

    /// Whether this clock adjusts the period.
    pub open spec fn adjusts(self) -> bool {
        self.divided().counter == 0 && self.enabled
    }

    /// The unit after one half-frame clock.
    pub open spec fn clocked(self) -> Sweep {
        let d = self.divided();
        if self.adjusts() {
            Sweep { counter: wrap16(d.period + 1), period: d.target_period(), ..d }
        } else {
            d
        }
    }

    /// The unit at power-on.
    pub open spec fn initial(polarity: SweepPolarity) -> Sweep {
        Sweep {
            polarity,
            enabled: false,
            negate: false,
            shift: 0,
            period: 0,
            counter: 0,
            reload: false,
            timer: 0,
        }
    }

    pub fn new(polarity: SweepPolarity) -> (r: Sweep)
        ensures
            r == Sweep::initial(polarity),
            r.wf(),
    {
        Sweep {
            polarity,
            enabled: false,
            negate: false,
            shift: 0,
            period: 0,
            counter: 0,
            reload: false,
            timer: 0,
        }
    }

    /// Tests the type's invariant, for callers that build a unit by hand.
    pub fn is_well_formed(&self) -> (ok: bool)
        ensures
            ok == self.wf(),
    {
        self.shift <= 7
    }

    /// Decodes a register write and asks for a divider reload.
    pub fn load(&mut self, val: u8)
        ensures
            *final(self) == old(self).loaded(val),
            final(self).wf(),
            final(self).period <= 7,
    {
        assert(val & 0x07 <= 7 && (val & 0x70) >> 4 <= 7) by (bit_vector);
        self.enabled = (val & 0x80) != 0;
        self.period = ((val & 0x70) >> 4) as u16;
        self.negate = (val & 0x08) != 0;
        self.shift = val & 0x07;
        self.reload = true;
    }

    /// One half-frame clock: steps the divider and, when it stands at zero with
    /// the unit enabled, moves the period by the shifted timer.
    pub fn clock(&mut self)
        requires
            old(self).wf(),
        ensures
            *final(self) == old(self).clocked(),
            final(self).wf(),
    {
        if self.counter == 0 || self.reload {
            self.counter = self.period.wrapping_add(1);
            self.reload = false;
        } else {
            self.counter -= 1;
        }
        if self.counter == 0 && self.enabled {
            self.counter = self.period.wrapping_add(1);
            let change: u16 = self.timer >> self.shift;
            if !self.negate {
                self.period = self.period.wrapping_add(change);
            } else {
                self.period = self.period.wrapping_add(self.polarity.adder().wrapping_sub(change));
            }
        }
    }
}

/// The change amount is the timer divided by two to the shift count, rounded
/// down.
pub proof fn lemma_change_is_quotient(s: Sweep)
    requires
        s.wf(),
    ensures
        s.change() == s.timer as nat / pow2(s.shift as nat),
{
    let timer = s.timer;
    let shift = s.shift;
    assert(timer >> shift == timer >> (shift as u16)) by (bit_vector);
    lemma_u16_shr_is_div(timer, shift as u16);
}

/// Two units that differ in polarity alone adjust on the same clocks. Their
/// recomputed periods are equal when the change is added, and one apart in
/// the sixteen-bit register when it is negated: one apart as numbers unless
/// the register wraps between them.
pub proof fn lemma_polarity_difference(a: Sweep, b: Sweep)
    requires
        a.polarity == SweepPolarity::OnesComplement,
        b.polarity == SweepPolarity::TwosComplement,
        a == (Sweep { polarity: a.polarity, ..b }),
    ensures
        a.adjusts() == b.adjusts(),
        !a.negate ==> a.target_period() == b.target_period(),
        a.negate ==> a.target_period() == wrap16(b.target_period() + 1),
        a.negate && b.target_period() != 0xFFFF ==> a.target_period() == b.target_period() + 1,
        a.adjusts() ==> a.clocked().period == a.target_period() && b.clocked().period
            == b.target_period(),
        !a.adjusts() ==> a.clocked().period == a.period && b.clocked().period == b.period,
{
}

} // verus!
