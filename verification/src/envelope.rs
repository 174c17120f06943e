//! The envelope: a volume source that is either a fixed level or a level that
//! decays from 15 to 0 at a programmable rate.

use vstd::prelude::*;

verus! {

#[derive(Clone, Copy, Debug, PartialEq, Eq)]
pub struct Envelope {
    /// Set to restart the decay on the next clock.
    pub start: bool,
    /// Divider period; also the level when `constant_volume` is set.
    pub period: u8,
    /// Divider: clocks left before the decay level moves.
    pub step: u8,
    pub constant_volume: bool,
    /// The decay level, 15 down to 0.
    pub decay_counter: u8,
    /// Restart the decay at 15 once it has reached 0.
    pub loop_flag: bool,
}

impl Envelope {
    /// Every level is a four-bit quantity.
    pub open spec fn wf(self) -> bool {
        &&& self.period <= 15
        &&& self.step <= 15
        &&& self.decay_counter <= 15
    }

    /// The envelope after one quarter-frame clock.
    pub open spec fn clocked(self) -> Envelope {
        if self.start {
            Envelope { start: false, decay_counter: 15, step: self.period, ..self }
        } else if self.step != 0 {
            Envelope { step: (self.step - 1) as u8, ..self }
        } else if self.decay_counter != 0 {
            Envelope { step: self.period, decay_counter: (self.decay_counter - 1) as u8, ..self }
        } else if self.loop_flag {
            Envelope { step: self.period, decay_counter: 15, ..self }
        } else {
            Envelope { step: self.period, ..self }
        }
    }

    /// The envelope after `n` clocks.
    pub open spec fn clocked_n(self, n: nat) -> Envelope
        decreases n,
    {
        if n == 0 {
            self
        } else {
            self.clocked().clocked_n((n - 1) as nat)
        }
    }

    /// The level the envelope feeds to its channel.
    pub open spec fn level(self) -> u8 {
        if self.constant_volume {
            self.period
        } else {
            self.decay_counter
        }
    }

    /// Clocks left until a running, non-looping decay reaches level 0.
    pub open spec fn clocks_to_silence(self) -> int {
        if self.decay_counter == 0 {
            0
        } else {
            self.step + 1 + (self.period + 1) * (self.decay_counter - 1)
        }
    }

    /// The envelope at power-on.
    pub open spec fn initial() -> Envelope {
        Envelope {
            start: false,
            period: 0,
            step: 0,
            constant_volume: false,
            decay_counter: 0,
            loop_flag: false,
        }
    }

    pub fn new() -> (r: Envelope)
        ensures
            r == Envelope::initial(),
            r.wf(),
    {
        Envelope {
            start: false,
            period: 0,
            step: 0,
            constant_volume: false,
            decay_counter: 0,
            loop_flag: false,
        }
    }

    /// Tests the type's invariant, for callers that build an envelope by hand.
    pub fn is_well_formed(&self) -> (ok: bool)
        ensures
            ok == self.wf(),
    {
        self.period <= 15 && self.step <= 15 && self.decay_counter <= 15
    }

    /// One quarter-frame clock: a pending start reloads the decay level and the
    /// divider; otherwise the divider counts, and on expiry moves the level.
    pub fn clock(&mut self)
        ensures
            *final(self) == old(self).clocked(),
            old(self).wf() ==> final(self).wf(),
    {
        if !self.start {
            if self.step == 0 {
                self.step = self.period;
                if self.decay_counter != 0 {
                    self.decay_counter -= 1;
                } else if self.loop_flag {
                    self.decay_counter = 15;
                }
            } else {
                self.step -= 1;
            }
        } else {
            self.start = false;
            self.decay_counter = 15;
            self.step = self.period;
        }
    }

    /// The current output level.
    pub fn volume(&self) -> (r: u8)
        ensures
            r == self.level(),
    {
        if self.constant_volume {
            self.period
        } else {
            self.decay_counter
        }
    }

    /// A running decay that does not loop is audible for exactly
    /// `clocks_to_silence` clocks and silent ever after.
    pub proof fn lemma_silence_after(self, n: nat)
        requires
            !self.start,
            !self.loop_flag,
        ensures
            self.clocked_n(n).decay_counter > 0 <==> n < self.clocks_to_silence(),
            !self.clocked_n(n).start,
            !self.clocked_n(n).loop_flag,
            self.clocked_n(n).period == self.period,
        decreases n,
    {
        if n > 0 {
            let next = self.clocked();
            assert(next.clocks_to_silence() == if self.decay_counter == 0 {
                0
            } else {
                self.clocks_to_silence() - 1
            }) by (nonlinear_arith)
                requires
                    next == self.clocked(),
                    !self.start,
                    !self.loop_flag,
            ;
            next.lemma_silence_after((n - 1) as nat);
        }
    }

    /// With the divider freshly loaded and no looping, the level falls from 15
    /// to 0 over exactly `(period + 1) * 15` clocks and then stays at 0.
    pub proof fn lemma_decay_duration(self, n: nat)
        requires
            !self.start,
            !self.loop_flag,
            self.decay_counter == 15,
            self.step == self.period,
        ensures
            n < (self.period + 1) * 15 ==> self.clocked_n(n).decay_counter > 0,
            n >= (self.period + 1) * 15 ==> self.clocked_n(n).decay_counter == 0,
    {
        self.lemma_silence_after(n);
    }
}

} // verus!
