//! State behind the debugging windows: which are shown, and the frame-time
//! measurement.

use vstd::prelude::*;

verus! {

#[derive(Clone, Copy, Debug, PartialEq, Eq)]
pub struct Debug {
    pub show_controls: bool,
    pub perf: Perf,
}

impl Debug {
    pub fn new() -> (r: Debug)
        ensures
            r == (Debug { show_controls: false, perf: Perf::initial() }),
    {
        Debug { show_controls: false, perf: Perf::new() }
    }
}

#[derive(Clone, Copy, Debug, PartialEq, Eq)]
pub struct Perf {
    pub window_active: bool,
    pub measuring: bool,
    /// Sum of the measured frame times, in milliseconds.
    pub total_frame_time: u128,
    /// Number of frames measured.
    pub total_frames: u64,
}

impl Perf {
    /// Nothing shown, nothing measured.
    pub open spec fn initial() -> Perf {
        Perf { window_active: false, measuring: false, total_frame_time: 0, total_frames: 0 }
    }

    /// Whether one more frame of `frame_time` fits in the totals.
    pub open spec fn has_room(self, frame_time: u128) -> bool {
        &&& self.total_frame_time + frame_time <= u128::MAX
        &&& self.total_frames < u64::MAX
    }

    /// The record after a frame of `frame_time`: counted while measuring,
    /// ignored otherwise.
    pub open spec fn with_frame_time(self, frame_time: u128) -> Perf {
        if self.measuring {
            Perf {
                total_frame_time: (self.total_frame_time + frame_time) as u128,
                total_frames: (self.total_frames + 1) as u64,
                ..self
            }
        } else {
            self
        }
    }

    /// The record after the measuring switch is flipped: stopping a
    /// measurement clears its totals.
    pub open spec fn toggled(self) -> Perf {
        if self.measuring {
            Perf { measuring: false, total_frame_time: 0, total_frames: 0, ..self }
        } else {
            Perf { measuring: true, ..self }
        }
    }

    pub fn new() -> (r: Perf)
        ensures
            r == Perf::initial(),
    {
        Perf { window_active: false, measuring: false, total_frame_time: 0, total_frames: 0 }
    }

    /// Tests whether one more frame of `frame_time` fits in the totals.
    pub fn has_room_for(&self, frame_time: u128) -> (ok: bool)
        ensures
            ok == self.has_room(frame_time),
    {
        frame_time <= u128::MAX - self.total_frame_time && self.total_frames < u64::MAX
    }

    /// Records one frame's time, in milliseconds, while measuring.
    pub fn add_frame_time(&mut self, frame_time: u128)
        requires
            old(self).measuring ==> old(self).has_room(frame_time),
        ensures
            *final(self) == old(self).with_frame_time(frame_time),
    {
        if self.measuring {
            self.total_frame_time += frame_time;
            self.total_frames += 1;
        }
    }

    /// Starts a measurement, or stops the running one and clears its totals.
    pub fn toggle_measuring(&mut self)
        ensures
            *final(self) == old(self).toggled(),
    {
        if self.measuring {
            self.total_frame_time = 0;
            self.total_frames = 0;
        }
        self.measuring = !self.measuring;
    }
}

} // verus!
