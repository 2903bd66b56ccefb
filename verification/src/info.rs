//! The parameters of one fixed framestep and the arithmetic of its counter.

use vstd::prelude::*;

verus! {

/// The "name" of a fixed framestep. Used to manipulate it.
pub type FramestepName = &'static str;

/// A number of frames. Not to be confused with bevy_core's `FrameCount`.
pub type FrameCounter = u32;

/// Provides access to the parameters of a fixed framestep.
///
/// You can get this using the `FixedFramesteps` resource.
#[derive(Clone, Copy, Debug, PartialEq, Eq)]
pub struct FixedFramestepInfo {
    /// Number of frames between two fixed framestep ticks.
    pub step: FrameCounter,
    /// Frames accumulated since the last fixed framestep tick.
    pub accumulator: FrameCounter,
    /// Is the fixed framestep paused?
    pub paused: bool,
}

impl FixedFramestepInfo {
    /// Whether the next counted frame brings the accumulator exactly onto the step.
    pub open spec fn due(self) -> bool {
        self.accumulator + 1 == self.step
    }

    /// The parameters with one more frame counted and no tick taken.
    pub open spec fn counted(self) -> FixedFramestepInfo
        recommends
            self.accumulator < u32::MAX,
    {
        FixedFramestepInfo { accumulator: (self.accumulator + 1) as u32, ..self }
    }

    /// The parameters right after a tick was found due: the step is taken off the
    /// accumulator, which had just reached it.
    pub open spec fn fired(self) -> FixedFramestepInfo {
        FixedFramestepInfo { accumulator: 0, ..self }
    }

    /// The parameters after one frame in which nothing but the counter itself touches
    /// them: a paused framestep stays as it is, a running one counts the frame and
    /// starts over when it reaches the step.
    pub open spec fn ticked(self) -> FixedFramestepInfo
        recommends
            self.paused || self.accumulator < u32::MAX,
    {
        if self.paused {
            self
        } else if self.due() {
            self.fired()
        } else {
            self.counted()
        }
    }

    /// Whether a frame on these parameters runs the fixed framestep.
    pub open spec fn ticks(self) -> bool {
        !self.paused && self.due()
    }

    /// The parameters after `n` frames on which only the counter acts.
    pub open spec fn after_frames(self, n: nat) -> FixedFramestepInfo
        decreases n,
    {
        if n == 0 {
            self
        } else {
            self.ticked().after_frames((n - 1) as nat)
        }
    }

    /// How many of `n` frames run the fixed framestep, when only the counter acts.
    pub open spec fn ticks_in(self, n: nat) -> nat
        decreases n,
    {
        if n == 0 {
            0
        } else {
            (if self.ticks() { 1nat } else { 0nat }) + self.ticked().ticks_in((n - 1) as nat)
        }
    }

    /// The frame duration of each framestep.
    pub fn framestep(&self) -> (r: FrameCounter)
        ensures
            r == self.step,
    {
        self.step
    }

    /// The frames left over from the last framestep.
    pub fn remaining(&self) -> (r: FrameCounter)
        ensures
            r == self.accumulator,
    {
        self.accumulator
    }

    /// How far has the main update "overstepped" the fixed framestep?
    ///
    /// Only meaningful while the accumulator has reached the step and the step has
    /// not been taken off yet.
    pub fn overstep(&self) -> (r: u32)
        requires
            self.accumulator >= self.step,
        ensures
            r == self.accumulator - self.step,
    {
        self.accumulator - self.step
    }

    /// Pause the fixed framestep.
    pub fn pause(&mut self)
        ensures
            *final(self) == (FixedFramestepInfo { paused: true, ..*old(self) }),
    {
        self.paused = true;
    }

    /// Un-pause (resume) the fixed framestep.
    pub fn unpause(&mut self)
        ensures
            *final(self) == (FixedFramestepInfo { paused: false, ..*old(self) }),
    {
        self.paused = false;
    }

    /// Toggle the paused state.
    pub fn toggle_pause(&mut self)
        ensures
            *final(self) == (FixedFramestepInfo { paused: !old(self).paused, ..*old(self) }),
    {
        self.paused = !self.paused;
    }
}

} // verus!
