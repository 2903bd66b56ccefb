//! The label under which a fixed framestep stage stands in a schedule.

use vstd::prelude::*;
use bevy_ecs::schedule::StageLabel;
use crate::info::FramestepName;

verus! {

/// Type used as a Bevy Stage Label for fixed framestep stages
#[derive(Debug, Clone)]
pub struct FixedFrametepStageLabel(pub FramestepName);

impl StageLabel for FixedFrametepStageLabel {
    /// The name of the fixed framestep.
    fn as_str(&self) -> (name: &'static str)
        ensures
            name@ == self.0@,
    {
        self.0
    }
}

} // verus!
