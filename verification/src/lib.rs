//! Fixed framesteps for Bevy, as a `Stage`.
//!
//! A [`FixedFramestepStage`] counts the frames of the main update and, every time the
//! count reaches its step, runs its child stages once. The [`FixedFramesteps`] resource
//! shows the parameters of every fixed framestep to the systems of the world and lets
//! them change the step, the accumulator and the paused state.
//!
//! - [`info`]: the parameters of one fixed framestep and the arithmetic of its counter.
//! - [`framesteps`]: the resource, by name and for the fixed framestep that is running.
//! - [`world`]: what Verus takes on trust of a Bevy world and of the child stages.
//! - [`stage`]: the stage itself, frame by frame.
//! - [`label`]: the label of the stage in a schedule.
//! - [`laws`]: what holds of every fixed framestep, as proof functions.

pub mod framesteps;
pub mod info;
pub mod label;
pub mod laws;
pub mod stage;
pub mod world;

pub use framesteps::FixedFramesteps;
pub use info::{FixedFramestepInfo, FrameCounter, FramestepName};
pub use label::FixedFrametepStageLabel;
pub use stage::FixedFramestepStage;
