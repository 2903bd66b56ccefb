//! The stage that counts frames and runs its child stages on every tick.

use vstd::prelude::*;
use bevy_ecs::schedule::Stage;
use bevy_ecs::world::World;
use crate::framesteps::{FixedFramesteps, FramestepsView};
use crate::info::{FixedFramestepInfo, FrameCounter, FramestepName};
use crate::world::{
    child_ran,
    get_framesteps,
    get_framesteps_mut,
    insert_framesteps,
    world_framesteps,
    ChildStage,
};

verus! {

/// What a world's resource, if it has one, holds under `name`.
pub open spec fn shared_info(framesteps: Option<FramestepsView>, name: Seq<char>) -> Option<
    FixedFramestepInfo,
> {
    match framesteps {
        Some(shared) => shared.get(name),
        None => None,
    }
}

/// The resource after `info` was stored under `name`: the one that was there with that
/// entry written, or a fresh one that holds nothing else.
pub open spec fn published(
    framesteps: Option<FramestepsView>,
    name: Seq<char>,
    info: FixedFramestepInfo,
) -> FramestepsView {
    match framesteps {
        Some(shared) => shared.with_info(name, info),
        None => FramestepsView::empty().with_info(name, info),
    }
}

/// The resource, if there is one, with no fixed framestep marked as running.
pub open spec fn idle(framesteps: Option<FramestepsView>) -> Option<FramestepsView> {
    match framesteps {
        Some(shared) => Some(shared.with_current(None)),
        None => None,
    }
}

/// The stage's parameters at the start of a frame: step and paused state are taken from
/// what the world shows under the stage's name, the accumulator is the stage's own.
pub open spec fn pulled(own: FixedFramestepInfo, shared: Option<FixedFramestepInfo>)
    -> FixedFramestepInfo {
    match shared {
        Some(info) => FixedFramestepInfo { step: info.step, paused: info.paused, ..own },
        None => own,
    }
}

/// The stage's parameters after a child stage has run: all of what the world shows under
/// the stage's name, where it shows anything.
pub open spec fn synced(own: FixedFramestepInfo, shared: Option<FixedFramestepInfo>)
    -> FixedFramestepInfo {
    match shared {
        Some(info) => info,
        None => own,
    }
}

/// The resource that `FixedFramestepStage::advance` leaves in the world for a stage
/// called `name` that is not paused and starts the frame on `info`.
pub open spec fn advanced(
    framesteps: Option<FramestepsView>,
    name: Seq<char>,
    info: FixedFramestepInfo,
) -> FramestepsView {
    if info.due() {
        published(framesteps, name, info.fired()).with_current(Some(name))
    } else {
        published(idle(framesteps), name, info.counted())
    }
}

/// Whether the resource, if there is one, marks no fixed framestep as running.
pub open spec fn at_rest(framesteps: Option<FramestepsView>) -> bool {
    match framesteps {
        Some(shared) => shared.current.is_none(),
        None => true,
    }
}

/// The parameters that a stage has after it synced with each of `worlds` in turn,
/// starting from `own`.
pub open spec fn synced_over(own: FixedFramestepInfo, name: Seq<char>, worlds: Seq<World>)
    -> FixedFramestepInfo
    decreases worlds.len(),
{
    if worlds.len() == 0 {
        own
    } else {
        synced(
            synced_over(own, name, worlds.drop_last()),
            shared_info(world_framesteps(worlds.last()), name),
        )
    }
}

/// Whether every one of the child stages `before` ran, once and in their order: the
/// first on the world `worlds[0]`, and each left the world on which the next one ran.
/// `worlds[i + 1]` is the world as the `i`-th child stage left it, and `after` are the
/// child stages as their runs left them.
pub open spec fn children_ran(
    before: Seq<ChildStage>,
    after: Seq<ChildStage>,
    worlds: Seq<World>,
) -> bool {
    &&& after.len() == before.len()
    &&& worlds.len() == before.len() + 1
    &&& forall|i: int|
        0 <= i < before.len() ==> child_ran(
            #[trigger] before[i],
            worlds[i],
            after[i],
            worlds[i + 1],
        )
}

/// What [`FixedFramestepStage::run_child_stages`] does to a stage `before` and a world
/// `world`: every child stage ran as `children_ran` says, through the worlds `worlds`
/// from `world` to `left`, and the stage synced with what each of them left.
pub open spec fn stages_ran(
    before: StageView,
    world: World,
    after: StageView,
    left: World,
    worlds: Seq<World>,
) -> bool {
    &&& children_ran(before.stages, after.stages, worlds)
    &&& worlds.first() == world
    &&& worlds.last() == left
    &&& after.name == before.name
    &&& after.info == synced_over(before.info, before.name, worlds.skip(1))
}

/// What a frame with a tick does to a stage `before` whose world held `shared` when the
/// frame began. The first child stage ran on a world that shows the stage as running,
/// with its accumulator started over; every child stage ran, through the worlds
/// `worlds`; the stage synced with what each of them left; and of what the last one
/// left, only the mark of the running fixed framestep was taken off.
pub open spec fn tick_done(
    before: StageView,
    shared: Option<FramestepsView>,
    after: StageView,
    left: Option<FramestepsView>,
    worlds: Seq<World>,
) -> bool {
    let start = before.start_of_frame(shared);
    &&& children_ran(before.stages, after.stages, worlds)
    &&& world_framesteps(worlds.first()) == Some(advanced(shared, before.name, start))
    &&& after.name == before.name
    &&& after.info == synced_over(start.fired(), before.name, worlds.skip(1))
    &&& left == idle(world_framesteps(worlds.last()))
}

/// What one frame does to a stage `before` and to the resource of its world, which
/// held `shared` when the frame began. Afterwards the stage is `after` and the world
/// holds `left`.
pub open spec fn frame_done(
    before: StageView,
    shared: Option<FramestepsView>,
    after: StageView,
    left: Option<FramestepsView>,
) -> bool {
    let start = before.start_of_frame(shared);
    if start.paused {
        // Paused: only the pull happened.
        after == before.with_info(start) && left == shared
    } else if start.accumulator == u32::MAX {
        // The accumulator is full: the frame is not counted, but stored like one
        // without a tick.
        after == before.with_info(start) && left == Some(
            published(idle(shared), before.name, start),
        )
    } else if !start.due() {
        // A frame without a tick: counted and stored, nothing marked as running.
        after == before.with_info(start.counted()) && left == Some(
            published(idle(shared), before.name, start.counted()),
        )
    } else {
        // A tick: the child stages decide what is left.
        exists|worlds: Seq<World>| tick_done(before, shared, after, left, worlds)
    }
}

/// What a `FixedFramestepStage` holds.
pub struct StageView {
    /// Step, accumulator and paused state, as the stage itself has them.
    pub info: FixedFramestepInfo,
    /// The name under which the stage shows them to the world.
    pub name: Seq<char>,
    /// The child stages, in the order in which they run.
    pub stages: Seq<ChildStage>,
}

impl StageView {
    /// The same stage with other parameters.
    pub open spec fn with_info(self, info: FixedFramestepInfo) -> StageView {
        StageView { info, ..self }
    }

    /// The parameters on which the stage starts a frame, given the resource that the
    /// world holds at that time.
    pub open spec fn start_of_frame(self, framesteps: Option<FramestepsView>)
        -> FixedFramestepInfo {
        pulled(self.info, shared_info(framesteps, self.name))
    }
}

/// A Stage that runs a number of child stages with a fixed framestep
///
/// You can set the framestep duration. Every frame update the accumulator counts one
/// frame, and the child stages run when it reaches the framestep. They run at most
/// once per frame.
///
/// You can add multiple child stages, allowing you to use `Commands` in
/// your fixed framestep systems, and have their effects applied.
///
/// A good place to add the `FixedFramestepStage` is usually before
/// `CoreStage::Update`.
pub struct FixedFramestepStage {
    step: FrameCounter,
    accumulator: FrameCounter,
    paused: bool,
    label: FramestepName,
    stages: Vec<ChildStage>,
}

impl View for FixedFramestepStage {
    type V = StageView;

    closed spec fn view(&self) -> StageView {
        StageView {
            info: FixedFramestepInfo {
                step: self.step,
                accumulator: self.accumulator,
                paused: self.paused,
            },
            name: self.label@,
            stages: self.stages@,
        }
    }
}

impl FixedFramestepStage {
    /// Create a new empty `FixedFramestepStage` with no child stages
    pub fn new(framestep: FrameCounter, label: FramestepName) -> (stage: FixedFramestepStage)
        requires
            framestep > 0,
        ensures
            stage@ == (StageView {
                info: FixedFramestepInfo { step: framestep, accumulator: 0, paused: false },
                name: label@,
                stages: Seq::empty(),
            }),
    {
        FixedFramestepStage {
            step: framestep,
            accumulator: 0,
            paused: false,
            label,
            stages: Vec::new(),
        }
    }

    /// Builder method for starting in a paused state
    pub fn paused(self) -> (stage: FixedFramestepStage)
        ensures
            stage@ == self@.with_info(FixedFramestepInfo { paused: true, ..self@.info }),
    {
        let mut stage = self;
        stage.paused = true;
        stage
    }

    /// Step, accumulator and paused state, as the stage itself has them.
    pub fn info(&self) -> (info: FixedFramestepInfo)
        ensures
            info == self@.info,
    {
        FixedFramestepInfo { step: self.step, accumulator: self.accumulator, paused: self.paused }
    }

    /// The name of the fixed framestep.
    pub fn label(&self) -> (label: FramestepName)
        ensures
            label@ == self@.name,
    {
        self.label
    }

    /// Ensure the `FixedFramesteps` resource exists and contains the latest data
    ///
    /// The resource then also marks this stage as the one that is running, whatever it
    /// marked before. [`Self::finish`] takes the mark off again.
    pub fn store_fixedframestepinfo(&self, world: &mut World)
        ensures
            world_framesteps(*final(world)) == Some(
                published(world_framesteps(*old(world)), self@.name, self@.info).with_current(
                    Some(self@.name),
                ),
            ),
    {
        match get_framesteps_mut(world) {
            Some(framesteps) => {
                framesteps.set_current(Some(self.label));
                match framesteps.get_mut(self.label) {
                    Some(info) => {
                        info.step = self.step;
                        info.accumulator = self.accumulator;
                        info.paused = self.paused;
                    },
                    None => {
                        framesteps.store(self.label, self.info());
                    },
                }
            },
            None => {
                let mut framesteps = FixedFramesteps::default();
                framesteps.set_current(Some(self.label));
                framesteps.store(self.label, self.info());
                insert_framesteps(world, framesteps);
            },
        }
    }

    /// Add a child stage
    ///
    /// It runs after the child stages that the stage already has.
    pub fn add_stage<S: Stage>(&mut self, stage: S)
        ensures
            final(self)@.info == old(self)@.info,
            final(self)@.name == old(self)@.name,
            final(self)@.stages.len() == old(self)@.stages.len() + 1,
            final(self)@.stages.drop_last() == old(self)@.stages,
    {
        self.stages.push(ChildStage::boxed(stage));
    }

    /// Builder method for adding a child stage
    pub fn with_stage<S: Stage>(self, stage: S) -> (with: FixedFramestepStage)
        ensures
            with@.info == self@.info,
            with@.name == self@.name,
            with@.stages.len() == self@.stages.len() + 1,
            with@.stages.drop_last() == self@.stages,
    {
        let mut with = self;
        with.add_stage(stage);
        with
    }

    /// Helper to create a `FixedFramestepStage` with a single child stage
    pub fn from_stage<S: Stage>(framestep: FrameCounter, label: FramestepName, stage: S) -> (made:
        FixedFramestepStage)
        requires
            framestep > 0,
        ensures
            made@.info == (FixedFramestepInfo { step: framestep, accumulator: 0, paused: false }),
            made@.name == label@,
            made@.stages.len() == 1,
    {
        FixedFramestepStage::new(framestep, label).with_stage(stage)
    }

    /// The number of child stages.
    pub fn stage_count(&self) -> (n: usize)
        ensures
            n == self@.stages.len(),
    {
        self.stages.len()
    }

    /// The `i`-th child stage, if the stage has that many and that one is of type `S`.
    pub fn get_child_stage<S: Stage>(&self, i: usize) -> (child: Option<&S>)
        ensures
            i >= self@.stages.len() ==> child.is_none(),
    {
        if i < self.stages.len() {
            self.stages[i].downcast_ref::<S>()
        } else {
            None
        }
    }

    /// The `i`-th child stage, if the stage has that many and that one is of type `S`, to
    /// be changed in place. The stage keeps its parameters, its name and all its other
    /// child stages; where nothing is handed out, it stays as it is altogether.
    pub fn get_child_stage_mut<S: Stage>(&mut self, i: usize) -> (child: Option<&mut S>)
        ensures
            i >= old(self)@.stages.len() ==> child.is_none(),
            child.is_none() ==> final(self)@.stages =~= old(self)@.stages,
            final(self)@.info == old(self)@.info,
            final(self)@.name == old(self)@.name,
            final(self)@.stages.len() == old(self)@.stages.len(),
            forall|j: int|
                0 <= j < old(self)@.stages.len() && j != i ==> final(self)@.stages[j] == old(
                    self,
                )@.stages[j],
    {
        if i < self.stages.len() {
            self.stages[i].downcast_mut::<S>()
        } else {
            None
        }
    }

    /// Start of a frame: takes the step and the paused state from what the world shows
    /// under the stage's name. The accumulator is not taken: the stage alone counts.
    pub fn pull(&mut self, world: &World)
        ensures
            final(self)@ == old(self)@.with_info(
                pulled(old(self)@.info, shared_info(world_framesteps(*world), old(self)@.name)),
            ),
    {
        match get_framesteps(world) {
            Some(framesteps) => {
                match framesteps.get(self.label) {
                    Some(info) => {
                        self.step = info.step;
                        self.paused = info.paused;
                    },
                    None => {},
                }
            },
            None => {},
        }
    }

    /// After a child stage: takes step, accumulator and paused state from what the world
    /// shows under the stage's name, so that what the child stage changed there holds
    /// for the rest of the frame.
    pub fn sync(&mut self, world: &World)
        ensures
            final(self)@ == old(self)@.with_info(
                synced(old(self)@.info, shared_info(world_framesteps(*world), old(self)@.name)),
            ),
    {
        match get_framesteps(world) {
            Some(framesteps) => {
                match framesteps.get(self.label) {
                    Some(info) => {
                        self.step = info.step;
                        self.accumulator = info.accumulator;
                        self.paused = info.paused;
                    },
                    None => {},
                }
            },
            None => {},
        }
    }

    /// Counts the frame, for a stage that has pulled. A paused stage does nothing. Any
    /// other counts one frame. If that brings the accumulator onto the step, the step is
    /// taken off again, the parameters are stored in the world and the stage is marked
    /// as running: the child stages are due, and the result is `true`. If not, the
    /// parameters are stored and the mark of the running stage is taken off.
    pub fn advance(&mut self, world: &mut World) -> (tick: bool)
        requires
            old(self)@.info.paused || old(self)@.info.accumulator < u32::MAX,
        ensures
            tick == old(self)@.info.ticks(),
            final(self)@ == old(self)@.with_info(old(self)@.info.ticked()),
            old(self)@.info.paused ==> *final(world) == *old(world),
            !old(self)@.info.paused ==> world_framesteps(*final(world)) == Some(
                advanced(world_framesteps(*old(world)), old(self)@.name, old(self)@.info),
            ),
    {
        if self.paused {
            return false;
        }
        self.accumulator += 1;
        if self.accumulator == self.step {
            self.accumulator -= self.step;
            self.store_fixedframestepinfo(world);
            true
        } else {
            self.store_fixedframestepinfo(world);
            Self::finish(world);
            false
        }
    }

    /// Runs the `i`-th child stage on the world and then [`Self::sync`]s: whatever the
    /// child stage left in the world under the stage's name is what the stage goes on
    /// with, be it another step, another accumulator or a pause. The other child stages
    /// are not touched.
    pub fn run_child_stage(&mut self, i: usize, world: &mut World)
        requires
            i < old(self)@.stages.len(),
        ensures
            final(self)@.name == old(self)@.name,
            final(self)@.stages.len() == old(self)@.stages.len(),
            forall|j: int|
                0 <= j < old(self)@.stages.len() && j != i ==> final(self)@.stages[j] == old(
                    self,
                )@.stages[j],
            child_ran(
                old(self)@.stages[i as int],
                *old(world),
                final(self)@.stages[i as int],
                *final(world),
            ),
            final(self)@.info == synced(
                old(self)@.info,
                shared_info(world_framesteps(*final(world)), old(self)@.name),
            ),
    {
        self.stages[i].run(world);
        self.sync(world);
    }

    /// Runs the child stages in their order, each by [`Self::run_child_stage`]. However a
    /// child stage leaves the world, every one of them runs, once, on the world as the
    /// one before it left it, and the stage syncs after each. Without child stages
    /// nothing changes.
    pub fn run_child_stages(&mut self, world: &mut World)
        ensures
            final(self)@.name == old(self)@.name,
            final(self)@.stages.len() == old(self)@.stages.len(),
            exists|worlds: Seq<World>|
                stages_ran(old(self)@, *old(world), final(self)@, *final(world), worlds),
            old(self)@.stages.len() == 0 ==> final(self)@ == old(self)@ && *final(world) == *old(
                world,
            ),
            old(self)@.stages.len() > 0 ==> final(self)@.info == synced(
                final(self)@.info,
                shared_info(world_framesteps(*final(world)), old(self)@.name),
            ),
    {
        let n = self.stages.len();
        let mut i: usize = 0;
        let ghost mut worlds: Seq<World> = seq![*world];
        while i < n
            invariant
                i <= n,
                n == self.stages@.len(),
                n == old(self)@.stages.len(),
                self@.name == old(self)@.name,
                i == 0 ==> self@ == old(self)@ && *world == *old(world),
                i > 0 ==> self@.info == synced(
                    self@.info,
                    shared_info(world_framesteps(*world), self@.name),
                ),
                worlds.len() == i + 1,
                worlds[0] == *old(world),
                worlds[i as int] == *world,
                forall|j: int|
                    0 <= j < i ==> child_ran(
                        #[trigger] old(self)@.stages[j],
                        worlds[j],
                        self@.stages[j],
                        worlds[j + 1],
                    ),
                forall|j: int| i <= j < n ==> self@.stages[j] == old(self)@.stages[j],
                self@.info == synced_over(old(self)@.info, self@.name, worlds.skip(1)),
            decreases n - i,
        {
            let ghost met = worlds;
            self.run_child_stage(i, world);
            proof {
                worlds = met.push(*world);
                assert(worlds.skip(1).drop_last() =~= met.skip(1));
            }
            i += 1;
        }
        assert(stages_ran(old(self)@, *old(world), self@, *world, worlds));
    }

    /// End of a tick: marks in the world's resource, if it has one, that no fixed
    /// framestep is running.
    pub fn finish(world: &mut World)
        ensures
            world_framesteps(*final(world)) == idle(world_framesteps(*old(world))),
    {
        match get_framesteps_mut(world) {
            Some(framesteps) => {
                framesteps.set_current(None);
            },
            None => {},
        }
    }

    /// One frame of the fixed framestep: [`Self::pull`], then [`Self::advance`], and on
    /// a tick [`Self::run_child_stages`] and [`Self::finish`]. The result says whether
    /// the child stages ran; they run at most once.
    ///
    /// A stage that is not paused and whose accumulator stands at `u32::MAX` cannot
    /// count the frame: it stores what it has, as on a frame without a tick.
    pub fn run_frame(&mut self, world: &mut World) -> (tick: bool)
        ensures
            tick == old(self)@.start_of_frame(world_framesteps(*old(world))).ticks(),
            frame_done(
                old(self)@,
                world_framesteps(*old(world)),
                final(self)@,
                world_framesteps(*final(world)),
            ),
            final(self)@.name == old(self)@.name,
            final(self)@.stages.len() == old(self)@.stages.len(),
            old(self)@.start_of_frame(world_framesteps(*old(world))).paused ==> *final(world)
                == *old(world),
    {
        let ghost shared = world_framesteps(*world);
        self.pull(world);
        if self.paused {
            return false;
        }
        if self.accumulator == u32::MAX {
            self.store_fixedframestepinfo(world);
            Self::finish(world);
            return false;
        }
        if self.advance(world) {
            let ghost due = self@;
            let ghost begun = *world;
            self.run_child_stages(world);
            let ghost worlds = choose|worlds: Seq<World>|
                stages_ran(due, begun, self@, *world, worlds);
            Self::finish(world);
            assert(tick_done(old(self)@, shared, self@, world_framesteps(*world), worlds));
            true
        } else {
            false
        }
    }
}

impl Stage for FixedFramestepStage {
    /// Runs one frame of the fixed framestep, as [`FixedFramestepStage::run_frame`] does.
    fn run(&mut self, world: &mut World)
        ensures
            frame_done(
                old(self)@,
                world_framesteps(*old(world)),
                final(self)@,
                world_framesteps(*final(world)),
            ),
            final(self)@.name == old(self)@.name,
            final(self)@.stages.len() == old(self)@.stages.len(),
            old(self)@.start_of_frame(world_framesteps(*old(world))).paused ==> *final(world)
                == *old(world),
    {
        self.run_frame(world);
    }
}

} // verus!
