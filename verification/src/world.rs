//! The parts of a Bevy world that a fixed framestep touches: the `FixedFramesteps`
//! resource, and the child stages that run on the world.

use vstd::prelude::*;
use bevy_ecs::schedule::Stage;
use bevy_ecs::world::World;
use crate::framesteps::{FixedFramesteps, FramestepsView};

verus! {

/// The world of `bevy_ecs`. Verus does not look inside.
#[verifier::external_type_specification]
#[verifier::external_body]
pub struct ExWorld(World);

/// What a world holds as its `FixedFramesteps` resource, if it has one.
pub uninterp spec fn world_framesteps(world: World) -> Option<FramestepsView>;

/// `World::get_resource` for `FixedFramesteps`: the resource, if the world has one.
#[verifier::external_body]
pub(crate) fn get_framesteps(world: &World) -> (found: Option<&FixedFramesteps>)
    ensures
        world_framesteps(*world) == (match found {
            Some(framesteps) => Some(framesteps@),
            None => None,
        }),
{
    world.get_resource::<FixedFramesteps>()
}

/// `World::get_resource_mut` for `FixedFramesteps`, with the smart pointer that it
/// returns turned into a plain reference by `Mut::into_inner`, which also marks the
/// resource as changed. Whatever the caller leaves in the resource is what the world
/// then holds; a world without the resource stays without it.
#[verifier::external_body]
pub(crate) fn get_framesteps_mut(world: &mut World) -> (found: Option<&mut FixedFramesteps>)
    ensures
        match found {
            Some(framesteps) => world_framesteps(*old(world)) == Some(framesteps@)
                && world_framesteps(*final(world)) == Some(final(framesteps)@),
            None => world_framesteps(*old(world)).is_none() && world_framesteps(
                *final(world),
            ).is_none(),
        },
{
    match world.get_resource_mut::<FixedFramesteps>() {
        Some(framesteps) => Some(framesteps.into_inner()),
        None => None,
    }
}

/// `World::insert_resource` for `FixedFramesteps`: afterwards the world holds
/// `framesteps` as its resource, whether or not it had one before.
#[verifier::external_body]
pub(crate) fn insert_framesteps(world: &mut World, framesteps: FixedFramesteps)
    ensures
        world_framesteps(*final(world)) == Some(framesteps@),
{
    world.insert_resource(framesteps);
}

/// A child stage of a fixed framestep: any `Stage` of `bevy_ecs`, boxed. Verus does
/// not look inside, and nothing is known of what running it does to a world.
#[verifier::external_body]
pub struct ChildStage {
    inner: Box<dyn Stage>,
}

/// What running a child stage can do: whether a run of the child stage `before` on the
/// world `world` can leave the child stage as `after` and the world as `left`. For
/// which of them it holds is up to the stage. All that is known of it is that it holds
/// of every run that took place.
pub uninterp spec fn child_ran(before: ChildStage, world: World, after: ChildStage, left: World)
    -> bool;

impl ChildStage {
    /// Boxes `stage` as a child stage.
    #[verifier::external_body]
    pub(crate) fn boxed<S: Stage>(stage: S) -> (child: ChildStage) {
        ChildStage { inner: Box::new(stage) }
    }

    /// `Stage::run` of the boxed stage. It may do anything to the world, the
    /// `FixedFramesteps` resource included, so nothing is claimed of the world after
    /// it but that a run of this stage on this world left it. A panic of the stage
    /// passes through.
    #[verifier::external_body]
    pub(crate) fn run(&mut self, world: &mut World)
        ensures
            child_ran(*old(self), *old(world), *final(self), *final(world)),
    {
        self.inner.run(world);
    }

    /// `downcast_ref` of the boxed stage: the stage itself, if it is of type `S`.
    #[verifier::external_body]
    pub(crate) fn downcast_ref<S: Stage>(&self) -> (stage: Option<&S>) {
        self.inner.downcast_ref::<S>()
    }

    /// `downcast_mut` of the boxed stage: the stage itself, if it is of type `S`, to be
    /// changed in place. Where the stage is of another type nothing is handed out, and
    /// the child stage stays as it is.
    #[verifier::external_body]
    pub(crate) fn downcast_mut<S: Stage>(&mut self) -> (stage: Option<&mut S>)
        ensures
            stage.is_none() ==> *final(self) == *old(self),
    {
        self.inner.downcast_mut::<S>()
    }
}

} // verus!
