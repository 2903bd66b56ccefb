//! What holds of every fixed framestep, proved from the contracts of the stage.

use vstd::prelude::*;
use bevy_ecs::world::World;
use vstd::arithmetic::div_mod::{
    lemma_basic_div,
    lemma_div_plus_one,
    lemma_mod_add_multiples_vanish,
    lemma_small_mod,
};
use crate::framesteps::FramestepsView;
use crate::info::FixedFramestepInfo;
use crate::stage::{
    advanced,
    at_rest,
    children_ran,
    frame_done,
    idle,
    published,
    shared_info,
    synced,
    tick_done,
    StageView,
};
use crate::world::world_framesteps;

verus! {

/// A fixed framestep that is not paused and whose accumulator is below its step ticks
/// every `step` frames, as long as nothing but its own counter touches its parameters:
/// of `n` frames, `(accumulator + n) / step` tick, and `(accumulator + n) % step` frames
/// are left in the accumulator.
pub proof fn lemma_ticks_every_step(info: FixedFramestepInfo, n: nat)
    requires
        info.step > 0,
        !info.paused,
        info.accumulator < info.step,
    ensures
        info.ticks_in(n) == (info.accumulator + n) / (info.step as int),
        info.after_frames(n) == (FixedFramestepInfo {
            accumulator: ((info.accumulator + n) % (info.step as int)) as u32,
            ..info
        }),
    decreases n,
{
    let step = info.step as int;
    let held = info.accumulator as int;
    if n == 0 {
        lemma_basic_div(held, step);
        lemma_small_mod(held as nat, step as nat);
    } else {
        let rest = (n - 1) as nat;
        lemma_ticks_every_step(info.ticked(), rest);
        if info.due() {
            assert(held + n == step + rest);
            lemma_div_plus_one(rest as int, step);
            lemma_mod_add_multiples_vanish(rest as int, step);
        }
    }
}

/// A new fixed framestep with step `step`, run for `n` frames on which it is never
/// paused and nothing but its own counter touches its parameters, ticks `n / step`
/// times and is left with `n % step` frames in its accumulator.
pub proof fn lemma_frames_of_new_stage(step: u32, n: nat)
    requires
        step > 0,
    ensures
        ({
            let info = FixedFramestepInfo { step, accumulator: 0, paused: false };
            &&& info.ticks_in(n) == n / (step as nat)
            &&& info.after_frames(n).accumulator == n % (step as nat)
            &&& info.after_frames(n).step == step
            &&& !info.after_frames(n).paused
        }),
{
    lemma_ticks_every_step(FixedFramestepInfo { step, accumulator: 0, paused: false }, n);
}

/// No frame ticks more than once, and there is no catching up: an accumulator that was
/// set to the step or beyond it does not tick on the next frame, nor on any frame after
/// it while it can still count. Only an accumulator that comes onto the step exactly
/// ticks.
pub proof fn lemma_no_catch_up(info: FixedFramestepInfo, n: nat)
    requires
        !info.paused,
        info.accumulator >= info.step,
        info.accumulator + n <= u32::MAX,
    ensures
        info.ticks_in(n) == 0,
        info.after_frames(n) == (FixedFramestepInfo {
            accumulator: (info.accumulator + n) as u32,
            ..info
        }),
    decreases n,
{
    if n > 0 {
        lemma_no_catch_up(info.ticked(), (n - 1) as nat);
    }
}

/// A frame of any fixed framestep, whatever its parameters are, ticks at most once.
pub proof fn lemma_one_tick_a_frame(info: FixedFramestepInfo)
    ensures
        info.ticks_in(1) <= 1,
        info.ticks_in(1) == 1 <==> info.ticks(),
{
    reveal_with_fuel(FixedFramestepInfo::ticks_in, 2);
}

/// A pause takes effect at the start of the next frame. A stage whose name the world
/// shows as paused when a frame begins does not count that frame and does not tick: it
/// takes over the step and the paused state, and leaves its accumulator, its child
/// stages and the world as they are.
pub proof fn lemma_paused_frame_rests(
    before: StageView,
    shared: FramestepsView,
    after: StageView,
    left: Option<FramestepsView>,
)
    requires
        shared.get(before.name).is_some(),
        shared.get(before.name).unwrap().paused,
        frame_done(before, Some(shared), after, left),
    ensures
        !before.start_of_frame(Some(shared)).ticks(),
        after == before.with_info(
            FixedFramestepInfo {
                step: shared.get(before.name).unwrap().step,
                accumulator: before.info.accumulator,
                paused: true,
            },
        ),
        left == Some(shared),
{
}

/// A pause that a child stage writes to the world while a tick is running reaches the
/// stage with the next [`crate::stage::FixedFramestepStage::sync`], which only copies
/// it: the stage is then paused, and so is not counted from the next frame on.
pub proof fn lemma_pause_during_tick(own: FixedFramestepInfo, shown: FixedFramestepInfo)
    requires
        shown.paused,
    ensures
        synced(own, Some(shown)) == shown,
        !synced(own, Some(shown)).ticks(),
        synced(own, Some(shown)).ticked() == shown,
{
}

/// On a tick every child stage runs, once and in order, whatever the child stages
/// before it wrote to the world: a pause written in the middle of a tick stops none
/// of them. The first runs on a world that shows the stage as running with its
/// accumulator started over, each of the others on the world as the one before it
/// left it. A pause that the world still shows when the last one has run is then the
/// stage's own.
pub proof fn lemma_pause_does_not_stop_tick(
    before: StageView,
    shared: Option<FramestepsView>,
    after: StageView,
    left: Option<FramestepsView>,
)
    requires
        frame_done(before, shared, after, left),
        before.start_of_frame(shared).ticks(),
    ensures
        exists|worlds: Seq<World>|
            {
                &&& #[trigger] children_ran(before.stages, after.stages, worlds)
                &&& world_framesteps(worlds[0]) == Some(
                    advanced(shared, before.name, before.start_of_frame(shared)),
                )
                &&& left == idle(world_framesteps(worlds.last()))
            },
        shared_info(left, before.name).is_some() && shared_info(left, before.name).unwrap().paused
            ==> after.info.paused,
{
    let worlds = choose|worlds: Seq<World>| tick_done(before, shared, after, left, worlds);
    assert(children_ran(before.stages, after.stages, worlds));
    lemma_last_sync(before, shared, after, left, worlds);
}

/// After a tick with child stages the stage has what the last world shows under its
/// name, where that world shows anything; without child stages it has started over,
/// which the world shows.
proof fn lemma_last_sync(
    before: StageView,
    shared: Option<FramestepsView>,
    after: StageView,
    left: Option<FramestepsView>,
    worlds: Seq<World>,
)
    requires
        before.start_of_frame(shared).ticks(),
        tick_done(before, shared, after, left, worlds),
    ensures
        after.info == synced(after.info, shared_info(left, before.name)),
        at_rest(left),
        before.stages.len() == 0 ==> after.info == before.start_of_frame(shared).fired() && left
            == Some(
            published(shared, before.name, before.start_of_frame(shared).fired()).with_current(
                None,
            ),
        ),
{
    let later = worlds.skip(1);
    if before.stages.len() == 0 {
        assert(later.len() == 0);
        assert(worlds.last() == worlds.first());
    } else {
        assert(later.len() > 0);
        assert(later.last() == worlds.last());
    }
}

/// A tick of a stage without child stages starts the accumulator over and stores that:
/// the stage and the world are then exactly these.
pub proof fn lemma_tick_without_child_stages(
    before: StageView,
    shared: Option<FramestepsView>,
    after: StageView,
    left: Option<FramestepsView>,
)
    requires
        frame_done(before, shared, after, left),
        before.start_of_frame(shared).ticks(),
        before.stages.len() == 0,
    ensures
        after == before.with_info(before.start_of_frame(shared).fired()),
        left == Some(
            published(shared, before.name, before.start_of_frame(shared).fired()).with_current(
                None,
            ),
        ),
{
    let worlds = choose|worlds: Seq<World>| tick_done(before, shared, after, left, worlds);
    lemma_last_sync(before, shared, after, left, worlds);
    assert(after.stages =~= before.stages);
}

/// After a frame on which the stage was not paused, the world shows under the stage's
/// name exactly the parameters that the stage itself has. Where the frame ticked and
/// child stages ran, this holds if they left the stage's entry in the world.
pub proof fn lemma_world_shows_stage(
    before: StageView,
    shared: Option<FramestepsView>,
    after: StageView,
    left: Option<FramestepsView>,
)
    requires
        frame_done(before, shared, after, left),
        !before.start_of_frame(shared).paused,
        before.start_of_frame(shared).ticks() && before.stages.len() > 0 ==> shared_info(
            left,
            before.name,
        ).is_some(),
    ensures
        shared_info(left, before.name) == Some(after.info),
{
    if before.start_of_frame(shared).ticks() {
        let worlds = choose|worlds: Seq<World>| tick_done(before, shared, after, left, worlds);
        lemma_last_sync(before, shared, after, left, worlds);
    }
}

/// A frame on which the world shows nothing else under the stage's name than the stage
/// has itself, and on which no child stage changes that, is one step of the counter:
/// the stage goes from its parameters to `ticked()` of them.
pub proof fn lemma_untouched_frame_is_ticked(
    before: StageView,
    shared: Option<FramestepsView>,
    after: StageView,
    left: Option<FramestepsView>,
)
    requires
        before.info.paused || before.info.accumulator < u32::MAX,
        shared_info(shared, before.name).is_none() || shared_info(shared, before.name) == Some(
            before.info,
        ),
        frame_done(before, shared, after, left),
        before.stages.len() > 0 && before.info.ticks() ==> shared_info(left, before.name) == Some(
            before.info.fired(),
        ),
    ensures
        after.info == before.info.ticked(),
        !before.info.paused ==> shared_info(left, before.name) == Some(after.info),
{
    if before.start_of_frame(shared).ticks() {
        let worlds = choose|worlds: Seq<World>| tick_done(before, shared, after, left, worlds);
        lemma_last_sync(before, shared, after, left, worlds);
    }
}

/// While the child stages of a tick run, the resource marks the stage as running and
/// `get_current` shows its parameters; after a counted frame without a tick it marks
/// nothing.
pub proof fn lemma_running_during_tick(
    shared: Option<FramestepsView>,
    name: Seq<char>,
    info: FixedFramestepInfo,
)
    ensures
        info.due() ==> advanced(shared, name, info).get_current() == Some(info.fired()),
        !info.due() ==> advanced(shared, name, info).get_current().is_none(),
{
}

/// Outside a tick nothing is marked as running. A frame on which the stage was not
/// paused leaves the resource at rest, and a frame that began at rest ends at rest,
/// whether the stage was paused or not; `get_current` then shows nothing.
pub proof fn lemma_at_rest_after_frame(
    before: StageView,
    shared: Option<FramestepsView>,
    after: StageView,
    left: Option<FramestepsView>,
)
    requires
        frame_done(before, shared, after, left),
    ensures
        !before.start_of_frame(shared).paused ==> at_rest(left),
        at_rest(shared) ==> at_rest(left),
        at_rest(left) && left.is_some() ==> left.unwrap().get_current().is_none(),
{
    if before.start_of_frame(shared).ticks() {
        let worlds = choose|worlds: Seq<World>| tick_done(before, shared, after, left, worlds);
        lemma_last_sync(before, shared, after, left, worlds);
    }
}

} // verus!
