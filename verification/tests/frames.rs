use bevy_ecs::schedule::{Schedule, Stage, SystemStage};
use bevy_ecs::system::{ResMut, Resource};
use bevy_ecs::world::World;
use fixed_framestep::{
    FixedFramestepInfo, FixedFramestepStage, FixedFramesteps, FixedFrametepStageLabel,
};

/// Counts how often the child stages of a fixed framestep ran.
struct Ticks(u32);

impl Resource for Ticks {}

/// What the child stages saw in the resource, one entry per run.
struct Seen(Vec<Option<FixedFramestepInfo>>);

impl Resource for Seen {}

/// A child stage that only counts its runs.
struct CountTick;

impl Stage for CountTick {
    fn run(&mut self, world: &mut World) {
        world.resource_mut::<Ticks>().0 += 1;
    }
}

/// A child stage that notes what `get_current` shows while it runs.
struct Look;

impl Stage for Look {
    fn run(&mut self, world: &mut World) {
        let now = world.resource::<FixedFramesteps>().get_current().copied();
        world.resource_mut::<Seen>().0.push(now);
    }
}

/// A child stage that writes new parameters for the running fixed framestep.
struct Write(FixedFramestepInfo);

impl Stage for Write {
    fn run(&mut self, world: &mut World) {
        *world.resource_mut::<FixedFramesteps>().current_mut() = self.0;
    }
}

/// A child stage that pauses the running fixed framestep.
struct Pause;

impl Stage for Pause {
    fn run(&mut self, world: &mut World) {
        world.resource_mut::<FixedFramesteps>().current_mut().pause();
    }
}

/// A child stage that takes the whole resource out of the world.
struct Forget;

impl Stage for Forget {
    fn run(&mut self, world: &mut World) {
        world.remove_resource::<FixedFramesteps>();
    }
}

fn new_world() -> World {
    let mut world = World::new();
    world.insert_resource(Ticks(0));
    world.insert_resource(Seen(Vec::new()));
    world
}

fn shown(world: &World, label: &'static str) -> FixedFramestepInfo {
    *world.resource::<FixedFramesteps>().get(label).unwrap()
}

fn ticks(world: &World) -> u32 {
    world.resource::<Ticks>().0
}

fn info(step: u32, accumulator: u32, paused: bool) -> FixedFramestepInfo {
    FixedFramestepInfo { step, accumulator, paused }
}

#[test]
fn step_three_ticks_on_the_third_frame() {
    let mut world = new_world();
    let mut stage = FixedFramestepStage::new(3, "physics").with_stage(CountTick);

    stage.run(&mut world);
    assert_eq!(ticks(&world), 0);
    assert_eq!(shown(&world, "physics"), info(3, 1, false));

    stage.run(&mut world);
    assert_eq!(ticks(&world), 0);
    assert_eq!(shown(&world, "physics").accumulator, 2);

    stage.run(&mut world);
    assert_eq!(ticks(&world), 1);
    assert_eq!(shown(&world, "physics").accumulator, 0);

    stage.run(&mut world);
    assert_eq!(ticks(&world), 1);
    assert_eq!(shown(&world, "physics").accumulator, 1);
    assert_eq!(stage.info(), info(3, 1, false));
}

#[test]
fn run_frame_says_whether_it_ticked() {
    let mut world = new_world();
    let mut stage = FixedFramestepStage::new(2, "physics").with_stage(CountTick);
    assert!(!stage.run_frame(&mut world));
    assert!(stage.run_frame(&mut world));
    assert!(!stage.run_frame(&mut world));
    assert!(stage.run_frame(&mut world));
    assert_eq!(ticks(&world), 2);
}

#[test]
fn ten_frames_of_step_four_tick_twice() {
    let mut world = new_world();
    let mut stage = FixedFramestepStage::new(4, "physics").with_stage(CountTick);
    let mut ticked = 0;
    for _ in 0..10 {
        if stage.run_frame(&mut world) {
            ticked += 1;
        }
    }
    assert_eq!(ticked, 10 / 4);
    assert_eq!(ticks(&world), 2);
    assert_eq!(stage.info().accumulator, 10 % 4);
    assert_eq!(shown(&world, "physics"), info(4, 2, false));
}

#[test]
fn step_one_ticks_every_frame() {
    let mut world = new_world();
    let mut stage = FixedFramestepStage::new(1, "each").with_stage(CountTick);
    for frame in 1..=5 {
        assert!(stage.run_frame(&mut world));
        assert_eq!(ticks(&world), frame);
        assert_eq!(stage.info().accumulator, 0);
    }
}

#[test]
fn tick_without_child_stages_starts_over() {
    let mut world = new_world();
    let mut stage = FixedFramestepStage::new(2, "bare");
    assert_eq!(stage.stage_count(), 0);
    assert!(!stage.run_frame(&mut world));
    assert!(stage.run_frame(&mut world));
    assert_eq!(stage.info(), info(2, 0, false));
    assert_eq!(shown(&world, "bare"), info(2, 0, false));
    assert!(world.resource::<FixedFramesteps>().get_current().is_none());
}

#[test]
fn child_stage_changes_step_in_the_middle_of_a_tick() {
    let mut world = new_world();
    let mut stage = FixedFramestepStage::new(2, "net")
        .with_stage(Look)
        .with_stage(Write(info(5, 0, false)))
        .with_stage(Look)
        .with_stage(Look);

    stage.run(&mut world);
    assert!(world.resource::<Seen>().0.is_empty());
    stage.run(&mut world);

    assert_eq!(
        world.resource::<Seen>().0,
        vec![Some(info(2, 0, false)), Some(info(5, 0, false)), Some(info(5, 0, false))]
    );
    assert_eq!(stage.info(), info(5, 0, false));
    assert_eq!(shown(&world, "net"), info(5, 0, false));

    // From now on the step is five frames.
    for _ in 0..4 {
        assert!(!stage.run_frame(&mut world));
    }
    assert!(stage.run_frame(&mut world));
}

#[test]
fn accumulator_beyond_step_does_not_catch_up() {
    let mut world = new_world();
    let mut stage = FixedFramestepStage::new(2, "late")
        .with_stage(Write(info(2, 2 + 5, false)))
        .with_stage(CountTick);

    stage.run(&mut world);
    stage.run(&mut world);
    assert_eq!(ticks(&world), 1);
    assert_eq!(stage.info(), info(2, 7, false));

    for frame in 1..=20 {
        assert!(!stage.run_frame(&mut world));
        assert_eq!(stage.info().accumulator, 7 + frame);
    }
    assert_eq!(ticks(&world), 1);
    assert_eq!(shown(&world, "late"), info(2, 27, false));
}

#[test]
fn pause_in_a_child_stage_does_not_stop_the_tick() {
    let mut world = new_world();
    let mut stage = FixedFramestepStage::new(1, "ai")
        .with_stage(CountTick)
        .with_stage(Pause)
        .with_stage(CountTick)
        .with_stage(CountTick);

    assert!(stage.run_frame(&mut world));
    assert_eq!(ticks(&world), 3);
    assert_eq!(stage.info(), info(1, 0, true));

    // The pause holds from the next frame on.
    for _ in 0..3 {
        assert!(!stage.run_frame(&mut world));
    }
    assert_eq!(ticks(&world), 3);
    assert_eq!(stage.info(), info(1, 0, true));
    assert_eq!(shown(&world, "ai"), info(1, 0, true));
}

#[test]
fn pause_between_frames_holds_from_the_next_frame() {
    let mut world = new_world();
    let mut stage = FixedFramestepStage::new(3, "ai").with_stage(CountTick);
    stage.run(&mut world);
    assert_eq!(stage.info().accumulator, 1);

    world.resource_mut::<FixedFramesteps>().get_mut("ai").unwrap().pause();
    stage.run(&mut world);
    stage.run(&mut world);
    assert_eq!(stage.info(), info(3, 1, true));
    assert_eq!(ticks(&world), 0);

    world.resource_mut::<FixedFramesteps>().single_mut().unpause();
    stage.run(&mut world);
    assert_eq!(stage.info(), info(3, 2, false));
    stage.run(&mut world);
    assert_eq!(ticks(&world), 1);
}

#[test]
fn step_is_pulled_but_accumulator_is_not() {
    let mut world = new_world();
    let mut stage = FixedFramestepStage::new(10, "slow").with_stage(CountTick);
    stage.run(&mut world);
    *world.resource_mut::<FixedFramesteps>().get_mut("slow").unwrap() = info(3, 100, false);

    stage.run(&mut world);
    // Step 3 from the world, accumulator 1 + 1 from the stage itself.
    assert_eq!(stage.info(), info(3, 2, false));
    assert_eq!(shown(&world, "slow"), info(3, 2, false));
    assert!(stage.run_frame(&mut world));
}

#[test]
fn stage_begun_paused_leaves_the_world_alone() {
    let mut world = new_world();
    let mut stage = FixedFramestepStage::new(1, "held").paused().with_stage(CountTick);
    assert_eq!(stage.info(), info(1, 0, true));
    assert!(!stage.run_frame(&mut world));
    assert!(world.get_resource::<FixedFramesteps>().is_none());
    assert_eq!(ticks(&world), 0);
    assert_eq!(stage.info(), info(1, 0, true));
}

#[test]
fn world_shows_what_the_stage_has_after_every_frame() {
    let mut world = new_world();
    let mut stage = FixedFramestepStage::new(3, "mirror")
        .with_stage(Write(info(4, 1, false)))
        .with_stage(CountTick);
    for _ in 0..12 {
        stage.run(&mut world);
        assert_eq!(shown(&world, "mirror"), stage.info());
    }
    assert_eq!(stage.label(), "mirror");
}

#[test]
fn current_is_shown_only_while_child_stages_run() {
    let mut world = new_world();
    let mut stage = FixedFramestepStage::new(2, "now").with_stage(Look);

    stage.run(&mut world);
    assert!(world.resource::<FixedFramesteps>().get_current().is_none());
    stage.run(&mut world);
    assert_eq!(world.resource::<Seen>().0, vec![Some(info(2, 0, false))]);
    assert!(world.resource::<FixedFramesteps>().get_current().is_none());
    stage.run(&mut world);
    assert!(world.resource::<FixedFramesteps>().get_current().is_none());
    stage.run(&mut world);
    assert_eq!(world.resource::<Seen>().0.len(), 2);
    assert!(world.resource::<FixedFramesteps>().get_current().is_none());
}

#[test]
fn storing_marks_the_stage_until_finish() {
    let mut world = new_world();
    let stage = FixedFramestepStage::new(6, "wired");
    stage.store_fixedframestepinfo(&mut world);
    assert_eq!(shown(&world, "wired"), info(6, 0, false));
    assert_eq!(
        world.resource::<FixedFramesteps>().get_current(),
        Some(&info(6, 0, false))
    );

    // Storing again overwrites the entry, keeps the others and moves the mark.
    let other = FixedFramestepStage::new(9, "other").paused();
    other.store_fixedframestepinfo(&mut world);
    assert_eq!(world.resource::<FixedFramesteps>().get_current(), Some(&info(9, 0, true)));
    stage.store_fixedframestepinfo(&mut world);
    assert_eq!(world.resource::<FixedFramesteps>().current(), &info(6, 0, false));
    assert_eq!(shown(&world, "wired"), info(6, 0, false));
    assert_eq!(shown(&world, "other"), info(9, 0, true));

    FixedFramestepStage::finish(&mut world);
    assert!(world.resource::<FixedFramesteps>().get_current().is_none());
    assert_eq!(shown(&world, "wired"), info(6, 0, false));
    assert_eq!(shown(&world, "other"), info(9, 0, true));
}

#[test]
fn finish_leaves_a_world_without_the_resource_alone() {
    let mut world = new_world();
    FixedFramestepStage::finish(&mut world);
    assert!(world.get_resource::<FixedFramesteps>().is_none());
}

#[test]
fn frame_without_tick_takes_the_mark_off() {
    let mut world = new_world();
    let stage = FixedFramestepStage::new(6, "left");
    stage.store_fixedframestepinfo(&mut world);
    assert!(world.resource::<FixedFramesteps>().get_current().is_some());

    let mut other = FixedFramestepStage::new(2, "other").with_stage(CountTick);
    assert!(!other.run_frame(&mut world));
    assert!(world.resource::<FixedFramesteps>().get_current().is_none());
    assert_eq!(shown(&world, "other"), info(2, 1, false));
    assert_eq!(shown(&world, "left"), info(6, 0, false));
}

#[test]
fn full_accumulator_is_still_stored() {
    let mut world = new_world();
    let mut stage = FixedFramestepStage::new(1, "full")
        .with_stage(Write(info(7, u32::MAX, false)))
        .with_stage(CountTick);
    assert!(stage.run_frame(&mut world));
    world.remove_resource::<FixedFramesteps>();

    assert!(!stage.run_frame(&mut world));
    assert_eq!(stage.info(), info(7, u32::MAX, false));
    assert_eq!(shown(&world, "full"), info(7, u32::MAX, false));
    assert!(world.resource::<FixedFramesteps>().get_current().is_none());
    assert_eq!(ticks(&world), 1);
}

#[test]
fn full_accumulator_is_not_counted() {
    let mut world = new_world();
    let mut stage = FixedFramestepStage::new(1, "full")
        .with_stage(Write(info(7, u32::MAX, false)))
        .with_stage(CountTick);
    assert!(stage.run_frame(&mut world));
    assert_eq!(stage.info(), info(7, u32::MAX, false));

    assert!(!stage.run_frame(&mut world));
    assert_eq!(stage.info(), info(7, u32::MAX, false));
    assert_eq!(shown(&world, "full"), info(7, u32::MAX, false));
    assert_eq!(ticks(&world), 1);
}

#[test]
fn child_stage_may_take_the_resource_away() {
    let mut world = new_world();
    let mut stage = FixedFramestepStage::new(1, "gone").with_stage(Forget).with_stage(CountTick);
    assert!(stage.run_frame(&mut world));
    assert_eq!(ticks(&world), 1);
    assert!(world.get_resource::<FixedFramesteps>().is_none());
    assert_eq!(stage.info(), info(1, 0, false));
}

#[test]
fn two_stages_share_one_resource() {
    let mut world = new_world();
    let mut fast = FixedFramestepStage::new(2, "fast").with_stage(CountTick);
    let mut slow = FixedFramestepStage::new(3, "slow").with_stage(CountTick);
    for _ in 0..6 {
        fast.run(&mut world);
        slow.run(&mut world);
    }
    assert_eq!(ticks(&world), 3 + 2);
    assert_eq!(shown(&world, "fast"), info(2, 0, false));
    assert_eq!(shown(&world, "slow"), info(3, 0, false));
    assert!(world.resource::<FixedFramesteps>().get_single().is_none());
}

#[test]
fn child_stages_are_found_by_index_and_type() {
    let mut stage = FixedFramestepStage::from_stage(5, "typed", SystemStage::single_threaded());
    stage.add_stage(CountTick);
    assert_eq!(stage.stage_count(), 2);
    assert!(stage.get_child_stage::<SystemStage>(0).is_some());
    assert!(stage.get_child_stage::<CountTick>(0).is_none());
    assert!(stage.get_child_stage::<CountTick>(1).is_some());
    assert!(stage.get_child_stage::<CountTick>(2).is_none());
    assert!(stage.get_child_stage_mut::<SystemStage>(0).is_some());
    assert!(stage.get_child_stage_mut::<SystemStage>(1).is_none());
    assert!(stage.get_child_stage_mut::<SystemStage>(7).is_none());
    assert_eq!(stage.info(), info(5, 0, false));
}

fn double_the_step(mut framesteps: ResMut<FixedFramesteps>) {
    let current = framesteps.current_mut();
    current.step *= 2;
}

#[test]
fn systems_reach_the_running_framestep_in_a_schedule() {
    let mut world = new_world();
    let mut systems = SystemStage::single_threaded();
    systems.add_system(double_the_step);
    let mut schedule = Schedule::default();
    schedule.add_stage(
        FixedFrametepStageLabel("grow"),
        FixedFramestepStage::from_stage(1, "grow", systems),
    );

    schedule.run_once(&mut world);
    assert_eq!(shown(&world, "grow"), info(2, 0, false));
    schedule.run_once(&mut world);
    assert_eq!(shown(&world, "grow"), info(2, 1, false));
    schedule.run_once(&mut world);
    assert_eq!(shown(&world, "grow"), info(4, 0, false));

    let stage = schedule
        .get_stage::<FixedFramestepStage>(FixedFrametepStageLabel("grow"))
        .unwrap();
    assert_eq!(stage.info(), info(4, 0, false));
}

/// A child stage that adds its number to the count of ticks.
struct AddTo(u32);

impl Stage for AddTo {
    fn run(&mut self, world: &mut World) {
        world.resource_mut::<Ticks>().0 += self.0;
    }
}

#[test]
fn child_stage_changed_in_place_runs_changed() {
    let mut world = new_world();
    let mut stage = FixedFramestepStage::new(1, "edit").with_stage(AddTo(1)).with_stage(AddTo(10));

    // Asking for another type hands nothing out and changes nothing.
    assert!(stage.get_child_stage_mut::<CountTick>(1).is_none());
    assert!(stage.get_child_stage_mut::<AddTo>(2).is_none());
    assert_eq!(stage.stage_count(), 2);
    stage.run(&mut world);
    assert_eq!(ticks(&world), 11);

    stage.get_child_stage_mut::<AddTo>(1).unwrap().0 = 100;
    assert_eq!(stage.get_child_stage::<AddTo>(1).unwrap().0, 100);
    assert_eq!(stage.get_child_stage::<AddTo>(0).unwrap().0, 1);
    assert_eq!(stage.info(), info(1, 0, false));
    stage.run(&mut world);
    assert_eq!(ticks(&world), 11 + 101);
}
