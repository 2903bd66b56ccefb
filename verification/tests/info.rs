use fixed_framestep::{FixedFramestepInfo, FrameCounter, FramestepName};

fn some_info() -> FixedFramestepInfo {
    FixedFramestepInfo { step: 3, accumulator: 7, paused: false }
}

#[test]
fn framestep_is_the_step() {
    let step: FrameCounter = some_info().framestep();
    assert_eq!(step, 3);
}

#[test]
fn remaining_is_the_accumulator() {
    assert_eq!(some_info().remaining(), 7);
}

#[test]
fn overstep_is_accumulator_less_step() {
    assert_eq!(some_info().overstep(), 4);
    let even = FixedFramestepInfo { step: 5, accumulator: 5, paused: true };
    assert_eq!(even.overstep(), 0);
    let wide = FixedFramestepInfo { step: 1, accumulator: u32::MAX, paused: false };
    assert_eq!(wide.overstep(), u32::MAX - 1);
}

#[test]
fn pause_and_unpause_touch_only_the_flag() {
    let mut info = some_info();
    info.pause();
    assert_eq!(info, FixedFramestepInfo { step: 3, accumulator: 7, paused: true });
    info.pause();
    assert!(info.paused);
    info.unpause();
    assert_eq!(info, some_info());
    info.unpause();
    assert!(!info.paused);
}

#[test]
fn toggle_pause_flips_the_flag() {
    let mut info = some_info();
    info.toggle_pause();
    assert_eq!(info, FixedFramestepInfo { step: 3, accumulator: 7, paused: true });
    info.toggle_pause();
    assert_eq!(info, some_info());
}

#[test]
fn names_are_static_strings() {
    let name: FramestepName = "physics";
    assert_eq!(name.len(), 7);
}
