use simcore::timing::{
    should_snap, snap_frame_time, LockstepLoop, MAX_ACC_VALUE, NANOS_120FPS, NANOS_15FPS,
    NANOS_20FPS, NANOS_30FPS, NANOS_60FPS,
};

#[test]
fn frame_lengths_are_whole_nanoseconds() {
    assert_eq!(NANOS_120FPS, 8_333_333);
    assert_eq!(NANOS_60FPS, 16_666_666);
    assert_eq!(NANOS_30FPS, 33_333_333);
    assert_eq!(NANOS_20FPS, 50_000_000);
    assert_eq!(NANOS_15FPS, 66_666_666);
    assert_eq!(MAX_ACC_VALUE, 125_000_000);
}

#[test]
fn snap_within_threshold_on_either_side() {
    assert!(should_snap(16_766_666, NANOS_60FPS));
    assert!(should_snap(16_466_667, NANOS_60FPS));
    assert!(should_snap(NANOS_60FPS, NANOS_60FPS));
}

#[test]
fn no_snap_at_or_past_threshold() {
    assert!(!should_snap(16_866_666, NANOS_60FPS));
    assert!(!should_snap(16_466_666, NANOS_60FPS));
    assert!(!should_snap(0, NANOS_60FPS));
}

#[test]
fn snapped_frame_times() {
    assert_eq!(snap_frame_time(8_400_000), NANOS_120FPS);
    assert_eq!(snap_frame_time(16_700_000), NANOS_60FPS);
    assert_eq!(snap_frame_time(33_400_000), NANOS_30FPS);
    assert_eq!(snap_frame_time(50_100_000), NANOS_20FPS);
    assert_eq!(snap_frame_time(66_700_000), NANOS_15FPS);
    assert_eq!(snap_frame_time(10_000_000), 10_000_000);
    assert_eq!(snap_frame_time(0), 0);
}

#[test]
fn from_fps_divides_one_second() {
    let l = LockstepLoop::from_fps(60);
    assert_eq!(l.fps(), 60);
    assert_eq!(l.nanos_per_frame(), 16_666_666);
    assert_eq!(LockstepLoop::from_fps(1).nanos_per_frame(), 1_000_000_000);
}

#[test]
fn one_snapped_frame_gives_one_tick() {
    let p = LockstepLoop::from_fps(60).plan_frame(0, 16_700_000);
    assert_eq!(p.ticks, 1);
    assert_eq!(p.acc, 0);
    assert_eq!(p.sleep_nanos, 16_666_666);
}

#[test]
fn slow_frame_gives_two_ticks_and_keeps_remainder() {
    let p = LockstepLoop::from_fps(60).plan_frame(0, 40_000_000);
    assert_eq!(p.ticks, 2);
    assert_eq!(p.acc, 6_666_668);
    assert_eq!(p.sleep_nanos, 9_999_998);
}

#[test]
fn leftover_adds_to_next_frame() {
    let p = LockstepLoop::from_fps(60).plan_frame(10_000_000, 10_000_000);
    assert_eq!(p.ticks, 1);
    assert_eq!(p.acc, 3_333_334);
    assert_eq!(p.sleep_nanos, 13_333_332);
}

#[test]
fn long_stall_is_capped() {
    let p = LockstepLoop::from_fps(60).plan_frame(0, 1_000_000_000);
    assert_eq!(p.ticks, 7);
    assert_eq!(p.acc, 8_333_338);
    assert_eq!(p.sleep_nanos, 8_333_328);
    let q = LockstepLoop::from_fps(60).plan_frame(u128::MAX, u128::MAX);
    assert_eq!(q.ticks, 7);
    assert_eq!(q.acc, 8_333_338);
}

#[test]
fn frames_longer_than_cap_never_tick() {
    let p = LockstepLoop::from_fps(4).plan_frame(0, 1_000_000_000);
    assert_eq!(p.ticks, 0);
    assert_eq!(p.acc, 125_000_000);
    assert_eq!(p.sleep_nanos, 125_000_000);
}
