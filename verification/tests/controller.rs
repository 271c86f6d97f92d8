//! Frame-update behaviour of the orbit controller, on concrete input batches.
//!
//! Units: angles and world lengths in millionths (micro), input samples in
//! thousandths (milli). So a pointer delta of 100.0 device units is 100_000,
//! a scroll of 5.0 lines is 5_000, a distance of 5.0 world units is 5_000_000.

use orbit_camera::run_frame;
use orbit_camera::update;
use orbit_camera::FrameOutcome;
use orbit_camera::OrbitState;
use orbit_camera::PointerDelta;
use orbit_camera::state::DELTA_LIMIT_MILLI;

#[test]
fn initial_state_values() {
    let s = OrbitState::initial();
    assert_eq!(s.focus.x, 0);
    assert_eq!(s.focus.y, 0);
    assert_eq!(s.focus.z, 0);
    assert_eq!(s.distance, 5_000_000);
    assert_eq!(s.yaw, 0);
    assert_eq!(s.pitch, 400_000);
}

#[test]
fn empty_input_leaves_state_unchanged() {
    for drag in [false, true] {
        let mut s = OrbitState::initial();
        let mut pointer: Vec<PointerDelta> = Vec::new();
        let mut scroll: Vec<i64> = Vec::new();
        update(&mut s, drag, &mut pointer, &mut scroll);
        assert_eq!(s, OrbitState::initial());
    }
}

#[test]
fn pointer_ignored_and_drained_without_drag() {
    let mut s = OrbitState::initial();
    let mut pointer = vec![
        PointerDelta { dx: 100_000, dy: 50_000 },
        PointerDelta { dx: -20_000, dy: 10_000 },
    ];
    let mut scroll: Vec<i64> = Vec::new();
    update(&mut s, false, &mut pointer, &mut scroll);
    assert_eq!(s, OrbitState::initial());
    assert!(pointer.is_empty());
}

#[test]
fn drag_turns_yaw_by_sensitivity() {
    // One sample of 100.0 device units to the right: yaw falls by 0.3 radians.
    let mut s = OrbitState::initial();
    let mut pointer = vec![PointerDelta { dx: 100_000, dy: 0 }];
    let mut scroll: Vec<i64> = Vec::new();
    update(&mut s, true, &mut pointer, &mut scroll);
    assert_eq!(s.yaw, -300_000);
    assert_eq!(s.pitch, 400_000);
    assert_eq!(s.distance, 5_000_000);
    assert!(pointer.is_empty());
}

#[test]
fn drag_folds_samples_in_order() {
    let mut s = OrbitState::initial();
    let mut pointer = vec![
        PointerDelta { dx: 100_000, dy: 50_000 },
        PointerDelta { dx: -30_000, dy: 10_000 },
    ];
    let mut scroll: Vec<i64> = Vec::new();
    update(&mut s, true, &mut pointer, &mut scroll);
    assert_eq!(s.yaw, -3 * (100_000 - 30_000));
    assert_eq!(s.pitch, 400_000 - 3 * (50_000 + 10_000));
    assert!(pointer.is_empty());
}

#[test]
fn pitch_saturates_under_huge_drag() {
    // 10000.0 device units of downward motion in one batch: the raw pitch
    // would be far outside the bounds; the observed pitch sits exactly on
    // the bound, with no way to overshoot.
    let mut s = OrbitState::initial();
    let mut pointer = vec![PointerDelta { dx: 0, dy: 10_000_000 }];
    let mut scroll: Vec<i64> = Vec::new();
    update(&mut s, true, &mut pointer, &mut scroll);
    assert_eq!(s.pitch, -1_500_000);

    let mut pointer_up = vec![PointerDelta { dx: 0, dy: -10_000_000 }];
    update(&mut s, true, &mut pointer_up, &mut scroll);
    assert_eq!(s.pitch, 1_500_000);
}

#[test]
fn distance_saturates_at_lower_bound() {
    // Scrolling 5.0 lines in, frame after frame: 5.0 -> 2.5 -> 2.0 -> 2.0 ...
    let mut s = OrbitState::initial();
    let mut observed: Vec<i64> = Vec::new();
    for _ in 0..10 {
        let mut pointer: Vec<PointerDelta> = Vec::new();
        let mut scroll = vec![5_000i64];
        update(&mut s, false, &mut pointer, &mut scroll);
        observed.push(s.distance);
    }
    assert_eq!(observed[0], 2_500_000);
    assert_eq!(observed[1], 2_000_000);
    for d in observed {
        assert!(d >= 2_000_000);
    }
    assert_eq!(s.distance, 2_000_000);
}

#[test]
fn distance_saturates_at_upper_bound() {
    let mut s = OrbitState::initial();
    let mut pointer: Vec<PointerDelta> = Vec::new();
    let mut scroll = vec![-100_000i64];
    update(&mut s, false, &mut pointer, &mut scroll);
    assert_eq!(s.distance, 20_000_000);
}

#[test]
fn distance_clamped_after_whole_fold() {
    // A batch that overshoots the lower bound and comes back within one
    // frame: the clamp applies to the folded total, so the distance is
    // unchanged.
    let mut s = OrbitState::initial();
    let mut pointer: Vec<PointerDelta> = Vec::new();
    let mut scroll = vec![10_000i64, -10_000i64];
    update(&mut s, false, &mut pointer, &mut scroll);
    assert_eq!(s.distance, 5_000_000);
}

#[test]
fn pitch_clamped_after_whole_fold() {
    // Same for pitch: a down-then-up batch of huge samples cancels out.
    let mut s = OrbitState::initial();
    let mut pointer = vec![
        PointerDelta { dx: 0, dy: 1_000_000 },
        PointerDelta { dx: 0, dy: -1_000_000 },
    ];
    let mut scroll: Vec<i64> = Vec::new();
    update(&mut s, true, &mut pointer, &mut scroll);
    assert_eq!(s.pitch, 400_000);
}

#[test]
fn zoom_does_not_depend_on_drag() {
    let mut with_drag = OrbitState::initial();
    let mut pointer = vec![PointerDelta { dx: 77_000, dy: -12_000 }];
    let mut scroll = vec![3_000i64, -1_000i64];
    update(&mut with_drag, true, &mut pointer, &mut scroll);

    let mut without_drag = OrbitState::initial();
    let mut no_pointer: Vec<PointerDelta> = Vec::new();
    let mut same_scroll = vec![3_000i64, -1_000i64];
    update(&mut without_drag, false, &mut no_pointer, &mut same_scroll);

    assert_eq!(with_drag.distance, without_drag.distance);
    assert_eq!(with_drag.distance, 5_000_000 - 500 * 2_000);
}

#[test]
fn scroll_drained_every_frame() {
    for drag in [false, true] {
        let mut s = OrbitState::initial();
        let mut pointer = vec![PointerDelta { dx: 1_000, dy: 1_000 }];
        let mut scroll = vec![1_000i64];
        update(&mut s, drag, &mut pointer, &mut scroll);
        assert!(pointer.is_empty());
        assert!(scroll.is_empty());
    }
}

#[test]
fn yaw_accumulates_across_frames_unclamped() {
    let mut s = OrbitState::initial();
    for _ in 0..100 {
        let mut pointer = vec![PointerDelta { dx: -1_000_000, dy: 0 }];
        let mut scroll: Vec<i64> = Vec::new();
        update(&mut s, true, &mut pointer, &mut scroll);
    }
    // 100 frames of 1000.0 device units leftward: yaw grows by 3.0 radians
    // per frame, well past a full turn, and is never wrapped or clamped.
    assert_eq!(s.yaw, 300_000_000);
}

#[test]
fn yaw_saturates_only_at_integer_range_end() {
    let mut s = OrbitState::initial();
    s.yaw = i64::MIN + 1_000_000_000_000;
    let mut pointer = vec![PointerDelta { dx: DELTA_LIMIT_MILLI, dy: 0 }];
    let mut scroll: Vec<i64> = Vec::new();
    update(&mut s, true, &mut pointer, &mut scroll);
    assert_eq!(s.yaw, i64::MIN);
}

#[test]
fn focus_never_moves() {
    let mut s = OrbitState::initial();
    let mut pointer = vec![PointerDelta { dx: 5_000, dy: 5_000 }];
    let mut scroll = vec![2_000i64];
    update(&mut s, true, &mut pointer, &mut scroll);
    assert_eq!(s.focus.x, 0);
    assert_eq!(s.focus.y, 0);
    assert_eq!(s.focus.z, 0);
}

#[test]
fn frame_with_single_camera_updates_it() {
    let mut cameras = vec![OrbitState::initial()];
    let mut pointer = vec![PointerDelta { dx: 100_000, dy: 0 }];
    let mut scroll = vec![5_000i64];
    let outcome = run_frame(&mut cameras, true, &mut pointer, &mut scroll);
    assert_eq!(outcome, FrameOutcome::Updated);
    assert_eq!(cameras.len(), 1);
    assert_eq!(cameras[0].yaw, -300_000);
    assert_eq!(cameras[0].distance, 2_500_000);
    assert!(pointer.is_empty());
    assert!(scroll.is_empty());
}

#[test]
fn frame_with_no_camera_is_a_silent_skip() {
    let mut cameras: Vec<OrbitState> = Vec::new();
    let mut pointer = vec![PointerDelta { dx: 100_000, dy: 0 }];
    let mut scroll = vec![5_000i64];
    let outcome = run_frame(&mut cameras, true, &mut pointer, &mut scroll);
    assert_eq!(outcome, FrameOutcome::MissingController);
    assert!(cameras.is_empty());
    // Nothing was read: the queues are left for the host to keep or drop.
    assert_eq!(pointer.len(), 1);
    assert_eq!(scroll.len(), 1);
}

#[test]
fn frame_with_two_cameras_is_a_silent_skip() {
    let mut cameras = vec![OrbitState::initial(), OrbitState::initial()];
    let mut pointer = vec![PointerDelta { dx: 100_000, dy: 0 }];
    let mut scroll = vec![5_000i64];
    let outcome = run_frame(&mut cameras, false, &mut pointer, &mut scroll);
    assert_eq!(outcome, FrameOutcome::MissingController);
    assert_eq!(cameras.len(), 2);
    assert_eq!(cameras[0], OrbitState::initial());
    assert_eq!(cameras[1], OrbitState::initial());
}

#[test]
fn missing_then_restored_camera_self_heals() {
    // A frame during teardown sees no camera and skips; once a unique
    // camera exists again the same queues are consumed normally.
    let mut cameras: Vec<OrbitState> = Vec::new();
    let mut pointer: Vec<PointerDelta> = Vec::new();
    let mut scroll = vec![1_000i64];
    assert_eq!(
        run_frame(&mut cameras, false, &mut pointer, &mut scroll),
        FrameOutcome::MissingController
    );
    cameras.push(OrbitState::initial());
    assert_eq!(
        run_frame(&mut cameras, false, &mut pointer, &mut scroll),
        FrameOutcome::Updated
    );
    assert_eq!(cameras[0].distance, 5_000_000 - 500_000);
    assert!(scroll.is_empty());
}
