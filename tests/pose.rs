use viewport_camera::input::Motion;
use viewport_camera::pose::{turned_pitch, turned_yaw, CameraPose, Position, LOOK_RATE, PITCH_LIMIT};

fn origin() -> Position {
    Position { x: 0, y: 0, z: 0 }
}

#[test]
fn yaw_turns_against_motion_and_wraps() {
    assert_eq!(turned_yaw(0, 1000, 1), 18446737924794860616);
    assert_eq!(turned_yaw(5, -1000, 1), 6148914691005);
    assert_eq!(turned_yaw(5, -1000, 1), 5 + 1000 * LOOK_RATE);
    assert_eq!(turned_yaw(123, 0, 1080), 123);
    assert_eq!(turned_yaw(123, 1000, 0), 123);
}

#[test]
fn yaw_survives_extreme_motion() {
    assert_eq!(turned_yaw(0, i64::MAX, u32::MAX), 17186015460735255037);
    assert_eq!(turned_yaw(0, i64::MIN, u32::MAX), 9223372036854775808);
}

#[test]
fn pitch_turns_against_motion() {
    assert_eq!(turned_pitch(0, 1000, 800), -4919131752800000);
    assert_eq!(turned_pitch(0, -1000, 800), 4919131752800000);
    assert_eq!(turned_pitch(-77, 0, 800), -77);
}

#[test]
fn pitch_is_clamped_however_large_the_motion() {
    assert_eq!(turned_pitch(0, i64::MAX, u32::MAX), -PITCH_LIMIT);
    assert_eq!(turned_pitch(0, i64::MIN, u32::MAX), PITCH_LIMIT);
    assert_eq!(turned_pitch(PITCH_LIMIT - 10, -1, 1), PITCH_LIMIT);
    assert_eq!(turned_pitch(-PITCH_LIMIT, 1, 1), -PITCH_LIMIT);
    assert_eq!(turned_pitch(i64::MAX, 0, 1), PITCH_LIMIT);
    let mut pose = CameraPose::new(origin(), 0, 0);
    for _ in 0..50 {
        pose.look(Motion { dx: 0, dy: -40_000_000 }, 1440);
        assert!(pose.pitch <= PITCH_LIMIT && pose.pitch >= -PITCH_LIMIT);
    }
    assert_eq!(pose.pitch, PITCH_LIMIT);
}

#[test]
fn new_pose_clamps_pitch() {
    assert_eq!(CameraPose::new(origin(), 9, i64::MIN).pitch, -PITCH_LIMIT);
    assert_eq!(CameraPose::new(origin(), 9, i64::MAX).pitch, PITCH_LIMIT);
    let p = CameraPose::new(Position { x: 1, y: 2, z: 3 }, 9, -4);
    assert_eq!(p, CameraPose { position: Position { x: 1, y: 2, z: 3 }, yaw: 9, pitch: -4 });
}

#[test]
fn yaw_is_unaffected_by_the_pitch_clamp() {
    let motion = Motion { dx: 300, dy: -9_000_000_000 };
    let mut low = CameraPose::new(origin(), 7, 0);
    let mut high = CameraPose::new(origin(), 7, PITCH_LIMIT);
    low.look(motion, 1920);
    high.look(motion, 1920);
    assert_eq!(low.yaw, high.yaw);
    assert_eq!(high.pitch, PITCH_LIMIT);
    assert_eq!(low.yaw, turned_yaw(7, 300, 1920));
}

#[test]
fn yaw_accumulates_across_frames() {
    let mut pose = CameraPose::new(origin(), 7, 0);
    pose.look(Motion { dx: 300, dy: 0 }, 1920);
    pose.look(Motion { dx: 450, dy: 0 }, 1920);
    assert_eq!(pose.yaw, turned_yaw(7, 750, 1920));
    assert_eq!(pose.yaw, 18437889636554511623);
}
