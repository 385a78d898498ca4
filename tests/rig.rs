use viewport_camera::cursor::{CursorLock, CursorLockController};
use viewport_camera::input::{HeldButtons, HeldKeys, InputSnapshot, Key, Motion};
use viewport_camera::movement::{AxisVec, Axes, FRAME_SCALE_ONE};
use viewport_camera::pose::{turned_pitch, turned_yaw, CameraPose, Position};
use viewport_camera::rig::{CameraRig, WindowSize};
use viewport_camera::viewport::{Rect, Viewport};

fn axes() -> Axes {
    Axes { forward: AxisVec { x: 0, y: 0, z: -1_000_000 }, right: AxisVec { x: 1_000_000, y: 0, z: 0 } }
}

fn window() -> WindowSize {
    WindowSize { width: 1280, height: 720 }
}

fn input(held: &[Key], look: bool, dx: i64, dy: i64) -> InputSnapshot {
    let mut keys = HeldKeys::none();
    for k in held {
        keys.set(*k, true);
    }
    InputSnapshot { keys, buttons: HeldButtons { primary: false, secondary: look }, motion: Motion { dx, dy } }
}

fn rig() -> CameraRig {
    CameraRig::new(CameraPose::new(Position { x: 0, y: 1_000_000_000, z: 0 }, 0, 0))
}

#[test]
fn update_applies_rect_exactly() {
    let mut r = rig();
    let mut cursor = CursorLockController::new();
    let out = r.update(Some(Rect::from_pixels(10, 20, 640, 480)), &input(&[], false, 0, 0), &axes(), window(), FRAME_SCALE_ONE, &mut cursor);
    assert_eq!(out, Some(Viewport { x: 10, y: 20, width: 640, height: 480 }));
    assert_eq!(r.viewport(), out);
}

#[test]
fn update_keeps_target_on_degenerate_rect() {
    let mut r = rig();
    let mut cursor = CursorLockController::new();
    let idle = input(&[], false, 0, 0);
    r.update(Some(Rect::from_pixels(5, 5, 100, 100)), &idle, &axes(), window(), FRAME_SCALE_ONE, &mut cursor);
    let out = r.update(Some(Rect::from_pixels(0, 0, 0, 0)), &idle, &axes(), window(), FRAME_SCALE_ONE, &mut cursor);
    assert_eq!(out, Some(Viewport { x: 5, y: 5, width: 100, height: 100 }));
}

#[test]
fn look_held_moves_and_turns() {
    let mut r = rig();
    let mut cursor = CursorLockController::new();
    r.update(None, &input(&[Key::Forward, Key::Fast], true, 200, -100), &axes(), window(), FRAME_SCALE_ONE, &mut cursor);
    let p = r.pose();
    assert_eq!(p.position, Position { x: 0, y: 1_000_000_000, z: -500_000_000_000 });
    assert_eq!(p.yaw, turned_yaw(0, 200, 720));
    assert_eq!(p.pitch, turned_pitch(0, -100, 720));
    assert_eq!(cursor.state(), CursorLock::Locked);
    assert!(cursor.state().is_confined() && !cursor.state().is_visible());
}

#[test]
fn releasing_look_halts_the_camera() {
    let mut r = rig();
    let mut cursor = CursorLockController::new();
    r.update(None, &input(&[Key::Forward], true, 50, 50), &axes(), window(), FRAME_SCALE_ONE, &mut cursor);
    let held = r.pose();
    assert_eq!(cursor.state(), CursorLock::Locked);
    r.update(None, &input(&[Key::Forward, Key::StrafeLeft, Key::Up], false, 900, 900), &axes(), window(), FRAME_SCALE_ONE, &mut cursor);
    assert_eq!(r.pose(), held);
    assert_eq!(cursor.state(), CursorLock::Free);
    assert!(!cursor.state().is_confined() && cursor.state().is_visible());
}

#[test]
fn window_scale_is_smaller_side() {
    assert_eq!(WindowSize { width: 1280, height: 720 }.look_scale(), 720);
    assert_eq!(WindowSize { width: 600, height: 900 }.look_scale(), 600);
    assert_eq!(WindowSize { width: 0, height: 900 }.look_scale(), 0);
}

#[test]
fn cursor_apply_is_idempotent() {
    let mut c = CursorLockController::new();
    assert_eq!(c.state(), CursorLock::Free);
    assert!(!c.apply(false));
    assert!(c.apply(true));
    assert!(!c.apply(true));
    assert_eq!(c.state(), CursorLock::Locked);
    assert!(c.apply(false));
    assert_eq!(c.state(), CursorLock::Free);
}

#[test]
fn new_rig_has_no_target_and_clamped_pitch() {
    let r = CameraRig::new(CameraPose { position: Position { x: 0, y: 0, z: 0 }, yaw: 3, pitch: i64::MAX });
    assert_eq!(r.viewport(), None);
    assert_eq!(r.pose().pitch, viewport_camera::pose::PITCH_LIMIT);
    assert_eq!(r.pose().yaw, 3);
}
