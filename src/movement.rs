//! Keyboard movement: which way the held keys push the camera, and how far.
use vstd::prelude::*;
use crate::input::{HeldKeys, Key};
use crate::pose::Position;

verus! {

/// The fixed-point scale of axis vectors: a component of `AXIS_SCALE` stands for 1.
pub const AXIS_SCALE: i32 = 1_000_000;

/// Pico-units moved per axis unit per thousandth of a reference frame at normal
/// speed: 0.1 world units along a unit axis in one reference frame.
pub const BASE_STEP: i64 = 100;

/// The frame scale of one reference frame; a frame scale is in thousandths of it.
pub const FRAME_SCALE_ONE: u32 = 1000;

/// The fast modifier multiplies the step by this factor.
pub const FAST_FACTOR: i64 = 5;

/// The slow modifier divides the step by this factor (a factor of 0.2).
pub const SLOW_DIVISOR: i64 = 5;

/// A direction in axis units (`AXIS_SCALE` stands for 1).
#[derive(Clone, Copy, Debug, PartialEq, Eq)]
pub struct AxisVec {
    pub x: i32,
    pub y: i32,
    pub z: i32,
}

/// The camera's own forward and right axes for its current orientation.
/// Vertical movement goes along the world's up axis instead.
#[derive(Clone, Copy, Debug, PartialEq, Eq)]
pub struct Axes {
    pub forward: AxisVec,
    pub right: AxisVec,
}

/// A direction in axis units.
#[derive(Clone, Copy, Debug, PartialEq, Eq)]
pub struct Offset {
    pub x: i64,
    pub y: i64,
    pub z: i64,
}

/// `v` when `held`, else zero.
pub open spec fn pick(held: bool, v: int) -> int {
    if held {
        v
    } else {
        0
    }
}

/// The movement direction: the plain sum of the axes that the held keys select
/// (forward, minus forward, minus right, right, minus world up, world up).
/// Opposite keys cancel; the sum is not normalised.
pub open spec fn direction(keys: HeldKeys, axes: Axes) -> (int, int, int) {
    let f = axes.forward;
    let r = axes.right;
    (
        pick(keys.forward, f.x as int) - pick(keys.backward, f.x as int) + pick(keys.strafe_right, r.x as int)
            - pick(keys.strafe_left, r.x as int),
        pick(keys.forward, f.y as int) - pick(keys.backward, f.y as int) + pick(keys.strafe_right, r.y as int)
            - pick(keys.strafe_left, r.y as int) + pick(keys.up, AXIS_SCALE as int) - pick(keys.down, AXIS_SCALE as int),
        pick(keys.forward, f.z as int) - pick(keys.backward, f.z as int) + pick(keys.strafe_right, r.z as int)
            - pick(keys.strafe_left, r.z as int),
    )
}

/// The step per axis unit: the base step, times the fast factor while the fast
/// key is held, divided by the slow divisor while the slow key is held.
pub open spec fn step(keys: HeldKeys) -> int {
    BASE_STEP * (if keys.fast { FAST_FACTOR as int } else { 1 }) / (if keys.slow { SLOW_DIVISOR as int } else { 1 })
}

/// A triple scaled by `k`.
pub open spec fn scaled(v: (int, int, int), k: int) -> (int, int, int) {
    (v.0 * k, v.1 * k, v.2 * k)
}

/// The displacement of one frame of scale `frame`: the direction times the
/// step times the frame scale.
pub open spec fn displacement(keys: HeldKeys, axes: Axes, frame: u32) -> (int, int, int) {
    scaled(direction(keys, axes), step(keys) * frame)
}

/// A position moved by `d`, each coordinate clamped to the range of `i64`.
pub open spec fn moved(p: Position, d: (int, int, int)) -> Position {
    Position { x: clamp_i64(p.x + d.0), y: clamp_i64(p.y + d.1), z: clamp_i64(p.z + d.2) }
}

/// The movement direction for the held keys, as [`direction`] says.
pub fn direction_of(keys: &HeldKeys, axes: &Axes) -> (r: Offset)
    ensures
        (r.x as int, r.y as int, r.z as int) == direction(*keys, *axes),
{
    let mut x: i64 = 0;
    let mut y: i64 = 0;
    let mut z: i64 = 0;
    let f = axes.forward;
    let rt = axes.right;
    if keys.forward {
        x = x + f.x as i64;
        y = y + f.y as i64;
        z = z + f.z as i64;
    }
    if keys.backward {
        x = x - f.x as i64;
        y = y - f.y as i64;
        z = z - f.z as i64;
    }
    if keys.strafe_right {
        x = x + rt.x as i64;
        y = y + rt.y as i64;
        z = z + rt.z as i64;
    }
    if keys.strafe_left {
        x = x - rt.x as i64;
        y = y - rt.y as i64;
        z = z - rt.z as i64;
    }
    if keys.up {
        y = y + AXIS_SCALE as i64;
    }
    if keys.down {
        y = y - AXIS_SCALE as i64;
    }
    Offset { x, y, z }
}

/// The step per axis unit for the held modifiers, as [`step`] says.
pub fn step_of(keys: &HeldKeys) -> (r: i64)
    ensures
        r == step(*keys),
        0 < r <= 500,
{
    let fast: i64 = if keys.fast { FAST_FACTOR } else { 1 };
    let slow: i64 = if keys.slow { SLOW_DIVISOR } else { 1 };
    BASE_STEP * fast / slow
}

/// A value clamped to the range of `i64`.
pub open spec fn clamp_i64(v: int) -> i64 {
    if v > i64::MAX {
        i64::MAX
    } else if v < i64::MIN {
        i64::MIN
    } else {
        v as i64
    }
}

fn clamp_to_i64(v: i128) -> (r: i64)
    ensures
        r == clamp_i64(v as int),
{
    if v > i64::MAX as i128 {
        i64::MAX
    } else if v < i64::MIN as i128 {
        i64::MIN
    } else {
        v as i64
    }
}

/// One coordinate moved by `d` axis units times `k`, clamped to the range of `i64`.
fn move_coordinate(p: i64, d: i64, k: i128) -> (r: i64)
    requires
        -0x1_8000_0000 <= d <= 0x1_8000_0000,
        0 <= k <= 500 * 0xffff_ffff,
    ensures
        r == clamp_i64(p + d * k),
{
    assert(-0x400_0000_0000_0000_0000 <= d * k <= 0x400_0000_0000_0000_0000) by (nonlinear_arith)
        requires
            -0x1_8000_0000 <= d <= 0x1_8000_0000,
            0 <= k <= 500 * 0xffff_ffff,
    ;
    clamp_to_i64(p as i128 + d as i128 * k)
}

/// Moves a position by one frame of scale `frame` (in thousandths of a
/// reference frame) under the held keys, as [`moved`] and [`displacement`] say.
pub fn move_position(p: Position, keys: &HeldKeys, axes: &Axes, frame: u32) -> (r: Position)
    ensures
        r == moved(p, displacement(*keys, *axes, frame)),
{
    let d = direction_of(keys, axes);
    let s = step_of(keys);
    assert(0 <= s * frame <= 500 * 0xffff_ffff) by (nonlinear_arith)
        requires
            0 < s <= 500,
            0 <= frame <= 0xffff_ffff,
    ;
    let k: i128 = s as i128 * frame as i128;
    let r = Position { x: move_coordinate(p.x, d.x, k), y: move_coordinate(p.y, d.y, k), z: move_coordinate(p.z, d.z, k) };
    assert(d.x * k == d.x * (step(*keys) * frame) && d.y * k == d.y * (step(*keys) * frame) && d.z * k == d.z * (step(*keys) * frame));
    r
}

/// Holding forward and backward together adds nothing along the forward
/// axis: the direction is the one with neither held.
pub proof fn lemma_forward_backward_cancel(keys: HeldKeys, axes: Axes)
    requires
        keys.forward,
        keys.backward,
    ensures
        direction(keys, axes) == direction(keys.with(Key::Forward, false).with(Key::Backward, false), axes),
{
}

/// With the direction and frame scale fixed, the fast key alone multiplies the
/// displacement by the fast factor, the slow key alone multiplies it by one over
/// the slow divisor, and both together by the product of the two, which is one.
pub proof fn lemma_speed_modifiers(keys: HeldKeys, axes: Axes, frame: u32)
    requires
        !keys.fast,
        !keys.slow,
    ensures
        displacement(keys.with(Key::Fast, true), axes, frame) == scaled(displacement(keys, axes, frame), FAST_FACTOR as int),
        scaled(displacement(keys.with(Key::Slow, true), axes, frame), SLOW_DIVISOR as int) == displacement(keys, axes, frame),
        displacement(keys.with(Key::Fast, true).with(Key::Slow, true), axes, frame) == displacement(keys, axes, frame),
        FAST_FACTOR == SLOW_DIVISOR,
{
    let d = direction(keys, axes);
    let f = frame as int;
    assert(100int / 5int == 20) by (nonlinear_arith);
    assert(500int / 5int == 100) by (nonlinear_arith);
    assert(step(keys) == 100);
    assert(step(keys.with(Key::Fast, true)) == 500);
    assert(step(keys.with(Key::Slow, true)) == 20);
    assert(step(keys.with(Key::Fast, true).with(Key::Slow, true)) == 100);
    assert(d.0 * (500 * f) == d.0 * (100 * f) * 5 && d.1 * (500 * f) == d.1 * (100 * f) * 5
        && d.2 * (500 * f) == d.2 * (100 * f) * 5) by (nonlinear_arith);
    assert(d.0 * (20 * f) * 5 == d.0 * (100 * f) && d.1 * (20 * f) * 5 == d.1 * (100 * f)
        && d.2 * (20 * f) * 5 == d.2 * (100 * f)) by (nonlinear_arith);
}

} // verus!
