//! The camera pose and how mouse motion turns it.
//!
//! Angles are binary angles: `TURN` units make one full turn, so the yaw,
//! held modulo `TURN` in a `u64`, wraps exactly as the orientation does.
//! The pitch is held in an `i64` and clamped to `[-PITCH_LIMIT, PITCH_LIMIT]`.
use vstd::prelude::*;
use vstd::arithmetic::div_mod::lemma_fundamental_div_mod;
use vstd::arithmetic::div_mod::lemma_fundamental_div_mod_converse_mod;
use vstd::arithmetic::div_mod::lemma_mod_multiples_vanish;
use crate::input::Motion;

verus! {

/// Binary-angle units in one full turn.
pub const TURN: u128 = 0x1_0000_0000_0000_0000;

/// Look sensitivity: binary-angle units turned per milli-pixel of mouse motion
/// per pixel of window scale (about 0.00012 degrees).
pub const LOOK_RATE: u64 = 6148914691;

/// The largest pitch magnitude, about 1.54 radians (a little over 88 degrees).
pub const PITCH_LIMIT: i64 = 4521271375054281889;

/// A position in pico-units of world length.
#[derive(Clone, Copy, Debug, PartialEq, Eq)]
pub struct Position {
    pub x: i64,
    pub y: i64,
    pub z: i64,
}

/// Where the camera is and where it looks. Its orientation is a turn by `yaw`
/// about the world's up axis followed by a turn by `pitch` about the camera's
/// own right axis.
#[derive(Clone, Copy, Debug, PartialEq, Eq)]
pub struct CameraPose {
    pub position: Position,
    pub yaw: u64,
    pub pitch: i64,
}

/// The angle turned for `delta` milli-pixels of motion at window scale `scale`.
pub open spec fn look_turn(delta: int, scale: int) -> int {
    delta * scale * LOOK_RATE
}

/// An angle reduced to one turn.
pub open spec fn wrap_turn(a: int) -> u64 {
    (a % (TURN as int)) as u64
}

/// A pitch clamped to the safe range.
pub open spec fn clamp_pitch(a: int) -> i64 {
    if a > PITCH_LIMIT {
        PITCH_LIMIT
    } else if a < -PITCH_LIMIT {
        (-PITCH_LIMIT) as i64
    } else {
        a as i64
    }
}

impl CameraPose {
    /// The pitch lies in the safe range.
    pub open spec fn wf(self) -> bool {
        -PITCH_LIMIT <= self.pitch <= PITCH_LIMIT
    }

    /// The pose after one frame of mouse motion at window scale `scale`:
    /// yaw and pitch each turn against the motion, and the pitch is clamped once.
    pub open spec fn looked(self, motion: Motion, scale: u32) -> CameraPose {
        CameraPose {
            yaw: wrap_turn(self.yaw - look_turn(motion.dx as int, scale as int)),
            pitch: clamp_pitch(self.pitch - look_turn(motion.dy as int, scale as int)),
            ..self
        }
    }

    /// A pose with its pitch clamped to the safe range.
    pub fn new(position: Position, yaw: u64, pitch: i64) -> (r: CameraPose)
        ensures
            r == (CameraPose { position, yaw, pitch: clamp_pitch(pitch as int) }),
            r.wf(),
    {
        let p = if pitch > PITCH_LIMIT {
            PITCH_LIMIT
        } else if pitch < -PITCH_LIMIT {
            -PITCH_LIMIT
        } else {
            pitch
        };
        CameraPose { position, yaw, pitch: p }
    }

    /// Turns the pose by one frame of mouse motion, as [`CameraPose::looked`] says.
    pub fn look(&mut self, motion: Motion, scale: u32)
        ensures
            *final(self) == old(self).looked(motion, scale),
            final(self).wf(),
    {
        self.yaw = turned_yaw(self.yaw, motion.dx, scale);
        self.pitch = turned_pitch(self.pitch, motion.dy, scale);
    }
}

/// The yaw after turning against `delta` milli-pixels of motion, reduced to one turn.
pub fn turned_yaw(yaw: u64, delta: i64, scale: u32) -> (r: u64)
    ensures
        r == wrap_turn(yaw - look_turn(delta as int, scale as int)),
{
    let offset: i128 = 0x1_0000_0000_0000_0000_0000_0000;
    assert(-0x8000_0000_0000_0000_0000_0000 <= delta * scale <= 0x8000_0000_0000_0000_0000_0000)
        by (nonlinear_arith)
        requires
            -0x8000_0000_0000_0000 <= delta <= 0x7fff_ffff_ffff_ffff,
            0 <= scale <= 0xffff_ffff,
    ;
    let m: i128 = delta as i128 * scale as i128;
    let shifted: u128 = (m + offset) as u128;
    let u: u128 = shifted % TURN;
    assert(u * LOOK_RATE < TURN * LOOK_RATE) by (nonlinear_arith)
        requires
            u < TURN,
    ;
    let t: u128 = (u * LOOK_RATE as u128) % TURN;
    let r = yaw.wrapping_sub(t as u64);
    proof {
        let mm = TURN as int;
        let rate = LOOK_RATE as int;
        lemma_fundamental_div_mod(shifted as int, mm);
        lemma_fundamental_div_mod(u * rate, mm);
        let q1 = shifted as int / mm;
        let q2 = (u * rate) / mm;
        let c: int = if (yaw as int) < (t as int) { 1 } else { 0 };
        assert(r == yaw - t + c * mm);
        let q = 0x1_0000_0000 * rate - q1 * rate - q2 - c;
        assert(yaw - m * rate == q * mm + r) by (nonlinear_arith)
            requires
                shifted == m + offset,
                offset == 0x1_0000_0000 * mm,
                shifted == mm * q1 + u,
                u * rate == mm * q2 + t,
                r == yaw - t + c * mm,
                q == 0x1_0000_0000 * rate - q1 * rate - q2 - c,
        ;
        lemma_fundamental_div_mod_converse_mod(yaw - m * rate, mm, q, r as int);
        assert(look_turn(delta as int, scale as int) == m * rate);
    }
    r
}

/// The pitch after turning against `delta` milli-pixels of motion, clamped to the safe range.
pub fn turned_pitch(pitch: i64, delta: i64, scale: u32) -> (r: i64)
    ensures
        r == clamp_pitch(pitch - look_turn(delta as int, scale as int)),
{
    let bound: i128 = 0x2_0000_0000;
    let rate: i128 = LOOK_RATE as i128;
    assert(-0x8000_0000_0000_0000_0000_0000 <= delta * scale <= 0x8000_0000_0000_0000_0000_0000)
        by (nonlinear_arith)
        requires
            -0x8000_0000_0000_0000 <= delta <= 0x7fff_ffff_ffff_ffff,
            0 <= scale <= 0xffff_ffff,
    ;
    let m: i128 = delta as i128 * scale as i128;
    assert(look_turn(delta as int, scale as int) == m * rate);
    if m > bound {
        assert(m * rate >= (bound + 1) * rate) by (nonlinear_arith)
            requires
                m > bound,
                rate > 0,
        ;
        -PITCH_LIMIT
    } else if m < -bound {
        assert(m * rate <= -(bound + 1) * rate) by (nonlinear_arith)
            requires
                m < -bound,
                rate > 0,
        ;
        PITCH_LIMIT
    } else {
        assert(-bound * rate <= m * rate <= bound * rate) by (nonlinear_arith)
            requires
                -bound <= m <= bound,
                rate > 0,
        ;
        let v: i128 = pitch as i128 - m * rate;
        if v > PITCH_LIMIT as i128 {
            PITCH_LIMIT
        } else if v < -(PITCH_LIMIT as i128) {
            -PITCH_LIMIT
        } else {
            v as i64
        }
    }
}

/// The pose after one frame of motion per element of `motions`, in order.
pub open spec fn looked_all(pose: CameraPose, motions: Seq<Motion>, scale: u32) -> CameraPose
    decreases motions.len(),
{
    if motions.len() == 0 {
        pose
    } else {
        looked_all(pose, motions.drop_last(), scale).looked(motions.last(), scale)
    }
}

/// However large the motion of a frame, the pitch after it lies in the safe range.
pub proof fn lemma_pitch_in_range(pose: CameraPose, motion: Motion, scale: u32)
    ensures
        pose.looked(motion, scale).wf(),
{
}

/// However many frames of motion, and however large, the pitch after them lies
/// in the safe range, provided it did before them or there was at least one frame.
pub proof fn lemma_pitch_stays_in_range(pose: CameraPose, motions: Seq<Motion>, scale: u32)
    requires
        pose.wf() || motions.len() > 0,
    ensures
        looked_all(pose, motions, scale).wf(),
    decreases motions.len(),
{
    if motions.len() > 0 {
        lemma_pitch_in_range(looked_all(pose, motions.drop_last(), scale), motions.last(), scale);
    }
}

/// The yaw turns by the horizontal motion alone: two poses with the same yaw
/// have the same yaw after the same motion, whatever their pitches and however
/// the pitch is clamped.
pub proof fn lemma_yaw_ignores_pitch(a: CameraPose, b: CameraPose, motion: Motion, scale: u32)
    requires
        a.yaw == b.yaw,
    ensures
        a.looked(motion, scale).yaw == b.looked(motion, scale).yaw,
{
}

/// The yaw accumulates without bound: two frames turn it exactly as one frame
/// with their summed horizontal motion, reduced to one turn.
pub proof fn lemma_yaw_accumulates(pose: CameraPose, first: Motion, second: Motion, scale: u32)
    ensures
        pose.looked(first, scale).looked(second, scale).yaw == wrap_turn(
            pose.yaw - look_turn(first.dx + second.dx, scale as int),
        ),
{
    let mm = TURN as int;
    let t1 = look_turn(first.dx as int, scale as int);
    let t2 = look_turn(second.dx as int, scale as int);
    let a = pose.yaw - t1;
    lemma_fundamental_div_mod(a, mm);
    let q = a / mm;
    let r = a % mm;
    lemma_mod_multiples_vanish(q, r - t2, mm);
    assert(mm * q + (r - t2) == pose.yaw - (t1 + t2));
    let (d1, d2, sc, rate) = (first.dx as int, second.dx as int, scale as int, LOOK_RATE as int);
    assert(d1 * sc * rate + d2 * sc * rate == (d1 + d2) * sc * rate) by (nonlinear_arith);
}

/// Angles a whole number of turns apart give the same yaw.
pub proof fn lemma_whole_turns(a: int, k: int)
    ensures
        wrap_turn(a + k * (TURN as int)) == wrap_turn(a),
{
    lemma_mod_multiples_vanish(k, a, TURN as int);
    assert(k * (TURN as int) + a == (TURN as int) * k + a) by (nonlinear_arith);
}

} // verus!
