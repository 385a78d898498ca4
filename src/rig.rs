//! The camera rig: one frame step from rectangle and input to render target and pose.
use vstd::prelude::*;
use crate::cursor::{CursorLock, CursorLockController, lock_for};
use crate::input::InputSnapshot;
use crate::movement::{Axes, displacement, moved, move_position};
use crate::pose::{CameraPose, clamp_pitch};
use crate::viewport::{Rect, Viewport, next_target, follow_rect};

verus! {

/// The host window's size in pixels.
#[derive(Clone, Copy, Debug, PartialEq, Eq)]
pub struct WindowSize {
    pub width: u32,
    pub height: u32,
}

impl WindowSize {
    /// The lesser of width and height, so that looking turns as fast
    /// vertically as horizontally.
    pub open spec fn scale(self) -> u32 {
        if self.width <= self.height {
            self.width
        } else {
            self.height
        }
    }

    /// The look scale of this window, as [`WindowSize::scale`] says.
    pub fn look_scale(&self) -> (r: u32)
        ensures
            r == self.scale(),
            r <= self.width && r <= self.height,
    {
        if self.width <= self.height {
            self.width
        } else {
            self.height
        }
    }
}

/// The pose after one frame: unchanged unless the look button is held; while it
/// is, the held keys move the camera along the current axes and then the mouse
/// motion turns it.
pub open spec fn frame_pose(
    pose: CameraPose,
    input: InputSnapshot,
    axes: Axes,
    window: WindowSize,
    frame: u32,
) -> CameraPose {
    if input.look() {
        CameraPose { position: moved(pose.position, displacement(input.keys, axes, frame)), ..pose }.looked(
            input.motion,
            window.scale(),
        )
    } else {
        pose
    }
}

/// A camera that renders into a UI panel's rectangle and flies under mouse and keys.
#[derive(Clone, Copy, Debug, PartialEq, Eq)]
pub struct CameraRig {
    pub pose: CameraPose,
    /// The render sub-rectangle; `None` until a rectangle has been applied.
    pub viewport: Option<Viewport>,
}

impl CameraRig {
    /// A rig at `pose`, its pitch clamped to the safe range, with no render
    /// sub-rectangle yet.
    pub fn new(pose: CameraPose) -> (r: CameraRig)
        ensures
            r.pose == (CameraPose { pitch: clamp_pitch(pose.pitch as int), ..pose }),
            r.pose.wf(),
            r.viewport.is_none(),
    {
        CameraRig { pose: CameraPose::new(pose.position, pose.yaw, pose.pitch), viewport: None }
    }

    /// The current pose.
    pub fn pose(&self) -> (r: CameraPose)
        ensures
            r == self.pose,
    {
        self.pose
    }

    /// The current render sub-rectangle.
    pub fn viewport(&self) -> (r: Option<Viewport>)
        ensures
            r == self.viewport,
    {
        self.viewport
    }

    /// One frame: follows the panel's rectangle, moves and turns the camera
    /// while the look button is held, and sets the cursor for the look state.
    /// `axes` are the camera's forward and right axes for its current pose;
    /// `frame` is the frame scale, in thousandths of a reference frame.
    /// Returns the render sub-rectangle.
    pub fn update(
        &mut self,
        rect: Option<Rect>,
        input: &InputSnapshot,
        axes: &Axes,
        window: WindowSize,
        frame: u32,
        cursor: &mut CursorLockController,
    ) -> (r: Option<Viewport>)
        ensures
            final(self).viewport == next_target(old(self).viewport, rect),
            final(self).pose == frame_pose(old(self).pose, *input, *axes, window, frame),
            final(cursor).state == lock_for(input.look()),
            r == final(self).viewport,
            !input.look() ==> final(self).pose == old(self).pose && final(cursor).state == CursorLock::Free,
            input.look() ==> final(self).pose.wf(),
            old(self).pose.wf() ==> final(self).pose.wf(),
    {
        self.viewport = follow_rect(self.viewport, rect);
        let look = input.look_held();
        if look {
            let position = move_position(self.pose.position, &input.keys, axes, frame);
            let mut next = CameraPose { position, ..self.pose };
            next.look(input.motion, window.look_scale());
            self.pose = next;
        }
        cursor.apply(look);
        self.viewport
    }
}

} // verus!
