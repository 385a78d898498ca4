//! Per-frame input: held keys and buttons, and the mouse motion of the frame.
use vstd::prelude::*;

verus! {

/// A movement or speed key.
#[derive(Clone, Copy, Debug, PartialEq, Eq)]
pub enum Key {
    Forward,
    Backward,
    StrafeLeft,
    StrafeRight,
    Up,
    Down,
    Fast,
    Slow,
}

/// A mouse button; the secondary one is the look button.
#[derive(Clone, Copy, Debug, PartialEq, Eq)]
pub enum Button {
    Primary,
    Secondary,
}

/// Which keys are down.
#[derive(Clone, Copy, Debug, PartialEq, Eq)]
pub struct HeldKeys {
    pub forward: bool,
    pub backward: bool,
    pub strafe_left: bool,
    pub strafe_right: bool,
    pub up: bool,
    pub down: bool,
    pub fast: bool,
    pub slow: bool,
}

/// Which mouse buttons are down.
#[derive(Clone, Copy, Debug, PartialEq, Eq)]
pub struct HeldButtons {
    pub primary: bool,
    pub secondary: bool,
}

/// Mouse motion in milli-pixels.
#[derive(Clone, Copy, Debug, PartialEq, Eq)]
pub struct Motion {
    pub dx: i64,
    pub dy: i64,
}

/// What the rig reads in one frame.
#[derive(Clone, Copy, Debug, PartialEq, Eq)]
pub struct InputSnapshot {
    pub keys: HeldKeys,
    pub buttons: HeldButtons,
    pub motion: Motion,
}

/// A sum clamped to the range of `i64`.
pub open spec fn sat_sum(a: int, b: int) -> i64 {
    if a + b > i64::MAX {
        i64::MAX
    } else if a + b < i64::MIN {
        i64::MIN
    } else {
        (a + b) as i64
    }
}

/// `a + b`, clamped to the range of `i64`.
pub fn add_saturating(a: i64, b: i64) -> (r: i64)
    ensures
        r == sat_sum(a as int, b as int),
{
    let s: i128 = a as i128 + b as i128;
    if s > i64::MAX as i128 {
        i64::MAX
    } else if s < i64::MIN as i128 {
        i64::MIN
    } else {
        s as i64
    }
}

impl HeldKeys {
    /// These keys, with `key` set to `down`.
    pub open spec fn with(self, key: Key, down: bool) -> HeldKeys {
        match key {
            Key::Forward => HeldKeys { forward: down, ..self },
            Key::Backward => HeldKeys { backward: down, ..self },
            Key::StrafeLeft => HeldKeys { strafe_left: down, ..self },
            Key::StrafeRight => HeldKeys { strafe_right: down, ..self },
            Key::Up => HeldKeys { up: down, ..self },
            Key::Down => HeldKeys { down: down, ..self },
            Key::Fast => HeldKeys { fast: down, ..self },
            Key::Slow => HeldKeys { slow: down, ..self },
        }
    }

    /// Whether `key` is down.
    pub open spec fn holds(self, key: Key) -> bool {
        match key {
            Key::Forward => self.forward,
            Key::Backward => self.backward,
            Key::StrafeLeft => self.strafe_left,
            Key::StrafeRight => self.strafe_right,
            Key::Up => self.up,
            Key::Down => self.down,
            Key::Fast => self.fast,
            Key::Slow => self.slow,
        }
    }

    /// No key down.
    pub fn none() -> (r: HeldKeys)
        ensures
            forall|k: Key| !r.holds(k),
    {
        HeldKeys {
            forward: false,
            backward: false,
            strafe_left: false,
            strafe_right: false,
            up: false,
            down: false,
            fast: false,
            slow: false,
        }
    }

    /// Whether `key` is down.
    pub fn is_down(&self, key: Key) -> (r: bool)
        ensures
            r == self.holds(key),
    {
        match key {
            Key::Forward => self.forward,
            Key::Backward => self.backward,
            Key::StrafeLeft => self.strafe_left,
            Key::StrafeRight => self.strafe_right,
            Key::Up => self.up,
            Key::Down => self.down,
            Key::Fast => self.fast,
            Key::Slow => self.slow,
        }
    }

    /// Sets `key` to `down`, leaving the other keys as they were.
    pub fn set(&mut self, key: Key, down: bool)
        ensures
            *final(self) == old(self).with(key, down),
    {
        match key {
            Key::Forward => self.forward = down,
            Key::Backward => self.backward = down,
            Key::StrafeLeft => self.strafe_left = down,
            Key::StrafeRight => self.strafe_right = down,
            Key::Up => self.up = down,
            Key::Down => self.down = down,
            Key::Fast => self.fast = down,
            Key::Slow => self.slow = down,
        }
    }
}

impl HeldButtons {
    /// Whether `button` is down.
    pub open spec fn holds(self, button: Button) -> bool {
        match button {
            Button::Primary => self.primary,
            Button::Secondary => self.secondary,
        }
    }

    /// No button down.
    pub fn none() -> (r: HeldButtons)
        ensures
            !r.primary && !r.secondary,
    {
        HeldButtons { primary: false, secondary: false }
    }
}

impl Motion {
    /// No motion.
    pub fn zero() -> (r: Motion)
        ensures
            r.dx == 0 && r.dy == 0,
    {
        Motion { dx: 0, dy: 0 }
    }
}

impl InputSnapshot {
    /// Look mode: the secondary button is down.
    pub open spec fn look(self) -> bool {
        self.buttons.secondary
    }

    /// Whether the look button is down.
    pub fn look_held(&self) -> (r: bool)
        ensures
            r == self.look(),
    {
        self.buttons.secondary
    }
}

/// Gathers one frame of input from the host: key and button states as they
/// change, and every motion event, summed until the frame's snapshot drains them.
#[derive(Clone, Copy, Debug, PartialEq, Eq)]
pub struct InputSampler {
    pub keys: HeldKeys,
    pub buttons: HeldButtons,
    pub pending: Motion,
}

impl InputSampler {
    /// Nothing down and no motion pending.
    pub fn new() -> (r: InputSampler)
        ensures
            forall|k: Key| !r.keys.holds(k),
            !r.buttons.primary && !r.buttons.secondary,
            r.pending.dx == 0 && r.pending.dy == 0,
    {
        InputSampler { keys: HeldKeys::none(), buttons: HeldButtons::none(), pending: Motion::zero() }
    }

    /// Records that `key` went down or up.
    pub fn set_key(&mut self, key: Key, down: bool)
        ensures
            final(self).keys == old(self).keys.with(key, down),
            final(self).buttons == old(self).buttons,
            final(self).pending == old(self).pending,
    {
        self.keys.set(key, down);
    }

    /// Records that `button` went down or up.
    pub fn set_button(&mut self, button: Button, down: bool)
        ensures
            final(self).buttons.holds(button) == down,
            forall|b: Button| b != button ==> final(self).buttons.holds(b) == old(self).buttons.holds(b),
            final(self).keys == old(self).keys,
            final(self).pending == old(self).pending,
    {
        match button {
            Button::Primary => self.buttons.primary = down,
            Button::Secondary => self.buttons.secondary = down,
        }
    }

    /// Adds one motion event to the frame's pending motion.
    pub fn record_motion(&mut self, dx: i64, dy: i64)
        ensures
            final(self).pending.dx == sat_sum(old(self).pending.dx as int, dx as int),
            final(self).pending.dy == sat_sum(old(self).pending.dy as int, dy as int),
            final(self).keys == old(self).keys,
            final(self).buttons == old(self).buttons,
    {
        self.pending = Motion {
            dx: add_saturating(self.pending.dx, dx),
            dy: add_saturating(self.pending.dy, dy),
        };
    }

    /// The frame's snapshot: the held keys and buttons and the summed motion.
    /// The pending motion is drained, so no frame sees it twice.
    pub fn take_snapshot(&mut self) -> (r: InputSnapshot)
        ensures
            r == (InputSnapshot { keys: old(self).keys, buttons: old(self).buttons, motion: old(self).pending }),
            final(self).pending.dx == 0 && final(self).pending.dy == 0,
            final(self).keys == old(self).keys,
            final(self).buttons == old(self).buttons,
    {
        let r = InputSnapshot { keys: self.keys, buttons: self.buttons, motion: self.pending };
        self.pending = Motion::zero();
        r
    }
}

} // verus!
