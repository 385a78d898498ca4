//! The cursor policy: locked and hidden while looking, free and visible otherwise.
use vstd::prelude::*;

verus! {

/// What the host window should do with the cursor.
#[derive(Clone, Copy, Debug, PartialEq, Eq, Structural)]
pub enum CursorLock {
    /// Confined to the window and hidden.
    Locked,
    /// Unconfined and visible.
    Free,
}

/// The cursor state for a frame in which the look button is or is not held.
pub open spec fn lock_for(look_held: bool) -> CursorLock {
    if look_held {
        CursorLock::Locked
    } else {
        CursorLock::Free
    }
}

impl CursorLock {
    /// Whether the cursor is confined to the window.
    pub fn is_confined(&self) -> (r: bool)
        ensures
            r == (*self == CursorLock::Locked),
    {
        match self {
            CursorLock::Locked => true,
            CursorLock::Free => false,
        }
    }

    /// Whether the cursor is shown.
    pub fn is_visible(&self) -> (r: bool)
        ensures
            r == (*self == CursorLock::Free),
    {
        match self {
            CursorLock::Locked => false,
            CursorLock::Free => true,
        }
    }
}

/// Holds the cursor state that the host window is asked to follow.
/// Applying the same look state again changes nothing.
#[derive(Clone, Copy, Debug, PartialEq, Eq)]
pub struct CursorLockController {
    pub state: CursorLock,
}

impl CursorLockController {
    /// A controller whose cursor starts free.
    pub fn new() -> (r: CursorLockController)
        ensures
            r.state == CursorLock::Free,
    {
        CursorLockController { state: CursorLock::Free }
    }

    /// The current cursor state.
    pub fn state(&self) -> (r: CursorLock)
        ensures
            r == self.state,
    {
        self.state
    }

    /// Sets the cursor state for this frame's look state; returns whether it changed.
    pub fn apply(&mut self, look_held: bool) -> (changed: bool)
        ensures
            final(self).state == lock_for(look_held),
            changed == (old(self).state != final(self).state),
    {
        let next = if look_held {
            CursorLock::Locked
        } else {
            CursorLock::Free
        };
        let changed = !(next == self.state);
        self.state = next;
        changed
    }
}

} // verus!
