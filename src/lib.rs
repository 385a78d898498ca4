//! A viewport-synced free-fly camera rig.
//!
//! Each frame the rig glues a camera's render sub-rectangle to a UI panel's
//! on-screen rectangle and, while the look button is held, drives the camera
//! from mouse motion and movement keys.
//!
//! All quantities are fixed-point integers:
//! - screen coordinates are in sub-pixels (`SUBPIXELS_PER_PIXEL` per pixel);
//! - angles are binary angles (`TURN` units make one full turn);
//! - positions are in pico-units of world length;
//! - a frame scale is in thousandths of a reference frame;
//! - axis vectors are scaled so that `AXIS_SCALE` stands for 1.
pub mod cursor;
pub mod input;
pub mod movement;
pub mod pose;
pub mod rig;
pub mod viewport;
