//! Driver logic for the UC8253 e-paper panel controller (240 x 416 pixels, one bit per pixel).
//!
//! The library keeps the two frame buffers the panel needs, draws pixels into them,
//! and decides which hardware actions each driver operation performs and in what order.
//! Carrying out an action (toggling a pin, writing on the SPI bus, waiting) is left to
//! the executor that owns the hardware.
pub mod action;
pub mod command;
pub mod display;
pub mod error;
pub mod frame;
pub mod laws;

use vstd::prelude::*;

verus! {

/// Width of the panel in pixels.
pub const PIXELS_X: usize = 240;

/// Height of the panel in pixels.
pub const PIXELS_Y: usize = 416;

/// Number of bytes of one frame: one bit per pixel.
pub const PIXELS_ARRAY: usize = PIXELS_X * PIXELS_Y / 8;

} // verus!
