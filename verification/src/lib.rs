//! Verified core of a screen color picker.
//!
//! The picker samples the color of the screen pixel beneath the mouse
//! cursor. Everything that decides or computes lives here: hex encoding
//! of a color, bounds-checked pixel extraction from a packed frame
//! buffer, the retry policy of the capture loop, and the reaction to
//! mouse events in the two run modes. Reading the mouse, capturing the
//! screen and hooking global input are capabilities the surrounding
//! program supplies; this crate only tells it what to do with what it
//! got.

pub mod frame;
pub mod hex;
pub mod output;
pub mod sampler;
pub mod trigger;
