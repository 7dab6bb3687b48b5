//! A host for scripted real-time loops.
//!
//! A script is compiled once and then driven through its lifecycle: `init`
//! once, then `update` and `draw` on every frame. A fault inside a callback
//! is reported to the host as a value and never ends the loop. Around that
//! core stand the checks that guard the host's drawing and input
//! capabilities, the rolling timing series of the frame loop, and the layout
//! of the timing overlay.
//!
//! Durations are whole microseconds and pixel positions are whole pixels.

pub mod clock;
pub mod draw;
pub mod driver;
pub mod input;
pub mod interp;
pub mod overlay;
pub mod samples;
pub mod script;
