//! Screen recordings of a browser page: when a frame is captured and how often it
//! is written, how the recording's state changes, which effects are shown in it and
//! until when, and which commands and scripts the browser is sent for all that.
//!
//! The library decides and computes; it does no I/O and reads no clock. What awaits
//! something outside (a reply, a tick, a write) is a state machine: the caller does
//! what its state says and reports what came of it.
//!
//! - [`recording`]: the recorder's state, the capture gate, the encoder's command
//!   line, and the pace of frames.
//! - [`frame_clock`]: how many frame periods have passed, in binary64 arithmetic.
//! - [`capture`]: the capture loop of a page recording.
//! - [`recording_effects`]: the configuration, the timing and the calls of effects.
//! - [`recording_compositor`]: the compositor page and its capture loop.
//! - [`cursor_overlay`]: the in-page cursor.
//! - [`laws`]: what the operations of these modules are for, over all inputs.
//! - [`cdp`], [`json`], [`options`], [`text`], [`time`]: the values that all of these
//!   are made of.

pub mod capture;
pub mod cdp;
pub mod cursor_overlay;
pub mod frame_clock;
pub mod json;
pub mod laws;
pub mod options;
pub mod recording;
pub mod recording_compositor;
pub mod recording_effects;
mod sharing;
pub mod text;
pub mod time;
