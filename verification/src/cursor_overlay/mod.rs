//! Synthetic animated cursor overlay for screen recordings.
//!
//! The OS cursor is never visible in screenshots taken over the browser protocol.
//! This module installs a small, isolated, in-page cursor that is captured into
//! the recording instead.
//!
//! - `scripts`: the page-side controller and the theme images, and a builder that
//!   puts them into a single install script.
//! - `controller`: the configuration, and the commands that install and remove the
//!   cursor.
//! - `animation`: the commands and the steps that move the cursor and show a click.

pub mod animation;
pub mod controller;
pub mod scripts;

pub use controller::{CursorBridge, CursorOverlayConfig};
pub use scripts::{build_install_script, MotionMode, Theme};
