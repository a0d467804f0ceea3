//! Headless automation of a handheld-console emulator: convert wall-clock
//! durations to exact emulation-tick counts, script the virtual button
//! presses that load a song in the on-device music tracker, and capture the
//! emulated stereo audio into a buffer serialized as 16-bit PCM on teardown.
//!
//! The emulation core itself is an outside collaborator: this crate decides
//! what to press, how long to wait and what to keep, and a thin driver
//! performs those decisions against the core.

pub mod clock;
pub mod keys;
pub mod run;
pub mod save;
pub mod script;
pub mod sink;
