//! The decisions of a taskbar volume controller: the settings it keeps, how a
//! wheel notch moves the volume, when a mouse event over the taskbar becomes a
//! volume change, where the on-screen display goes, and the state machine that
//! ties them together. The shell around it (audio endpoint, window, hook,
//! timers) lives outside this crate and feeds it plain values.

pub mod settings;
pub mod volume;
pub mod geometry;
pub mod hook;
pub mod controller;
