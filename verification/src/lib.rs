//! Verified core of a microphone-mute overlay shell.
//!
//! The shell displays the mute state of the system's default audio-capture
//! device in a borderless, click-through, always-on-top window.  This crate
//! holds the two pieces with real logic, each stated and proved:
//!
//! * [`audio`] — the mute-state query: how a snapshot of the OS audio
//!   subsystem is turned into `true`, `false`, or a diagnostic error, and how
//!   that outcome is rendered for the front-end surface;
//! * [`overlay`] — the extended-window-style mask that makes the window a
//!   transparent, input-transparent, compositing overlay, and what applying
//!   it does (and does not do) to a window;
//! * [`shell`] — the single-instance launch decision.
//!
//! The platform calls themselves (COM audio interfaces, the native style
//! write) are performed by the surrounding binary, which feeds their plain
//! outcomes to the functions here.

pub mod audio;
pub mod overlay;
pub mod shell;
