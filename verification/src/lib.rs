//! Core of a Pomodoro-style session manager: a pausable stopwatch
//! primitive (`timer`) and the state machine that cycles between task
//! and break intervals (`app`).
//!
//! The core is pure: it never reads a clock itself. Every operation
//! that depends on the current time takes an explicit reading of a
//! monotonic clock, in milliseconds, supplied by the host.

pub mod app;
pub mod timer;
