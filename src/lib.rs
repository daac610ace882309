//! Keeps the light/dark appearance of two surfaces (applications, and the
//! system taskbar) in step with a user toggle or a daily time window.
//!
//! The library holds the decisions: when a time falls inside a window, what
//! each surface should show on a tick, and how the configuration maps to the
//! durable record. Reading and writing the operating system's flags, the
//! clock loop and the record's text encoding are left to the program.
pub mod clock;
pub mod config;
pub mod scheduler;
pub mod target;
pub mod time;
