//! Session core of a PocketStation emulator front-end: artifact checks,
//! input mapping, audio batching, real-time-clock host synchronisation,
//! frame conversion and the savestate container.

pub mod bcd;
pub mod error;
pub mod rtc;
pub mod audio;
pub mod input;
pub mod video;
pub mod loader;
pub mod savestate;
pub mod config;
pub mod session;
pub mod retrolog;
