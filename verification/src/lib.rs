//! A Pomodoro timer: the countdown, the cycle of work and break phases, the
//! profiles that drive them, and what the application decides each frame.
use vstd::prelude::*;

pub mod app;
pub mod audio;
pub mod config;
pub mod timer;
pub mod ui;
pub mod properties;
