//! Adaptive night-light control: frame analysis and the decisions that
//! turn captured screen frames into a display colour temperature.

pub mod analysis;
pub mod channel;
pub mod config;
pub mod control;
pub mod controller;
pub mod format;
pub mod frame;
pub mod stream;
pub mod throttle;
