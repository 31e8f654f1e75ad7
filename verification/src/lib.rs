use vstd::prelude::*;

pub mod app;
pub mod bmp;
pub mod cache;
pub mod config;
pub mod cycle_log;
pub mod device;
pub mod display;
pub mod device_display;
pub mod device_runtime;
pub mod diagnostics;
pub mod epd;
pub mod laws;
pub mod model;
pub mod pmic;
pub mod power;
pub mod render;
pub mod schedule;
pub mod scripted;
pub mod selftest;
pub mod server;
pub mod state;
pub mod text;

verus! {

} // verus!
