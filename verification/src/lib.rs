//! Host metrics reporter: samples CPU load, memory use and uptime, renders
//! each as a short display text and schedules the pushes to the display
//! instances that are currently visible.

pub mod cpu;
pub mod cycle;
pub mod cycle_laws;
pub mod decimal;
pub mod format;
pub mod kind;
pub mod reporter;
pub mod rounding;
pub mod sample;
pub mod sampler;

pub use crate::reporter::{Action, BroadcastLoop};
