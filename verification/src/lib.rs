//! A minimal service supervisor: unit descriptions, the per-service lifecycle
//! state machine, and the decisions of the monitor and supervisor loops.

pub mod api;
pub mod conf;
pub mod json;
pub mod lifecycle;
pub mod loader;
pub mod monitor;
pub mod signals;
pub mod supervisor;
pub mod text;
pub mod unitfile;
pub mod units;
