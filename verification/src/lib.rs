//! Process control for a small brewing rig: recipe progression, hysteresis
//! temperature regulation, relay coordination and status distribution.

pub mod clock;
pub mod control;
pub mod messages;
pub mod peripheral;
pub mod publisher;
pub mod regulator;
pub mod service;
pub mod service_loop;
pub mod structs;

pub use clock::get_sys_time_in_secs;
