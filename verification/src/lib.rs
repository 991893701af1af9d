//! Periodic rotation of a network interface's MAC address: vendor-plausible
//! random addresses, jittered waiting times, and a controller that gives up
//! after a bounded run of consecutive failures.

pub mod address;
pub mod command;
pub mod controller;
pub mod jitter;
pub mod random;
pub mod text;
pub mod vendor;
