//! Software that drives a six-shutter optical semaphore ("clacks"): the
//! character encoding, the bounded message buffer and the timed display state
//! machine, with the servo commands that put a snapshot on the hardware.

pub mod config;
pub mod encoding;
pub mod errors;
pub mod frontend;
pub mod machine;
pub mod message;
pub mod queue;
pub mod servos;
pub mod service;
pub mod shutters;
pub mod time;
