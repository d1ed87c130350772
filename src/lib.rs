//! Throttled byte streams and a CPU burner, with the scheduling decisions made
//! as verified state machines that a runtime drives.

pub mod error;
pub mod module;
pub mod throttle;
pub mod stream;
pub mod burn;
pub mod strategy;
pub mod transfer;
