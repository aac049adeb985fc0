//! Decision logic of a button-to-network bridge: an interrupt latch that
//! coalesces edges, a dual-cadence poll schedule, a small UDP control protocol
//! and the telemetry datagram sent on each press.
pub mod cadence;
pub mod config;
pub mod endpoint;
pub mod json;
pub mod latch;
pub mod protocol;
pub mod telemetry;
