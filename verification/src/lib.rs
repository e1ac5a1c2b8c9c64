//! Device-telemetry core: a device-status snapshot with field setters, a
//! fixed-length rotating bandwidth window, a readiness gate, and the
//! JSON-RPC envelope logic used to report the snapshot to a collector.

pub mod rpc;
pub mod status;
pub mod window;

pub use status::DeviceStatus;
