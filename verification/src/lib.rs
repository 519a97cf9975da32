//! Core logic of a bridge that mirrors a vehicle simulator's live entity set
//! onto a publish/subscribe message bus.
//!
//! The library holds the verified heart of the bridge: the per-tick actor-set
//! reconciliation, the per-kind publish/subscribe node state machines, the
//! binary sensor encoding, and the control-command arbitration.  Floating
//! point telemetry is routed as IEEE-754 bit patterns (`u32` for 32-bit
//! values, `u64` for 64-bit values); the unverified shell around the library
//! converts between bit patterns and the bus's native float fields.

pub mod actor_node;
pub mod codec;
pub mod control;
pub mod map_srv;
pub mod msg;
pub mod params;
pub mod qos;
pub mod registry;
pub mod time;
pub mod types;
pub mod utils;

pub use time::{TimeBuffer, TimeDelta};
