//! A verified in-memory inventory of addressable lighting devices on one
//! network segment: per-device records whose fields carry their own
//! staleness windows, a capability-driven color state machine, a registry
//! folded forward by decoded datagrams, and the refresh, discovery and
//! command planning built on top. All I/O, clocks and the wire codec stay
//! outside, behind plain values.

pub mod address;
pub mod errors;
pub mod messages;
pub mod bulb;
pub mod manager;
pub mod products;
pub mod refreshable;
