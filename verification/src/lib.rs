//! Core logic of a satellite ground-segment link.
//!
//! The spacecraft side encodes telemetry records into fixed 14-byte datagrams;
//! the ground side decodes them, classifies the readings, tracks the health of
//! the link and keeps the counters from which a performance report is drawn.
//! A prioritised, deadline-bound command queue serves the uplink.
//!
//! The library reads no clock and opens no socket: instants are microsecond
//! readings of a monotonic clock handed in by the caller, datagrams are byte
//! buffers, and whatever is worth printing is returned as a value. Only the
//! telemetry generator leaves anything to chance.

pub mod command;
pub mod fault;
pub mod gcs;
pub mod generator;
pub mod link;
pub mod metrics;
pub mod telemetry;
pub mod timing;
pub mod transmitter;
pub mod uplink;
