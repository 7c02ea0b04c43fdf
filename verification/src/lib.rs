//! A stateless encoder of path-discovery probes.
//!
//! A probe is an IPv4 datagram with a UDP segment inside. Its total length and
//! its identification field carry the hop limit, the measurement phase and a
//! coarse send time, so that an answer to the probe can be attributed without
//! any table of probes in flight.

pub mod clock;
pub mod fields;
pub mod layout;
pub mod wire;
pub mod prober;
