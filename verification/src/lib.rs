//! A minimal IPv6 Neighbor Discovery core: the ICMPv6 checksum, a codec for
//! the four NDP message kinds (neighbor and router solicitations and
//! advertisements) with their variable-length options, and the pure decision
//! steps of two procedures built on the codec — Duplicate Address Detection
//! and router prefix discovery — plus a fire-and-forget address advertisement.
//!
//! The library owns everything that is computed: wire formats, checksums, and
//! what each procedure concludes from what the network returned. Opening a
//! raw ICMPv6 channel, sending, and waiting for a reply belong to the caller,
//! which hands the outcome of its bounded wait to the decision functions here.

pub mod addr;
pub mod bytes;
pub mod checksum;
pub mod dad;
pub mod discovery;
pub mod errors;
pub mod messages;
pub mod options;
