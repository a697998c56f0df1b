//! Decoding of captured Ethernet / IPv4 / TCP frames into per-packet reports.

use vstd::prelude::*;

pub mod bytes;
pub mod encode;
pub mod ethernet;
pub mod flags;
pub mod ipv4;
pub mod pipeline;
pub mod render;
pub mod report;
pub mod tcp;

verus! {

/// Why a frame produced no report.
#[derive(Clone, Copy, Debug, PartialEq, Eq, Structural)]
pub enum DissectError {
    /// A header is shorter than its minimum or declared length.
    Malformed,
    /// The frame carries a protocol outside IPv4 over Ethernet and TCP over IPv4.
    Skip,
}

} // verus!
