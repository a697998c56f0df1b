//! The link layer: Ethernet II headers.

use vstd::prelude::*;

use crate::bytes::{be16, read_be16};
use crate::DissectError;

verus! {

/// Length of an Ethernet II header: two addresses and the ethertype.
pub const ETHERNET_HEADER_LEN: usize = 14;

/// The ethertype of IPv4.
pub const ETHERTYPE_IPV4: u16 = 0x0800;

#[derive(Clone, Copy, Debug, PartialEq, Eq)]
pub struct EthernetHeader {
    pub destination: [u8; 6],
    pub source: [u8; 6],
    pub ethertype: u16,
}

/// `h` holds the header fields at the start of frame `f`.
pub open spec fn ethernet_fields(h: EthernetHeader, f: Seq<u8>) -> bool {
    &&& h.destination@ == f.subrange(0, 6)
    &&& h.source@ == f.subrange(6, 12)
    &&& h.ethertype as int == be16(f, 12)
}

/// Splits a frame into its Ethernet header and the payload after it.
/// Any ethertype is accepted here; the caller decides what to dissect.
pub fn parse_ethernet(frame: &[u8]) -> (r: Result<(EthernetHeader, &[u8]), DissectError>)
    ensures
        frame@.len() < 14 ==> r == Err::<(EthernetHeader, &[u8]), DissectError>(
            DissectError::Malformed,
        ),
        frame@.len() >= 14 ==> r is Ok,
        r matches Ok((h, p)) ==> ethernet_fields(h, frame@) && p@ == frame@.subrange(
            14,
            frame@.len() as int,
        ),
{
    if frame.len() < ETHERNET_HEADER_LEN {
        return Err(DissectError::Malformed);
    }
    let destination = [frame[0], frame[1], frame[2], frame[3], frame[4], frame[5]];
    let source = [frame[6], frame[7], frame[8], frame[9], frame[10], frame[11]];
    let ethertype = read_be16(frame, 12);
    let h = EthernetHeader { destination, source, ethertype };
    assert(h.destination@ =~= frame@.subrange(0, 6));
    assert(h.source@ =~= frame@.subrange(6, 12));
    Ok((h, &frame[ETHERNET_HEADER_LEN..frame.len()]))
}

} // verus!
