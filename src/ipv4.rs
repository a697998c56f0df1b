//! The network layer: IPv4 headers.

use vstd::prelude::*;

use crate::bytes::{be16, be32, read_be16, read_be32};
use crate::DissectError;

verus! {

/// Length of an IPv4 header without options.
pub const IPV4_MIN_HEADER_LEN: usize = 20;

/// The IP protocol number of TCP.
pub const IP_PROTOCOL_TCP: u8 = 6;

#[derive(Clone, Copy, Debug, PartialEq, Eq, Structural)]
pub struct Ipv4Header {
    pub version: u8,
    /// Header length in 32-bit words.
    pub ihl: u8,
    pub total_length: u16,
    pub protocol: u8,
    pub source: u32,
    pub destination: u32,
}

/// The header fields read from the start of `s`, which holds at least 20 bytes.
pub open spec fn ipv4_header_of(s: Seq<u8>) -> Ipv4Header {
    Ipv4Header {
        version: (s[0] / 16) as u8,
        ihl: (s[0] % 16) as u8,
        total_length: be16(s, 2) as u16,
        protocol: s[9],
        source: be32(s, 12) as u32,
        destination: be32(s, 16) as u32,
    }
}

/// A header is malformed when the buffer is shorter than the fixed header or
/// than the length the header declares.
pub open spec fn ipv4_malformed(s: Seq<u8>) -> bool {
    s.len() < 20 || (s[0] % 16) * 4 > s.len()
}

/// Where the payload starts: after the fixed header and any options.
pub open spec fn ipv4_payload_start(h: Ipv4Header) -> int {
    if h.ihl * 4 < 20 {
        20
    } else {
        h.ihl * 4
    }
}

/// The payload: `total_length - ihl * 4` bytes (none if negative), cut short
/// where the captured buffer ends.
pub open spec fn ipv4_payload(s: Seq<u8>) -> Seq<u8> {
    let h = ipv4_header_of(s);
    let start = ipv4_payload_start(h);
    let declared = if h.total_length < h.ihl * 4 {
        0
    } else {
        h.total_length - h.ihl * 4
    };
    let end = if start + declared < s.len() {
        start + declared
    } else {
        s.len() as int
    };
    s.subrange(start, end)
}

/// Dissects an IPv4 header and hands back the payload it carries, when that
/// payload is TCP.
pub fn parse_ipv4(buf: &[u8]) -> (r: Result<(Ipv4Header, &[u8]), DissectError>)
    ensures
        ipv4_malformed(buf@) ==> r == Err::<(Ipv4Header, &[u8]), DissectError>(
            DissectError::Malformed,
        ),
        !ipv4_malformed(buf@) && buf@[9] != 6 ==> r == Err::<(Ipv4Header, &[u8]), DissectError>(
            DissectError::Skip,
        ),
        !ipv4_malformed(buf@) && buf@[9] == 6 ==> r is Ok,
        r matches Ok((h, p)) ==> h == ipv4_header_of(buf@) && p@ == ipv4_payload(buf@),
{
    if buf.len() < IPV4_MIN_HEADER_LEN {
        return Err(DissectError::Malformed);
    }
    let ihl = buf[0] % 16;
    let declared_len = (ihl as usize) * 4;
    if declared_len > buf.len() {
        return Err(DissectError::Malformed);
    }
    let h = Ipv4Header {
        version: buf[0] / 16,
        ihl,
        total_length: read_be16(buf, 2),
        protocol: buf[9],
        source: read_be32(buf, 12),
        destination: read_be32(buf, 16),
    };
    if h.protocol != IP_PROTOCOL_TCP {
        return Err(DissectError::Skip);
    }
    let start = if declared_len < IPV4_MIN_HEADER_LEN {
        IPV4_MIN_HEADER_LEN
    } else {
        declared_len
    };
    let total = h.total_length as usize;
    let declared_payload = if total < declared_len {
        0
    } else {
        total - declared_len
    };
    let remaining = buf.len() - start;
    let end = if declared_payload < remaining {
        start + declared_payload
    } else {
        buf.len()
    };
    Ok((h, &buf[start..end]))
}

} // verus!
