//! The transport layer: TCP headers and their control flags.

use vstd::prelude::*;

use crate::bytes::{be16, be32, read_be16, read_be32};
use crate::DissectError;

verus! {

/// Length of a TCP header without options.
pub const TCP_MIN_HEADER_LEN: usize = 20;

#[derive(Clone, Copy, Debug, PartialEq, Eq, Structural)]
pub struct TcpHeader {
    pub source_port: u16,
    pub destination_port: u16,
    pub sequence: u32,
    pub acknowledgement: u32,
    /// Header length in 32-bit words.
    pub data_offset: u8,
    /// The raw control-flag byte.
    pub flags: u8,
    pub window: u16,
}

impl TcpHeader {
    /// Header length in bytes.
    pub fn header_len(&self) -> (r: u8)
        requires
            self.data_offset < 16,
        ensures
            r == self.data_offset * 4,
    {
        self.data_offset * 4
    }
}

/// The header fields read from the start of `s`, which holds at least 20 bytes.
pub open spec fn tcp_header_of(s: Seq<u8>) -> TcpHeader {
    TcpHeader {
        source_port: be16(s, 0) as u16,
        destination_port: be16(s, 2) as u16,
        sequence: be32(s, 4) as u32,
        acknowledgement: be32(s, 8) as u32,
        data_offset: (s[12] / 16) as u8,
        flags: s[13],
        window: be16(s, 14) as u16,
    }
}

/// A header is malformed when the buffer is shorter than the fixed header,
/// when the data offset is below its least legal value of five words, or when
/// the header it declares runs past the buffer.
pub open spec fn tcp_malformed(s: Seq<u8>) -> bool {
    s.len() < 20 || s[12] / 16 < 5 || (s[12] / 16) * 4 > s.len()
}

/// The payload: everything after the header and its options.
pub open spec fn tcp_payload(s: Seq<u8>) -> Seq<u8> {
    s.subrange((s[12] / 16) * 4, s.len() as int)
}

/// Dissects a TCP header and hands back the payload after it.
pub fn parse_tcp(buf: &[u8]) -> (r: Result<(TcpHeader, &[u8]), DissectError>)
    ensures
        tcp_malformed(buf@) <==> r == Err::<(TcpHeader, &[u8]), DissectError>(
            DissectError::Malformed,
        ),
        !tcp_malformed(buf@) <==> r is Ok,
        r matches Ok((h, p)) ==> h == tcp_header_of(buf@) && p@ == tcp_payload(buf@),
{
    if buf.len() < TCP_MIN_HEADER_LEN {
        return Err(DissectError::Malformed);
    }
    let data_offset = buf[12] / 16;
    let header_len = (data_offset as usize) * 4;
    if data_offset < 5 || header_len > buf.len() {
        return Err(DissectError::Malformed);
    }
    let h = TcpHeader {
        source_port: read_be16(buf, 0),
        destination_port: read_be16(buf, 2),
        sequence: read_be32(buf, 4),
        acknowledgement: read_be32(buf, 8),
        data_offset,
        flags: buf[13],
        window: read_be16(buf, 14),
    };
    Ok((h, &buf[header_len..buf.len()]))
}

} // verus!
