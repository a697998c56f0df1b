//! One pass of the capture pipeline: a raw frame goes through the Ethernet,
//! IPv4 and TCP dissectors and comes out as a report, or is dropped.

use vstd::prelude::*;

use crate::bytes::be16;
use crate::ethernet::{parse_ethernet, ETHERTYPE_IPV4};
use crate::ipv4::{ipv4_header_of, ipv4_malformed, ipv4_payload, parse_ipv4, Ipv4Header};
use crate::report::{build_report, reports, PacketReport};
use crate::tcp::{parse_tcp, tcp_header_of, tcp_malformed, tcp_payload, TcpHeader};
use crate::DissectError;

verus! {

/// What a frame dissects to: its IPv4 header, its TCP header and the TCP
/// payload, or the first stage's reason to drop it.
pub open spec fn dissect(f: Seq<u8>) -> Result<(Ipv4Header, TcpHeader, Seq<u8>), DissectError> {
    if f.len() < 14 {
        Err(DissectError::Malformed)
    } else if be16(f, 12) != 0x0800 {
        Err(DissectError::Skip)
    } else {
        let ip = f.subrange(14, f.len() as int);
        if ipv4_malformed(ip) {
            Err(DissectError::Malformed)
        } else if ip[9] != 6 {
            Err(DissectError::Skip)
        } else {
            let t = ipv4_payload(ip);
            if tcp_malformed(t) {
                Err(DissectError::Malformed)
            } else {
                Ok((ipv4_header_of(ip), tcp_header_of(t), tcp_payload(t)))
            }
        }
    }
}

/// `r` is the outcome that the frame `f` calls for.
pub open spec fn outcome_of(r: Result<PacketReport, DissectError>, f: Seq<u8>) -> bool {
    match dissect(f) {
        Ok((ip, tcp, p)) => r matches Ok(rep) && reports(rep, ip, tcp, p),
        Err(e) => r == Err::<PacketReport, DissectError>(e),
    }
}

/// Classifies and dissects one frame. Frames that are not TCP over IPv4 over
/// Ethernet give `Skip`; frames shorter than a header claims give `Malformed`.
pub fn process_frame(frame: &[u8]) -> (r: Result<PacketReport, DissectError>)
    ensures
        outcome_of(r, frame@),
{
    let (eth, ip_bytes) = match parse_ethernet(frame) {
        Ok(x) => x,
        Err(e) => return Err(e),
    };
    if eth.ethertype != ETHERTYPE_IPV4 {
        return Err(DissectError::Skip);
    }
    let (ip, tcp_bytes) = match parse_ipv4(ip_bytes) {
        Ok(x) => x,
        Err(e) => return Err(e),
    };
    let (tcp, payload) = match parse_tcp(tcp_bytes) {
        Ok(x) => x,
        Err(e) => return Err(e),
    };
    Ok(build_report(&ip, &tcp, payload))
}

/// A frame shorter than an Ethernet header is malformed; no later stage is
/// consulted.
pub proof fn lemma_short_frame_malformed(f: Seq<u8>)
    requires
        f.len() < 14,
    ensures
        dissect(f) == Err::<(Ipv4Header, TcpHeader, Seq<u8>), DissectError>(
            DissectError::Malformed,
        ),
{
}

/// An IPv4 frame whose header length field claims more bytes than follow the
/// Ethernet header is malformed.
pub proof fn lemma_overlong_ipv4_header_malformed(f: Seq<u8>)
    requires
        f.len() > 14,
        be16(f, 12) == 0x0800,
        (f[14] % 16) * 4 > f.len() - 14,
    ensures
        dissect(f) == Err::<(Ipv4Header, TcpHeader, Seq<u8>), DissectError>(
            DissectError::Malformed,
        ),
{
    let ip = f.subrange(14, f.len() as int);
    if ip.len() >= 20 {
        assert(ip[0] == f[14]);
    }
}

/// A frame whose ethertype is not IPv4, or whose well-formed IPv4 header names
/// a protocol other than TCP, is skipped: it yields no report and no error.
pub proof fn lemma_unsupported_protocol_skipped(f: Seq<u8>)
    requires
        f.len() >= 14,
        be16(f, 12) != 0x0800 || (!ipv4_malformed(f.subrange(14, f.len() as int)) && f[23]
            != 6),
    ensures
        dissect(f) == Err::<(Ipv4Header, TcpHeader, Seq<u8>), DissectError>(DissectError::Skip),
{
    let ip = f.subrange(14, f.len() as int);
    if !ipv4_malformed(ip) {
        assert(ip[9] == f[23]);
    }
}

} // verus!
