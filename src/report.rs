//! Per-packet reports: owned copies of the decoded fields and a printable
//! preview of the payload.

use vstd::prelude::*;

use crate::flags::{active_flags, active_flags_spec, flags_text, flags_text_spec, TcpFlag};
use crate::ipv4::Ipv4Header;
use crate::tcp::TcpHeader;

verus! {

/// At most this many leading payload bytes are previewed.
pub const PREVIEW_LIMIT: usize = 64;

/// A byte as shown in a preview: printable ASCII (graphic characters and the
/// space) stands for itself, anything else becomes '.'.
pub open spec fn preview_char(b: u8) -> char {
    if 0x20 <= b && b <= 0x7e {
        b as char
    } else {
        '.'
    }
}

/// The preview of a payload: one character for each of its first 64 bytes.
pub open spec fn preview_of(p: Seq<u8>) -> Seq<char> {
    let n = if p.len() < 64 {
        p.len() as int
    } else {
        64
    };
    Seq::new(n as nat, |i: int| preview_char(p[i]))
}

/// Relies on String::push: the character is appended at the end.
#[verifier::external_body]
pub(crate) fn push_char(s: &mut String, c: char)
    ensures
        final(s)@ == old(s)@.push(c),
{
    s.push(c)
}

/// Renders the printable preview of a payload.
pub fn render_preview(payload: &[u8]) -> (r: String)
    ensures
        r@ == preview_of(payload@),
{
    let n = if payload.len() < PREVIEW_LIMIT {
        payload.len()
    } else {
        PREVIEW_LIMIT
    };
    let mut s = String::new();
    for i in 0..n
        invariant
            n <= payload@.len(),
            n == preview_of(payload@).len(),
            s@ == preview_of(payload@).take(i as int),
    {
        let b = payload[i];
        let c = if 0x20 <= b && b <= 0x7e {
            b as char
        } else {
            '.'
        };
        push_char(&mut s, c);
        assert(s@ =~= preview_of(payload@).take(i + 1));
    }
    assert(s@ =~= preview_of(payload@));
    s
}

/// What one TCP/IPv4 frame decoded to. It owns its fields, so it outlives the
/// buffer that the frame was captured into.
#[derive(Clone, Debug)]
pub struct PacketReport {
    pub source: u32,
    pub destination: u32,
    pub total_length: u16,
    pub source_port: u16,
    pub destination_port: u16,
    pub sequence: u32,
    pub acknowledgement: u32,
    /// TCP header length in bytes.
    pub header_len: u8,
    pub window: u16,
    /// The set flags, in display order.
    pub flags: Vec<TcpFlag>,
    pub payload_len: usize,
    /// The printable preview; absent when the payload is empty.
    pub preview: Option<String>,
}

/// `r` reports the headers `ip` and `tcp` and the TCP payload `payload`.
pub open spec fn reports(r: PacketReport, ip: Ipv4Header, tcp: TcpHeader, payload: Seq<u8>) -> bool {
    &&& r.source == ip.source
    &&& r.destination == ip.destination
    &&& r.total_length == ip.total_length
    &&& r.source_port == tcp.source_port
    &&& r.destination_port == tcp.destination_port
    &&& r.sequence == tcp.sequence
    &&& r.acknowledgement == tcp.acknowledgement
    &&& r.header_len == tcp.data_offset * 4
    &&& r.window == tcp.window
    &&& r.flags@ == active_flags_spec(tcp.flags)
    &&& r.payload_len == payload.len()
    &&& match r.preview {
        None => payload.len() == 0,
        Some(p) => payload.len() > 0 && p@ == preview_of(payload),
    }
}

/// Builds the report of one dissected packet.
pub fn build_report(ip: &Ipv4Header, tcp: &TcpHeader, payload: &[u8]) -> (r: PacketReport)
    requires
        tcp.data_offset < 16,
    ensures
        reports(r, *ip, *tcp, payload@),
{
    let preview = if payload.len() == 0 {
        None
    } else {
        Some(render_preview(payload))
    };
    PacketReport {
        source: ip.source,
        destination: ip.destination,
        total_length: ip.total_length,
        source_port: tcp.source_port,
        destination_port: tcp.destination_port,
        sequence: tcp.sequence,
        acknowledgement: tcp.acknowledgement,
        header_len: tcp.header_len(),
        window: tcp.window,
        flags: active_flags(tcp.flags),
        payload_len: payload.len(),
        preview,
    }
}

/// A report has a preview exactly when the payload is not empty, and the
/// preview then holds one character for each of the first `min(len, 64)`
/// payload bytes.
pub proof fn lemma_preview_presence(
    r: PacketReport,
    ip: Ipv4Header,
    tcp: TcpHeader,
    payload: Seq<u8>,
)
    requires
        reports(r, ip, tcp, payload),
    ensures
        r.preview is None <==> payload.len() == 0,
        r.preview matches Some(p) ==> p@.len() == if payload.len() < 64 {
            payload.len() as int
        } else {
            64
        },
{
}

impl PacketReport {
    /// The flags as displayed: names comma-joined, or "(none)".
    pub fn flags_text(&self) -> (r: String)
        ensures
            r@ == flags_text_spec(self.flags@),
    {
        flags_text(&self.flags)
    }
}

} // verus!
