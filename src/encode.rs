//! A frame encoder that writes Ethernet, IPv4 and TCP headers without
//! options, for building frames that the dissectors are held against.

use vstd::prelude::*;

use crate::bytes::{be16, be32};
use crate::ethernet::{ethernet_fields, EthernetHeader};
use crate::ipv4::Ipv4Header;
use crate::pipeline::dissect;
use crate::tcp::TcpHeader;
use crate::DissectError;

verus! {

/// The two big-endian bytes of `x`.
pub open spec fn be16_bytes(x: u16) -> Seq<u8> {
    seq![(x / 256) as u8, (x % 256) as u8]
}

/// The four big-endian bytes of `x`.
pub open spec fn be32_bytes(x: u32) -> Seq<u8> {
    be16_bytes((x / 65536) as u16) + be16_bytes((x % 65536) as u16)
}

pub open spec fn encode_ethernet(h: EthernetHeader) -> Seq<u8> {
    h.destination@ + h.source@ + be16_bytes(h.ethertype)
}

/// A 20-byte IPv4 header; the fields outside the model are zero but for a
/// time to live of 64.
pub open spec fn encode_ipv4(h: Ipv4Header) -> Seq<u8> {
    seq![(h.version * 16 + h.ihl) as u8, 0u8] + be16_bytes(h.total_length) + seq![
        0u8,
        0u8,
        0u8,
        0u8,
        64u8,
        h.protocol,
        0u8,
        0u8,
    ] + be32_bytes(h.source) + be32_bytes(h.destination)
}

/// A 20-byte TCP header; reserved bits, checksum and urgent pointer are zero.
pub open spec fn encode_tcp(h: TcpHeader) -> Seq<u8> {
    be16_bytes(h.source_port) + be16_bytes(h.destination_port) + be32_bytes(h.sequence)
        + be32_bytes(h.acknowledgement) + seq![(h.data_offset * 16) as u8, h.flags] + be16_bytes(
        h.window,
    ) + seq![0u8, 0u8, 0u8, 0u8]
}

pub open spec fn encode_frame_spec(
    eth: EthernetHeader,
    ip: Ipv4Header,
    tcp: TcpHeader,
    payload: Seq<u8>,
) -> Seq<u8> {
    encode_ethernet(eth) + encode_ipv4(ip) + encode_tcp(tcp) + payload
}

/// The headers describe a TCP segment over IPv4 over Ethernet whose headers
/// carry no options and whose IPv4 total length counts exactly `payload`.
pub open spec fn consistent_frame(
    eth: EthernetHeader,
    ip: Ipv4Header,
    tcp: TcpHeader,
    payload: Seq<u8>,
) -> bool {
    &&& eth.ethertype == 0x0800
    &&& ip.version < 16
    &&& ip.ihl == 5
    &&& ip.protocol == 6
    &&& ip.total_length == 40 + payload.len()
    &&& tcp.data_offset == 5
}

fn push_be16(v: &mut Vec<u8>, x: u16)
    ensures
        final(v)@ == old(v)@ + be16_bytes(x),
{
    v.push((x / 256) as u8);
    v.push((x % 256) as u8);
    assert(final(v)@ =~= old(v)@ + be16_bytes(x));
}

fn push_be32(v: &mut Vec<u8>, x: u32)
    ensures
        final(v)@ == old(v)@ + be32_bytes(x),
{
    push_be16(v, (x / 65536) as u16);
    push_be16(v, (x % 65536) as u16);
    assert(final(v)@ =~= old(v)@ + be32_bytes(x));
}

fn push_all(v: &mut Vec<u8>, s: &[u8])
    ensures
        final(v)@ == old(v)@ + s@,
{
    let ghost start = v@;
    for i in 0..s.len()
        invariant
            v@ == start + s@.take(i as int),
    {
        v.push(s[i]);
        assert(v@ =~= start + s@.take(i + 1));
    }
    assert(s@.take(s@.len() as int) =~= s@);
}

/// Writes a frame of the given headers, without options, followed by the payload.
pub fn encode_frame(eth: &EthernetHeader, ip: &Ipv4Header, tcp: &TcpHeader, payload: &[u8]) -> (r:
    Vec<u8>)
    requires
        ip.version < 16,
        ip.ihl < 16,
        tcp.data_offset < 16,
    ensures
        r@ == encode_frame_spec(*eth, *ip, *tcp, payload@),
{
    let mut v: Vec<u8> = Vec::new();
    push_all(&mut v, &eth.destination);
    push_all(&mut v, &eth.source);
    push_be16(&mut v, eth.ethertype);
    let ghost e = v@;
    assert(e =~= encode_ethernet(*eth));
    v.push(ip.version * 16 + ip.ihl);
    v.push(0);
    push_be16(&mut v, ip.total_length);
    v.push(0);
    v.push(0);
    v.push(0);
    v.push(0);
    v.push(64);
    v.push(ip.protocol);
    v.push(0);
    v.push(0);
    push_be32(&mut v, ip.source);
    push_be32(&mut v, ip.destination);
    let ghost i = v@;
    assert(i =~= e + encode_ipv4(*ip));
    push_be16(&mut v, tcp.source_port);
    push_be16(&mut v, tcp.destination_port);
    push_be32(&mut v, tcp.sequence);
    push_be32(&mut v, tcp.acknowledgement);
    v.push(tcp.data_offset * 16);
    v.push(tcp.flags);
    push_be16(&mut v, tcp.window);
    v.push(0);
    v.push(0);
    v.push(0);
    v.push(0);
    assert(v@ =~= i + encode_tcp(*tcp));
    push_all(&mut v, payload);
    assert(v@ =~= encode_frame_spec(*eth, *ip, *tcp, payload@));
    v
}

proof fn lemma_be16_at(a: Seq<u8>, x: u16, b: Seq<u8>)
    ensures
        be16(a + be16_bytes(x) + b, a.len() as int) == x,
{
    let s = a + be16_bytes(x) + b;
    assert(s[a.len() as int] == (x / 256) as u8);
    assert(s[a.len() as int + 1] == (x % 256) as u8);
}

proof fn lemma_be32_at(a: Seq<u8>, x: u32, b: Seq<u8>)
    ensures
        be32(a + be32_bytes(x) + b, a.len() as int) == x,
{
    let hi = (x / 65536) as u16;
    let lo = (x % 65536) as u16;
    let s = a + be32_bytes(x) + b;
    assert(s =~= a + be16_bytes(hi) + (be16_bytes(lo) + b));
    lemma_be16_at(a, hi, be16_bytes(lo) + b);
    assert(s =~= (a + be16_bytes(hi)) + be16_bytes(lo) + b);
    lemma_be16_at(a + be16_bytes(hi), lo, b);
}

proof fn lemma_ipv4_round_trip(ip: Ipv4Header, rest: Seq<u8>)
    requires
        ip.version < 16,
        ip.ihl == 5,
        ip.total_length == 20 + rest.len(),
    ensures
        !crate::ipv4::ipv4_malformed(encode_ipv4(ip) + rest),
        (encode_ipv4(ip) + rest)[9] == ip.protocol,
        crate::ipv4::ipv4_header_of(encode_ipv4(ip) + rest) == ip,
        crate::ipv4::ipv4_payload(encode_ipv4(ip) + rest) == rest,
{
    let s = encode_ipv4(ip) + rest;
    let n = s.len() as int;
    assert(s[0] == ip.version * 16 + 5);
    assert(s[9] == ip.protocol);
    assert(s =~= seq![(ip.version * 16 + ip.ihl) as u8, 0u8] + be16_bytes(ip.total_length)
        + s.subrange(4, n));
    lemma_be16_at(seq![(ip.version * 16 + ip.ihl) as u8, 0u8], ip.total_length, s.subrange(4, n));
    assert(s =~= s.subrange(0, 12) + be32_bytes(ip.source) + s.subrange(16, n));
    lemma_be32_at(s.subrange(0, 12), ip.source, s.subrange(16, n));
    assert(s =~= s.subrange(0, 16) + be32_bytes(ip.destination) + s.subrange(20, n));
    lemma_be32_at(s.subrange(0, 16), ip.destination, s.subrange(20, n));
    assert(crate::ipv4::ipv4_header_of(s) == ip);
    assert(crate::ipv4::ipv4_payload(s) =~= rest);
}

proof fn lemma_tcp_round_trip(tcp: TcpHeader, payload: Seq<u8>)
    requires
        tcp.data_offset == 5,
    ensures
        !crate::tcp::tcp_malformed(encode_tcp(tcp) + payload),
        crate::tcp::tcp_header_of(encode_tcp(tcp) + payload) == tcp,
        crate::tcp::tcp_payload(encode_tcp(tcp) + payload) == payload,
{
    let t = encode_tcp(tcp) + payload;
    let n = t.len() as int;
    assert(t[12] == 80);
    assert(t[13] == tcp.flags);
    assert(t =~= be16_bytes(tcp.source_port) + t.subrange(2, n));
    lemma_be16_at(Seq::empty(), tcp.source_port, t.subrange(2, n));
    assert(Seq::<u8>::empty() + be16_bytes(tcp.source_port) + t.subrange(2, n) =~= t);
    assert(t =~= t.subrange(0, 2) + be16_bytes(tcp.destination_port) + t.subrange(4, n));
    lemma_be16_at(t.subrange(0, 2), tcp.destination_port, t.subrange(4, n));
    assert(t =~= t.subrange(0, 4) + be32_bytes(tcp.sequence) + t.subrange(8, n));
    lemma_be32_at(t.subrange(0, 4), tcp.sequence, t.subrange(8, n));
    assert(t =~= t.subrange(0, 8) + be32_bytes(tcp.acknowledgement) + t.subrange(12, n));
    lemma_be32_at(t.subrange(0, 8), tcp.acknowledgement, t.subrange(12, n));
    assert(t =~= t.subrange(0, 14) + be16_bytes(tcp.window) + t.subrange(16, n));
    lemma_be16_at(t.subrange(0, 14), tcp.window, t.subrange(16, n));
    assert(crate::tcp::tcp_header_of(t) == tcp);
    assert(crate::tcp::tcp_payload(t) =~= payload);
}

/// Decoding a frame that the encoder wrote gives back every header field and
/// the payload: the Ethernet fields read from its first bytes are the ones
/// written, and the dissector finds the same IPv4 header, TCP header and
/// payload.
pub proof fn lemma_encode_then_dissect(
    eth: EthernetHeader,
    ip: Ipv4Header,
    tcp: TcpHeader,
    payload: Seq<u8>,
)
    requires
        consistent_frame(eth, ip, tcp, payload),
    ensures
        ethernet_fields(eth, encode_frame_spec(eth, ip, tcp, payload)),
        dissect(encode_frame_spec(eth, ip, tcp, payload)) == Ok::<
            (Ipv4Header, TcpHeader, Seq<u8>),
            DissectError,
        >((ip, tcp, payload)),
{
    let f = encode_frame_spec(eth, ip, tcp, payload);
    let rest = encode_tcp(tcp) + payload;
    assert(f.subrange(0, 6) =~= eth.destination@);
    assert(f.subrange(6, 12) =~= eth.source@);
    assert(f =~= (eth.destination@ + eth.source@) + be16_bytes(eth.ethertype) + (encode_ipv4(ip)
        + rest));
    lemma_be16_at(eth.destination@ + eth.source@, eth.ethertype, encode_ipv4(ip) + rest);
    assert(f.subrange(14, f.len() as int) =~= encode_ipv4(ip) + rest);
    let s = f.subrange(14, f.len() as int);
    lemma_ipv4_round_trip(ip, rest);
    lemma_tcp_round_trip(tcp, payload);
    assert(be16(f, 12) == 0x0800);
    assert(!crate::ipv4::ipv4_malformed(s) && s[9] == 6);
    assert(crate::ipv4::ipv4_payload(s) == rest);
}

} // verus!
