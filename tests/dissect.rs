use tcpip_demo::encode::encode_frame;
use tcpip_demo::ethernet::{parse_ethernet, EthernetHeader};
use tcpip_demo::flags::{active_flags, flags_text, TcpFlag};
use tcpip_demo::ipv4::{parse_ipv4, Ipv4Header};
use tcpip_demo::pipeline::process_frame;
use tcpip_demo::report::render_preview;
use tcpip_demo::tcp::{parse_tcp, TcpHeader};
use tcpip_demo::DissectError;

fn eth() -> EthernetHeader {
    EthernetHeader {
        destination: [0x02, 0x00, 0x00, 0x00, 0x00, 0x01],
        source: [0x02, 0x00, 0x00, 0x00, 0x00, 0x02],
        ethertype: 0x0800,
    }
}

fn ip(payload_len: usize) -> Ipv4Header {
    Ipv4Header {
        version: 4,
        ihl: 5,
        total_length: (40 + payload_len) as u16,
        protocol: 6,
        source: 0xC0A8_0001,
        destination: 0x0A00_00FE,
    }
}

fn tcp(flags: u8) -> TcpHeader {
    TcpHeader {
        source_port: 54321,
        destination_port: 80,
        sequence: 0x0102_0304,
        acknowledgement: 0xFFFF_FFFE,
        data_offset: 5,
        flags,
        window: 65535,
    }
}

fn frame(flags: u8, payload: &[u8]) -> Vec<u8> {
    encode_frame(&eth(), &ip(payload.len()), &tcp(flags), payload)
}

#[test]
fn short_frame_is_malformed() {
    for n in 0..14 {
        let f = vec![0u8; n];
        assert!(matches!(parse_ethernet(&f), Err(DissectError::Malformed)));
        assert!(matches!(process_frame(&f), Err(DissectError::Malformed)));
    }
    assert!(parse_ethernet(&[0u8; 14]).is_ok());
}

#[test]
fn ethernet_fields_are_read() {
    let f = frame(0x02, &[]);
    let (h, rest) = parse_ethernet(&f).unwrap();
    assert_eq!(h, eth());
    assert_eq!(rest.len(), 40);
}

#[test]
fn overlong_ihl_is_malformed() {
    let mut f = frame(0x02, &[]);
    f[14] = 0x4F;
    assert!(matches!(process_frame(&f), Err(DissectError::Malformed)));
    let mut short = frame(0x02, &[]);
    short.truncate(14 + 19);
    assert!(matches!(process_frame(&short), Err(DissectError::Malformed)));
}

#[test]
fn ipv4_payload_is_cut_by_total_length_and_buffer() {
    let mut f = frame(0x02, b"hello");
    f.extend_from_slice(&[0u8; 6]);
    let (h, p) = parse_ipv4(&f[14..]).unwrap();
    assert_eq!(h, ip(5));
    assert_eq!(p.len(), 25);
    let truncated = &f[14..14 + 30];
    let (_, p) = parse_ipv4(truncated).unwrap();
    assert_eq!(p.len(), 10);
    let mut small = f.clone();
    small[16] = 0;
    small[17] = 10;
    let (_, p) = parse_ipv4(&small[14..]).unwrap();
    assert_eq!(p.len(), 0);
}

#[test]
fn tcp_data_offset_limits() {
    let f = frame(0x02, &[]);
    let mut t = f[34..].to_vec();
    assert_eq!(parse_tcp(&t).unwrap().0, tcp(0x02));
    t[12] = 0x40;
    assert!(matches!(parse_tcp(&t), Err(DissectError::Malformed)));
    t[12] = 0x60;
    assert!(matches!(parse_tcp(&t), Err(DissectError::Malformed)));
    assert!(matches!(parse_tcp(&t[..19]), Err(DissectError::Malformed)));
}

#[test]
fn empty_payload_has_no_preview() {
    let r = process_frame(&frame(0x10, &[])).unwrap();
    assert_eq!(r.payload_len, 0);
    assert!(r.preview.is_none());
}

#[test]
fn preview_is_bounded_to_64_bytes() {
    let r = process_frame(&frame(0x18, b"abc")).unwrap();
    assert_eq!(r.payload_len, 3);
    assert_eq!(r.preview.as_deref(), Some("abc"));
    let long = vec![b'x'; 100];
    let r = process_frame(&frame(0x18, &long)).unwrap();
    assert_eq!(r.payload_len, 100);
    assert_eq!(r.preview.unwrap(), "x".repeat(64));
}

#[test]
fn flags_decode_per_bit() {
    assert_eq!(active_flags(0x02), vec![TcpFlag::Syn]);
    assert_eq!(active_flags(0x12), vec![TcpFlag::Syn, TcpFlag::Ack]);
    assert_eq!(active_flags(0x00), Vec::<TcpFlag>::new());
    assert_eq!(active_flags(0xC2), vec![TcpFlag::Syn]);
    assert_eq!(
        active_flags(0x3F),
        vec![TcpFlag::Syn, TcpFlag::Ack, TcpFlag::Fin, TcpFlag::Rst, TcpFlag::Psh, TcpFlag::Urg]
    );
}

#[test]
fn flags_render_in_display_order() {
    assert_eq!(flags_text(&active_flags(0x02)), "SYN");
    assert_eq!(flags_text(&active_flags(0x12)), "SYN, ACK");
    assert_eq!(flags_text(&active_flags(0x11)), "ACK, FIN");
    assert_eq!(flags_text(&active_flags(0x00)), "(none)");
    assert_eq!(TcpFlag::Urg.name(), "URG");
    assert_eq!(TcpFlag::Psh.mask(), 0x08);
}

#[test]
fn preview_substitutes_non_printable_bytes() {
    assert_eq!(render_preview(&[0x41, 0x00, 0x42]), "A.B");
    assert_eq!(render_preview(&[0x20, 0x7E, 0x7F, 0x1F, 0xFF]), " ~...");
    assert_eq!(render_preview(&[]), "");
}

#[test]
fn unsupported_protocols_are_skipped() {
    let mut f = frame(0x02, &[]);
    f[12] = 0x86;
    f[13] = 0xDD;
    assert!(matches!(process_frame(&f), Err(DissectError::Skip)));
    let mut udp = frame(0x02, &[]);
    udp[23] = 17;
    assert!(matches!(process_frame(&udp), Err(DissectError::Skip)));
    assert!(matches!(parse_ipv4(&udp[14..]), Err(DissectError::Skip)));
}

#[test]
fn syn_frame_of_74_bytes_end_to_end() {
    let mut f = frame(0x02, &[]);
    f.extend_from_slice(&[0u8; 20]);
    assert_eq!(f.len(), 74);
    let frames = vec![f];
    let reports: Vec<_> = frames.iter().filter_map(|f| process_frame(f).ok()).collect();
    assert_eq!(reports.len(), 1);
    assert_eq!(reports[0].flags, vec![TcpFlag::Syn]);
    assert_eq!(reports[0].flags_text(), "SYN");
    assert!(reports[0].preview.is_none());
}

#[test]
fn encoded_frame_round_trips() {
    let payload = b"GET / HTTP/1.1\r\n";
    let r = process_frame(&frame(0x18, payload)).unwrap();
    assert_eq!(r.source, 0xC0A8_0001);
    assert_eq!(r.destination, 0x0A00_00FE);
    assert_eq!(r.total_length, 56);
    assert_eq!(r.source_port, 54321);
    assert_eq!(r.destination_port, 80);
    assert_eq!(r.sequence, 0x0102_0304);
    assert_eq!(r.acknowledgement, 0xFFFF_FFFE);
    assert_eq!(r.header_len, 20);
    assert_eq!(r.window, 65535);
    assert_eq!(r.flags, vec![TcpFlag::Ack, TcpFlag::Psh]);
    assert_eq!(r.payload_len, 16);
    assert_eq!(r.preview.as_deref(), Some("GET / HTTP/1.1.."));
}

#[test]
fn report_renders_as_text() {
    let r = process_frame(&frame(0x12, b"hi\n")).unwrap();
    let expected = "TCP Packet\n IP Layer: src=192.168.0.1, dst=10.0.0.254, total_length=43\n TCP Layer: src_port=54321, dst_port=80, seq=16909060, ack=4294967294,\n            header_len=20, window=65535\n Flags: SYN, ACK\n Payload: 3 bytes\n   Preview: hi.";
    assert_eq!(r.to_text(), expected);
    let bare = process_frame(&frame(0x00, &[])).unwrap();
    assert!(bare.to_text().ends_with("\n Flags: (none)"));
}
