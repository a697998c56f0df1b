//! The textual rendering of a report.

use vstd::prelude::*;
use vstd::string::StringExecFns;

use crate::flags::flags_text_spec;
use crate::report::{push_char, PacketReport};

verus! {

/// The decimal digit character of `d`, below ten.
pub open spec fn digit_char(d: nat) -> char {
    ((48 + d) as u8) as char
}

/// The decimal numeral of `n`, without leading zeros.
pub open spec fn decimal(n: nat) -> Seq<char>
    decreases n,
{
    if n < 10 {
        seq![digit_char(n)]
    } else {
        decimal(n / 10).push(digit_char(n % 10))
    }
}

/// An IPv4 address in dotted-quad notation, most significant byte first.
pub open spec fn dotted_quad(a: u32) -> Seq<char> {
    decimal((a / 16777216) as nat) + seq!['.'] + decimal(((a / 65536) % 256) as nat) + seq!['.']
        + decimal(((a / 256) % 256) as nat) + seq!['.'] + decimal((a % 256) as nat)
}

/// The lines that follow the flags: the payload size and its preview, or
/// nothing when there is no payload.
pub open spec fn payload_lines(r: PacketReport) -> Seq<char> {
    match r.preview {
        None => Seq::empty(),
        Some(p) => "\n Payload: "@ + decimal(r.payload_len as nat) + " bytes\n   Preview: "@ + p@,
    }
}

/// The text of a report.
pub open spec fn report_text(r: PacketReport) -> Seq<char> {
    "TCP Packet\n IP Layer: src="@ + dotted_quad(r.source) + ", dst="@ + dotted_quad(
        r.destination,
    ) + ", total_length="@ + decimal(r.total_length as nat) + "\n TCP Layer: src_port="@
        + decimal(r.source_port as nat) + ", dst_port="@ + decimal(r.destination_port as nat)
        + ", seq="@ + decimal(r.sequence as nat) + ", ack="@ + decimal(r.acknowledgement as nat)
        + ",\n            header_len="@ + decimal(r.header_len as nat) + ", window="@ + decimal(
        r.window as nat,
    ) + "\n Flags: "@ + flags_text_spec(r.flags@) + payload_lines(r)
}

/// Appends the decimal numeral of `n`.
pub fn push_decimal(s: &mut String, n: u64)
    ensures
        final(s)@ == old(s)@ + decimal(n as nat),
    decreases n,
{
    if n >= 10 {
        push_decimal(s, n / 10);
    }
    let d = (n % 10) as u8;
    push_char(s, (48 + d) as char);
    assert(final(s)@ =~= old(s)@ + decimal(n as nat));
}

/// Appends an IPv4 address in dotted-quad notation.
pub fn push_dotted_quad(s: &mut String, a: u32)
    ensures
        final(s)@ == old(s)@ + dotted_quad(a),
{
    push_decimal(s, (a / 16777216) as u64);
    push_char(s, '.');
    push_decimal(s, ((a / 65536) % 256) as u64);
    push_char(s, '.');
    push_decimal(s, ((a / 256) % 256) as u64);
    push_char(s, '.');
    push_decimal(s, (a % 256) as u64);
    assert(final(s)@ =~= old(s)@ + dotted_quad(a));
}

impl PacketReport {
    /// Renders the report as text, one field group per line.
    pub fn to_text(&self) -> (r: String)
        ensures
            r@ == report_text(*self),
    {
        let mut s = String::from_str("TCP Packet\n IP Layer: src=");
        push_dotted_quad(&mut s, self.source);
        s.append(", dst=");
        push_dotted_quad(&mut s, self.destination);
        s.append(", total_length=");
        push_decimal(&mut s, self.total_length as u64);
        s.append("\n TCP Layer: src_port=");
        push_decimal(&mut s, self.source_port as u64);
        s.append(", dst_port=");
        push_decimal(&mut s, self.destination_port as u64);
        s.append(", seq=");
        push_decimal(&mut s, self.sequence as u64);
        s.append(", ack=");
        push_decimal(&mut s, self.acknowledgement as u64);
        s.append(",\n            header_len=");
        push_decimal(&mut s, self.header_len as u64);
        s.append(", window=");
        push_decimal(&mut s, self.window as u64);
        s.append("\n Flags: ");
        let flags = self.flags_text();
        s.append(flags.as_str());
        let ghost head = s@;
        match &self.preview {
            None => {},
            Some(p) => {
                s.append("\n Payload: ");
                push_decimal(&mut s, self.payload_len as u64);
                s.append(" bytes\n   Preview: ");
                s.append(p.as_str());
            },
        }
        assert(s@ =~= head + payload_lines(*self));
        assert(s@ =~= report_text(*self));
        s
    }
}

} // verus!
