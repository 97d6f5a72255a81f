//! From a captured Ethernet frame to what the detector takes in: source
//! address, destination port, protocol name and TCP flags.
use vstd::prelude::*;
use etherparse::{NetHeaders, PacketHeaders, TcpHeader, TransportHeader};
use crate::config::SELF_IP_FILTER;
use crate::text::{decimal, hex_byte, push_decimal, push_hex_byte, push_text, same_text};

verus! {

/// The flags of a TCP header.
#[derive(Debug, Clone, Copy, PartialEq, Eq, Structural)]
pub struct TcpFlags {
    pub fin: bool,
    pub syn: bool,
    pub rst: bool,
    pub psh: bool,
    pub ack: bool,
    pub urg: bool,
    pub ece: bool,
    pub cwr: bool,
}

/// What the engine reads of a frame's network layer.
#[derive(Debug, Clone, Copy)]
#[allow(inconsistent_fields)]
pub enum NetLayer {
    /// An IPv4 header: source address and protocol number.
    Ipv4 { source: [u8; 4], protocol: u8 },
    /// An IPv6 header: source address and the number of the next header.
    Ipv6 { source: [u8; 16], next_header: u8 },
    /// No IP header.
    Other,
}

/// What the engine reads of a frame's transport layer.
#[derive(Debug, Clone, Copy)]
pub enum TransportLayer {
    Tcp { destination_port: u16, flags: TcpFlags },
    Udp { destination_port: u16 },
    /// Neither TCP nor UDP.
    Other,
}

/// The headers of a frame, as far as the engine reads them.
#[derive(Debug, Clone, Copy)]
pub struct Headers {
    pub net: NetLayer,
    pub transport: TransportLayer,
}

/// The headers that `PacketHeaders::from_ethernet_slice` decodes from a
/// frame; none where it rejects the frame.
pub uninterp spec fn decoded_headers(frame: Seq<u8>) -> Option<Headers>;

/// Decodes a frame with etherparse's `PacketHeaders::from_ethernet_slice`
/// and hands over the fields that the engine reads.  The result depends on
/// the frame's bytes alone.
#[verifier::external_body]
fn decode_ethernet(frame: &[u8]) -> (headers: Option<Headers>)
    ensures
        headers == decoded_headers(frame@),
{
    let h = PacketHeaders::from_ethernet_slice(frame).ok()?;
    let net = match h.net {
        Some(NetHeaders::Ipv4(ip, _)) => NetLayer::Ipv4 { source: ip.source, protocol: ip.protocol.0 },
        Some(NetHeaders::Ipv6(ip, _)) => NetLayer::Ipv6 { source: ip.source, next_header: ip.next_header.0 },
        _ => NetLayer::Other,
    };
    let transport = match h.transport {
        Some(TransportHeader::Tcp(TcpHeader { destination_port, fin, syn, rst, psh, ack, urg, ece, cwr, .. })) => TransportLayer::Tcp { destination_port, flags: TcpFlags { fin, syn, rst, psh, ack, urg, ece, cwr } },
        Some(TransportHeader::Udp(u)) => TransportLayer::Udp { destination_port: u.destination_port },
        _ => TransportLayer::Other,
    };
    Some(Headers { net, transport })
}

/// The flag bits of a TCP header.
pub const FIN: u8 = 0x01;

pub const SYN: u8 = 0x02;

pub const RST: u8 = 0x04;

pub const PSH: u8 = 0x08;

pub const ACK: u8 = 0x10;

pub const URG: u8 = 0x20;

pub const ECE: u8 = 0x40;

pub const CWR: u8 = 0x80;

/// `bit` where the flag is set, zero where it is not.
pub open spec fn bit_if(set: bool, bit: u8) -> u8 {
    if set {
        bit
    } else {
        0
    }
}

/// The flags of a TCP header as one byte.
pub open spec fn flags_byte(flags: TcpFlags) -> u8 {
    bit_if(flags.fin, FIN) | bit_if(flags.syn, SYN) | bit_if(flags.rst, RST) | bit_if(
        flags.psh,
        PSH,
    ) | bit_if(flags.ack, ACK) | bit_if(flags.urg, URG) | bit_if(flags.ece, ECE) | bit_if(
        flags.cwr,
        CWR,
    )
}

fn pick(set: bool, bit: u8) -> (b: u8)
    ensures
        b == bit_if(set, bit),
{
    if set {
        bit
    } else {
        0
    }
}

/// The flags of a TCP header as one byte.
pub fn compose_flags(flags: &TcpFlags) -> (byte: u8)
    ensures
        byte == flags_byte(*flags),
{
    pick(flags.fin, FIN) | pick(flags.syn, SYN) | pick(flags.rst, RST) | pick(flags.psh, PSH)
        | pick(flags.ack, ACK) | pick(flags.urg, URG) | pick(flags.ece, ECE) | pick(
        flags.cwr,
        CWR,
    )
}

/// The name of a protocol by its number; none for a protocol that the
/// engine does not follow.
pub open spec fn protocol_name_spec(number: u8) -> Option<Seq<char>> {
    if number == 6 {
        Some("TCP"@)
    } else if number == 17 {
        Some("UDP"@)
    } else if number == 1 {
        Some("ICMP"@)
    } else {
        None
    }
}

/// The name of a protocol by its number.
pub fn protocol_name(number: u8) -> (name: Option<&'static str>)
    ensures
        name.is_some() == protocol_name_spec(number).is_some(),
        name matches Some(n) ==> protocol_name_spec(number) == Some(n@),
{
    if number == 6 {
        Some("TCP")
    } else if number == 17 {
        Some("UDP")
    } else if number == 1 {
        Some("ICMP")
    } else {
        None
    }
}

/// An IPv4 address in dotted-quad form.
pub open spec fn dotted_quad(addr: Seq<u8>) -> Seq<char> {
    decimal(addr[0] as nat) + "."@ + decimal(addr[1] as nat) + "."@ + decimal(addr[2] as nat)
        + "."@ + decimal(addr[3] as nat)
}

/// An IPv4 address in dotted-quad form.
pub fn format_ipv4(addr: &[u8; 4]) -> (text: String)
    ensures
        text@ == dotted_quad(addr@),
{
    let mut text = String::new();
    push_decimal(&mut text, addr[0] as u64);
    push_text(&mut text, ".");
    push_decimal(&mut text, addr[1] as u64);
    push_text(&mut text, ".");
    push_decimal(&mut text, addr[2] as u64);
    push_text(&mut text, ".");
    push_decimal(&mut text, addr[3] as u64);
    assert(text@ =~= dotted_quad(addr@));
    text
}

/// The first `groups` groups of an IPv6 address: each group is two bytes
/// as four hexadecimal digits, and a colon stands between two groups.
pub open spec fn ipv6_groups(addr: Seq<u8>, groups: nat) -> Seq<char>
    decreases groups,
{
    if groups == 0 {
        Seq::empty()
    } else {
        let g = groups - 1;
        ipv6_groups(addr, g as nat) + (if g > 0 {
            ":"@
        } else {
            Seq::empty()
        }) + hex_byte(addr[2 * g]) + hex_byte(addr[2 * g + 1])
    }
}

/// An IPv6 address as eight groups of four hexadecimal digits, nothing
/// abbreviated.
pub open spec fn ipv6_text(addr: Seq<u8>) -> Seq<char> {
    ipv6_groups(addr, 8)
}

/// An IPv6 address as eight groups of four hexadecimal digits, nothing
/// abbreviated.
pub fn format_ipv6(addr: &[u8; 16]) -> (text: String)
    ensures
        text@ == ipv6_text(addr@),
{
    let mut text = String::new();
    let mut g: usize = 0;
    while g < 8
        invariant
            g <= 8,
            text@ == ipv6_groups(addr@, g as nat),
        decreases 8 - g,
    {
        let ghost before = text@;
        if g > 0 {
            text.push(':');
            proof {
                reveal_strlit(":");
                assert(":"@ =~= seq![':']);
                assert(text@ =~= before + ":"@);
            }
        } else {
            assert(text@ =~= before + Seq::<char>::empty());
        }
        push_hex_byte(&mut text, addr[2 * g]);
        push_hex_byte(&mut text, addr[2 * g + 1]);
        g += 1;
    }
    text
}

/// What the detector takes in of a packet, as far as a text has a view.
pub open spec fn summary_view(summary: Option<(String, u16, String, u8)>) -> Option<
    (Seq<char>, u16, Seq<char>, u8),
> {
    match summary {
        Some((ip, port, protocol, flags)) => Some((ip@, port, protocol@, flags)),
        None => None,
    }
}

/// Destination port and flags of a transport layer; zero for both where it
/// is neither TCP nor UDP.
pub open spec fn port_and_flags(transport: TransportLayer) -> (u16, u8) {
    match transport {
        TransportLayer::Tcp { destination_port, flags } => (destination_port, flags_byte(flags)),
        TransportLayer::Udp { destination_port } => (destination_port, 0),
        TransportLayer::Other => (0, 0),
    }
}

/// What the detector takes in of a packet with the given headers: none
/// without an IP header, for a protocol other than TCP, UDP and ICMP, and
/// for an IPv4 packet from the engine's own address.
pub open spec fn packet_summary(headers: Headers) -> Option<(Seq<char>, u16, Seq<char>, u8)> {
    let (port, flags) = port_and_flags(headers.transport);
    match headers.net {
        NetLayer::Ipv4 { source, protocol } => {
            if protocol_name_spec(protocol).is_none() || dotted_quad(source@) == SELF_IP_FILTER@ {
                None
            } else {
                Some((dotted_quad(source@), port, protocol_name_spec(protocol).unwrap(), flags))
            }
        },
        NetLayer::Ipv6 { source, next_header } => {
            if protocol_name_spec(next_header).is_none() {
                None
            } else {
                Some((ipv6_text(source@), port, protocol_name_spec(next_header).unwrap(), flags))
            }
        },
        NetLayer::Other => None,
    }
}

/// What the detector takes in of a frame: the summary of the headers that
/// the frame decodes to.
pub open spec fn parsed(frame: Seq<u8>) -> Option<(Seq<char>, u16, Seq<char>, u8)> {
    match decoded_headers(frame) {
        Some(headers) => packet_summary(headers),
        None => None,
    }
}

/// Source address, destination port, protocol name and flags of a packet
/// with the given headers.
pub fn summarize_headers(headers: &Headers) -> (summary: Option<(String, u16, String, u8)>)
    ensures
        summary_view(summary) == packet_summary(*headers),
{
    let (source_ip, number) = match &headers.net {
        NetLayer::Ipv4 { source, protocol } => {
            let text = format_ipv4(source);
            if same_text(text.as_str(), SELF_IP_FILTER) {
                return None;
            }
            (text, *protocol)
        },
        NetLayer::Ipv6 { source, next_header } => (format_ipv6(source), *next_header),
        NetLayer::Other => {
            return None;
        },
    };
    let protocol = match protocol_name(number) {
        Some(name) => name.to_owned(),
        None => {
            return None;
        },
    };
    let (dest_port, flags) = match &headers.transport {
        TransportLayer::Tcp { destination_port, flags } => (*destination_port, compose_flags(flags)),
        TransportLayer::Udp { destination_port } => (*destination_port, 0u8),
        TransportLayer::Other => (0u16, 0u8),
    };
    Some((source_ip, dest_port, protocol, flags))
}

/// Source address, destination port, protocol name and flags of a captured
/// Ethernet frame; none for a frame that is not taken in.
pub fn parse_packet(frame: &[u8]) -> (summary: Option<(String, u16, String, u8)>)
    ensures
        summary_view(summary) == parsed(frame@),
{
    match decode_ethernet(frame) {
        Some(headers) => summarize_headers(&headers),
        None => None,
    }
}

} // verus!
