//! Packet records: what is reported of one captured IPv4 packet.

use crate::text::{
    bool_text, decimal_string, decimal_text, dotted_quad, dotted_quad_text, push_bool,
    push_decimal,
};
use crate::wire::{
    be16, be32, ipv4_datagram, ipv4_payload, Ipv4Datagram, Ipv4DatagramView, IPV4_HEADER_LEN,
    TCP_HEADER_LEN, UDP_HEADER_LEN,
};
use std::time::{SystemTime, UNIX_EPOCH};
use vstd::prelude::*;
use vstd::string::*;

verus! {

/// The IPv4 protocol number of ICMP.
pub const IP_PROTOCOL_ICMP: u8 = 1;

/// The IPv4 protocol number of TCP.
pub const IP_PROTOCOL_TCP: u8 = 6;

/// The IPv4 protocol number of UDP.
pub const IP_PROTOCOL_UDP: u8 = 17;

/// The protocol that a packet record names.
#[derive(Clone, Copy, Debug, PartialEq, Eq, Structural)]
pub enum Protocol {
    Tcp,
    Udp,
    Icmp,
    /// TCP or UDP by number, with too little payload for the header.
    Unknown,
    /// Any other protocol, by its number.
    Other(u8),
}

/// The four TCP flags that a packet record reports.
#[derive(Clone, Copy, Debug, PartialEq, Eq, Structural)]
pub struct TcpFlags {
    pub syn: bool,
    pub ack: bool,
    pub fin: bool,
    pub rst: bool,
}

/// The record of one captured IPv4 packet.
#[derive(Clone, Debug, PartialEq, Eq)]
pub struct PacketInfo {
    /// Seconds since the Unix epoch at which the record was made, in decimal.
    pub timestamp: String,
    /// Bytes in the IPv4 packet, header included.
    pub length: usize,
    pub protocol: Protocol,
    /// The source address in dotted-quad form.
    pub source: String,
    /// The destination address in dotted-quad form.
    pub destination: String,
    pub source_port: Option<u16>,
    pub dest_port: Option<u16>,
    pub flags: Option<TcpFlags>,
    pub sequence: Option<u32>,
    pub ttl: u8,
    pub identification: u16,
}

/// What a [`PacketInfo`] holds.
pub struct PacketInfoView {
    pub timestamp: Seq<char>,
    pub length: nat,
    pub protocol: Protocol,
    pub source: Seq<char>,
    pub destination: Seq<char>,
    pub source_port: Option<u16>,
    pub dest_port: Option<u16>,
    pub flags: Option<TcpFlags>,
    pub sequence: Option<u32>,
    pub ttl: u8,
    pub identification: u16,
}

impl View for PacketInfo {
    type V = PacketInfoView;

    open spec fn view(&self) -> PacketInfoView {
        PacketInfoView {
            timestamp: self.timestamp@,
            length: self.length as nat,
            protocol: self.protocol,
            source: self.source@,
            destination: self.destination@,
            source_port: self.source_port,
            dest_port: self.dest_port,
            flags: self.flags,
            sequence: self.sequence,
            ttl: self.ttl,
            identification: self.identification,
        }
    }
}

/// The flags that a TCP flags octet sets: FIN is bit 0, SYN bit 1, RST
/// bit 2 and ACK bit 4.
pub open spec fn tcp_flags(octet: u8) -> TcpFlags {
    TcpFlags {
        syn: octet & 0b0000_0010 != 0,
        ack: octet & 0b0001_0000 != 0,
        fin: octet & 0b0000_0001 != 0,
        rst: octet & 0b0000_0100 != 0,
    }
}

/// Whether the packet is TCP by number and holds a whole TCP header.
pub open spec fn holds_tcp(ip: Ipv4DatagramView) -> bool {
    ip.protocol == IP_PROTOCOL_TCP && ip.payload.len() >= TCP_HEADER_LEN
}

/// Whether the packet is UDP by number and holds a whole UDP header.
pub open spec fn holds_udp(ip: Ipv4DatagramView) -> bool {
    ip.protocol == IP_PROTOCOL_UDP && ip.payload.len() >= UDP_HEADER_LEN
}

/// The protocol that the record of a packet names.
pub open spec fn record_protocol(ip: Ipv4DatagramView) -> Protocol {
    if ip.protocol == IP_PROTOCOL_TCP {
        if holds_tcp(ip) {
            Protocol::Tcp
        } else {
            Protocol::Unknown
        }
    } else if ip.protocol == IP_PROTOCOL_UDP {
        if holds_udp(ip) {
            Protocol::Udp
        } else {
            Protocol::Unknown
        }
    } else if ip.protocol == IP_PROTOCOL_ICMP {
        Protocol::Icmp
    } else {
        Protocol::Other(ip.protocol)
    }
}

/// The record of the packet `ip`, made at `seconds` since the Unix epoch.
///
/// Ports are reported of TCP and UDP packets that hold a whole header of
/// their kind, flags and sequence number of such TCP packets, and nothing of
/// the transport otherwise.
pub open spec fn packet_record(ip: Ipv4DatagramView, seconds: u64) -> PacketInfoView {
    PacketInfoView {
        timestamp: decimal_text(seconds as nat),
        length: ip.length,
        protocol: record_protocol(ip),
        source: dotted_quad_text(ip.source),
        destination: dotted_quad_text(ip.destination),
        source_port: if holds_tcp(ip) || holds_udp(ip) {
            Some(be16(ip.payload[0], ip.payload[1]))
        } else {
            None
        },
        dest_port: if holds_tcp(ip) || holds_udp(ip) {
            Some(be16(ip.payload[2], ip.payload[3]))
        } else {
            None
        },
        flags: if holds_tcp(ip) {
            Some(tcp_flags(ip.payload[13]))
        } else {
            None
        },
        sequence: if holds_tcp(ip) {
            Some(be32(ip.payload[4], ip.payload[5], ip.payload[6], ip.payload[7]))
        } else {
            None
        },
        ttl: ip.ttl,
        identification: ip.identification,
    }
}

/// The name of a protocol that is known by its number alone: `Other(n)`,
/// with the number in decimal.
pub open spec fn numbered_label(number: u8) -> Seq<char> {
    "Other("@ + decimal_text(number as nat) + ")"@
}

/// The name of a protocol: `TCP`, `UDP`, `ICMP`, `Unknown`, or `Other(n)`
/// with the protocol number in decimal.
pub open spec fn protocol_label(protocol: Protocol) -> Seq<char> {
    match protocol {
        Protocol::Tcp => "TCP"@,
        Protocol::Udp => "UDP"@,
        Protocol::Icmp => "ICMP"@,
        Protocol::Unknown => "Unknown"@,
        Protocol::Other(number) => numbered_label(number),
    }
}

/// The one-line summary of TCP flags: `SYN:b ACK:b FIN:b RST:b`, each `b`
/// being `true` or `false`.
pub open spec fn flags_summary(flags: TcpFlags) -> Seq<char> {
    "SYN:"@ + bool_text(flags.syn) + " ACK:"@ + bool_text(flags.ack) + " FIN:"@ + bool_text(
        flags.fin,
    ) + " RST:"@ + bool_text(flags.rst)
}

impl Protocol {
    /// The name of the protocol as text.
    pub fn label(&self) -> (s: String)
        ensures
            s@ == protocol_label(*self),
    {
        match self {
            Protocol::Tcp => String::from_str("TCP"),
            Protocol::Udp => String::from_str("UDP"),
            Protocol::Icmp => String::from_str("ICMP"),
            Protocol::Unknown => String::from_str("Unknown"),
            Protocol::Other(number) => numbered_label_string(*number),
        }
    }
}

fn numbered_label_string(number: u8) -> (s: String)
    ensures
        s@ == numbered_label(number),
{
    let mut s = String::from_str("Other(");
    push_decimal(&mut s, number as u64);
    s.append(")");
    s
}

impl TcpFlags {
    /// The flags that the flags octet of a TCP header sets.
    pub fn from_octet(octet: u8) -> (flags: TcpFlags)
        ensures
            flags == tcp_flags(octet),
    {
        TcpFlags {
            syn: octet & 0b0000_0010 != 0,
            ack: octet & 0b0001_0000 != 0,
            fin: octet & 0b0000_0001 != 0,
            rst: octet & 0b0000_0100 != 0,
        }
    }

    /// The flags in one line of text.
    pub fn summary(&self) -> (s: String)
        ensures
            s@ == flags_summary(*self),
    {
        let mut s = String::from_str("SYN:");
        push_bool(&mut s, self.syn);
        s.append(" ACK:");
        push_bool(&mut s, self.ack);
        s.append(" FIN:");
        push_bool(&mut s, self.fin);
        s.append(" RST:");
        push_bool(&mut s, self.rst);
        s
    }
}

/// Makes the record of the packet `ip`, stamped with `seconds` since the
/// Unix epoch. Every packet has a record: a transport header that is cut
/// short leaves the transport fields unset.
pub fn decode_at(ip: &Ipv4Datagram, seconds: u64) -> (record: PacketInfo)
    ensures
        record@ == packet_record(ip@, seconds),
{
    let mut protocol = Protocol::Unknown;
    let mut source_port: Option<u16> = None;
    let mut dest_port: Option<u16> = None;
    let mut flags: Option<TcpFlags> = None;
    let mut sequence: Option<u32> = None;
    if ip.protocol == IP_PROTOCOL_TCP {
        if let Some(tcp) = ip.tcp() {
            protocol = Protocol::Tcp;
            source_port = Some(tcp.source);
            dest_port = Some(tcp.destination);
            flags = Some(TcpFlags::from_octet(tcp.flags));
            sequence = Some(tcp.sequence);
        }
    } else if ip.protocol == IP_PROTOCOL_UDP {
        if let Some(udp) = ip.udp() {
            protocol = Protocol::Udp;
            source_port = Some(udp.source);
            dest_port = Some(udp.destination);
        }
    } else if ip.protocol == IP_PROTOCOL_ICMP {
        protocol = Protocol::Icmp;
    } else {
        protocol = Protocol::Other(ip.protocol);
    }
    PacketInfo {
        timestamp: decimal_string(seconds),
        length: ip.length,
        protocol,
        source: dotted_quad(&ip.source),
        destination: dotted_quad(&ip.destination),
        source_port,
        dest_port,
        flags,
        sequence,
        ttl: ip.ttl,
        identification: ip.identification,
    }
}

/// Reads the wall clock with `SystemTime::now` and `duration_since`: whole
/// seconds since the Unix epoch, or `None` where the clock stands before it.
/// Nothing is claimed of the value.
#[verifier::external_body]
fn clock_seconds() -> Option<u64> {
    match SystemTime::now().duration_since(UNIX_EPOCH) {
        Ok(elapsed) => Some(elapsed.as_secs()),
        Err(_) => None,
    }
}

/// Whole seconds since the Unix epoch at the time of the call, and zero where
/// the clock cannot be read. The clock may show any number, so nothing is
/// promised of the result; what becomes of a reading is [`seconds_or_zero`].
pub(crate) fn current_seconds() -> u64 {
    seconds_or_zero(clock_seconds())
}

/// The stamp that a reading of the clock gives: the seconds that were read,
/// and zero where the clock could not be read.
pub open spec fn stamp_of(reading: Option<u64>) -> u64 {
    match reading {
        Some(seconds) => seconds,
        None => 0,
    }
}

/// Turns a reading of the clock into a stamp. A clock that could not be read
/// stamps with the epoch itself, zero; it is no error.
pub fn seconds_or_zero(reading: Option<u64>) -> (seconds: u64)
    ensures
        seconds == stamp_of(reading),
{
    match reading {
        Some(seconds) => seconds,
        None => 0,
    }
}

/// Makes the record of the packet `ip`, stamped with the time of the call.
/// A clock that cannot be read stamps the record with zero.
pub fn analyze_packet(ip: &Ipv4Datagram) -> (record: PacketInfo)
    ensures
        exists|seconds: u64| record@ == #[trigger] packet_record(ip@, seconds),
{
    decode_at(ip, current_seconds())
}

/// Each reported flag is one bit of the flags octet: FIN the lowest, SYN the
/// next, RST the third, and ACK the fifth.
pub proof fn lemma_flag_bits(octet: u8)
    ensures
        tcp_flags(octet).fin == (octet % 2 == 1),
        tcp_flags(octet).syn == ((octet / 2) % 2 == 1),
        tcp_flags(octet).rst == ((octet / 4) % 2 == 1),
        tcp_flags(octet).ack == ((octet / 16) % 2 == 1),
{
    assert((octet & 0b0000_0001 != 0) == (octet % 2 == 1)) by (bit_vector);
    assert((octet & 0b0000_0010 != 0) == ((octet / 2) % 2 == 1)) by (bit_vector);
    assert((octet & 0b0000_0100 != 0) == ((octet / 4) % 2 == 1)) by (bit_vector);
    assert((octet & 0b0001_0000 != 0) == ((octet / 16) % 2 == 1)) by (bit_vector);
}

/// Every IPv4 packet that is TCP by number and holds a whole TCP header is
/// recorded as TCP, with the ports, the sequence number and the flags of
/// that header, each flag as its bit of the flags octet says.
pub proof fn lemma_tcp_record(bytes: Seq<u8>, seconds: u64)
    requires
        bytes.len() >= IPV4_HEADER_LEN,
        bytes[9] == IP_PROTOCOL_TCP,
        ipv4_payload(bytes).len() >= TCP_HEADER_LEN,
    ensures
        ({
            let record = packet_record(ipv4_datagram(bytes), seconds);
            let tcp = ipv4_payload(bytes);
            &&& record.protocol == Protocol::Tcp
            &&& record.source_port == Some(be16(tcp[0], tcp[1]))
            &&& record.dest_port == Some(be16(tcp[2], tcp[3]))
            &&& record.sequence == Some(be32(tcp[4], tcp[5], tcp[6], tcp[7]))
            &&& record.flags == Some(
                TcpFlags {
                    syn: (tcp[13] / 2) % 2 == 1,
                    ack: (tcp[13] / 16) % 2 == 1,
                    fin: tcp[13] % 2 == 1,
                    rst: (tcp[13] / 4) % 2 == 1,
                },
            )
        }),
{
    lemma_flag_bits(ipv4_payload(bytes)[13]);
}

/// Every IPv4 packet that is UDP by number and holds a whole UDP header is
/// recorded as UDP, with the ports of that header and neither flags nor a
/// sequence number.
pub proof fn lemma_udp_record(bytes: Seq<u8>, seconds: u64)
    requires
        bytes.len() >= IPV4_HEADER_LEN,
        bytes[9] == IP_PROTOCOL_UDP,
        ipv4_payload(bytes).len() >= UDP_HEADER_LEN,
    ensures
        ({
            let record = packet_record(ipv4_datagram(bytes), seconds);
            let udp = ipv4_payload(bytes);
            &&& record.protocol == Protocol::Udp
            &&& record.source_port == Some(be16(udp[0], udp[1]))
            &&& record.dest_port == Some(be16(udp[2], udp[3]))
            &&& record.sequence is None
            &&& record.flags is None
        }),
{
}

/// Whether a record reports nothing of the transport: no port, no flags and
/// no sequence number.
pub open spec fn has_no_transport_fields(record: PacketInfoView) -> bool {
    &&& record.source_port is None
    &&& record.dest_port is None
    &&& record.flags is None
    &&& record.sequence is None
}

/// Every ICMP packet is recorded as ICMP, with nothing of the transport.
pub proof fn lemma_icmp_record(bytes: Seq<u8>, seconds: u64)
    requires
        bytes.len() >= IPV4_HEADER_LEN,
        bytes[9] == IP_PROTOCOL_ICMP,
    ensures
        packet_record(ipv4_datagram(bytes), seconds).protocol == Protocol::Icmp,
        has_no_transport_fields(packet_record(ipv4_datagram(bytes), seconds)),
{
}

/// Every packet of a protocol other than TCP, UDP and ICMP is recorded
/// under the number of its protocol, with nothing of the transport.
pub proof fn lemma_other_record(bytes: Seq<u8>, seconds: u64)
    requires
        bytes.len() >= IPV4_HEADER_LEN,
        bytes[9] != IP_PROTOCOL_TCP,
        bytes[9] != IP_PROTOCOL_UDP,
        bytes[9] != IP_PROTOCOL_ICMP,
    ensures
        packet_record(ipv4_datagram(bytes), seconds).protocol == Protocol::Other(bytes[9]),
        has_no_transport_fields(packet_record(ipv4_datagram(bytes), seconds)),
{
}

/// A TCP or UDP packet whose payload is too short for the header of its
/// kind is recorded as unknown, with nothing of the transport.
pub proof fn lemma_short_transport_record(bytes: Seq<u8>, seconds: u64)
    requires
        bytes.len() >= IPV4_HEADER_LEN,
        (bytes[9] == IP_PROTOCOL_TCP && ipv4_payload(bytes).len() < TCP_HEADER_LEN) || (bytes[9]
            == IP_PROTOCOL_UDP && ipv4_payload(bytes).len() < UDP_HEADER_LEN),
    ensures
        packet_record(ipv4_datagram(bytes), seconds).protocol == Protocol::Unknown,
        has_no_transport_fields(packet_record(ipv4_datagram(bytes), seconds)),
{
}

/// Whatever the packet holds, its record gives the length, the addresses,
/// the time to live and the identification of its IPv4 header, and the
/// time stamp in decimal.
pub proof fn lemma_record_header_fields(bytes: Seq<u8>, seconds: u64)
    requires
        bytes.len() >= IPV4_HEADER_LEN,
    ensures
        ({
            let record = packet_record(ipv4_datagram(bytes), seconds);
            &&& record.timestamp == decimal_text(seconds as nat)
            &&& record.length == bytes.len()
            &&& record.source == dotted_quad_text(bytes.subrange(12, 16))
            &&& record.destination == dotted_quad_text(bytes.subrange(16, 20))
            &&& record.ttl == bytes[8]
            &&& record.identification == be16(bytes[4], bytes[5])
        }),
{
}

} // verus!
