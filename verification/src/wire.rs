//! Header fields of Ethernet, IPv4, TCP and UDP as plain values.
//!
//! The bytes are taken apart by the `pnet` packet types. What they hand out
//! is stated here over the bytes themselves, offset by offset, so that the
//! rest of the library can reason about frames without seeing `pnet`.

use pnet::packet::ethernet::EthernetPacket;
use pnet::packet::ipv4::Ipv4Packet;
use pnet::packet::tcp::TcpPacket;
use pnet::packet::udp::UdpPacket;
use pnet::packet::Packet;
use vstd::prelude::*;

verus! {

/// Bytes in an Ethernet header.
pub const ETHERNET_HEADER_LEN: usize = 14;

/// Bytes in an IPv4 header without options.
pub const IPV4_HEADER_LEN: usize = 20;

/// Bytes in a TCP header without options.
pub const TCP_HEADER_LEN: usize = 20;

/// Bytes in a UDP header.
pub const UDP_HEADER_LEN: usize = 8;

/// The EtherType of IPv4.
pub const ETHERTYPE_IPV4: u16 = 0x0800;

/// The number read from two bytes, most significant first.
pub open spec fn be16(hi: u8, lo: u8) -> u16 {
    (hi as int * 256 + lo as int) as u16
}

/// The number read from four bytes, most significant first.
pub open spec fn be32(b0: u8, b1: u8, b2: u8, b3: u8) -> u32 {
    (b0 as int * 16777216 + b1 as int * 65536 + b2 as int * 256 + b3 as int) as u32
}

/// An Ethernet frame: the type of what it carries, and what it carries.
struct EthernetFrame {
    ethertype: u16,
    payload: Vec<u8>,
}

/// An IPv4 packet: the header fields that a record is made of, and the
/// payload that the header announces.
#[derive(Clone, Debug, PartialEq, Eq)]
pub struct Ipv4Datagram {
    /// Bytes in the whole packet, header included.
    pub length: usize,
    pub identification: u16,
    pub ttl: u8,
    /// The number of the protocol that the payload belongs to.
    pub protocol: u8,
    pub source: [u8; 4],
    pub destination: [u8; 4],
    pub payload: Vec<u8>,
}

/// What an [`Ipv4Datagram`] holds.
pub struct Ipv4DatagramView {
    pub length: nat,
    pub identification: u16,
    pub ttl: u8,
    pub protocol: u8,
    pub source: Seq<u8>,
    pub destination: Seq<u8>,
    pub payload: Seq<u8>,
}

impl View for Ipv4Datagram {
    type V = Ipv4DatagramView;

    open spec fn view(&self) -> Ipv4DatagramView {
        Ipv4DatagramView {
            length: self.length as nat,
            identification: self.identification,
            ttl: self.ttl,
            protocol: self.protocol,
            source: self.source@,
            destination: self.destination@,
            payload: self.payload@,
        }
    }
}

/// The fields at the start of a TCP header.
#[derive(Clone, Copy, Debug, PartialEq, Eq)]
pub struct TcpHeader {
    pub source: u16,
    pub destination: u16,
    pub sequence: u32,
    /// The flags octet: FIN is bit 0, SYN bit 1, RST bit 2, ACK bit 4.
    pub flags: u8,
}

/// The ports of a UDP header.
#[derive(Clone, Copy, Debug, PartialEq, Eq)]
pub struct UdpHeader {
    pub source: u16,
    pub destination: u16,
}

/// The header length that an IPv4 packet declares, in bytes: four times the
/// low half of its first byte.
pub open spec fn ipv4_declared_header_len(bytes: Seq<u8>) -> int {
    4 * (bytes[0] as int % 16)
}

/// Where the payload of an IPv4 packet starts: behind the declared header,
/// and never inside the first twenty bytes.
pub open spec fn ipv4_payload_start(bytes: Seq<u8>) -> int {
    if ipv4_declared_header_len(bytes) > IPV4_HEADER_LEN as int {
        ipv4_declared_header_len(bytes)
    } else {
        IPV4_HEADER_LEN as int
    }
}

/// The payload length that an IPv4 packet declares: its total length less
/// its declared header length, and zero where that would be negative.
pub open spec fn ipv4_declared_payload_len(bytes: Seq<u8>) -> int {
    let total = be16(bytes[2], bytes[3]) as int;
    if total > ipv4_declared_header_len(bytes) {
        total - ipv4_declared_header_len(bytes)
    } else {
        0
    }
}

/// Where the payload of an IPv4 packet ends: where the header says, or
/// where the bytes end if that comes first.
pub open spec fn ipv4_payload_end(bytes: Seq<u8>) -> int {
    let declared = ipv4_payload_start(bytes) + ipv4_declared_payload_len(bytes);
    if declared < bytes.len() {
        declared
    } else {
        bytes.len() as int
    }
}

/// The payload of an IPv4 packet. It is empty where the bytes end at or
/// before the start of the payload.
pub open spec fn ipv4_payload(bytes: Seq<u8>) -> Seq<u8> {
    if bytes.len() <= ipv4_payload_start(bytes) {
        Seq::empty()
    } else {
        bytes.subrange(ipv4_payload_start(bytes), ipv4_payload_end(bytes))
    }
}

/// The IPv4 packet that at least twenty bytes stand for.
pub open spec fn ipv4_datagram(bytes: Seq<u8>) -> Ipv4DatagramView
    recommends
        bytes.len() >= IPV4_HEADER_LEN,
{
    Ipv4DatagramView {
        length: bytes.len(),
        identification: be16(bytes[4], bytes[5]),
        ttl: bytes[8],
        protocol: bytes[9],
        source: bytes.subrange(12, 16),
        destination: bytes.subrange(16, 20),
        payload: ipv4_payload(bytes),
    }
}

/// The TCP header that at least twenty bytes start with.
pub open spec fn tcp_header(bytes: Seq<u8>) -> TcpHeader
    recommends
        bytes.len() >= TCP_HEADER_LEN,
{
    TcpHeader {
        source: be16(bytes[0], bytes[1]),
        destination: be16(bytes[2], bytes[3]),
        sequence: be32(bytes[4], bytes[5], bytes[6], bytes[7]),
        flags: bytes[13],
    }
}

/// The UDP header that at least eight bytes start with.
pub open spec fn udp_header(bytes: Seq<u8>) -> UdpHeader
    recommends
        bytes.len() >= UDP_HEADER_LEN,
{
    UdpHeader { source: be16(bytes[0], bytes[1]), destination: be16(bytes[2], bytes[3]) }
}

/// Reads an Ethernet frame with `pnet`'s `EthernetPacket`: `new`,
/// `get_ethertype` and `payload`.
///
/// Believed of `pnet`, not proved: `new` accepts exactly the buffers of at
/// least fourteen bytes; the EtherType is the big-endian number in bytes 12
/// and 13; the payload is everything behind byte 13.
#[verifier::external_body]
fn read_ethernet(frame: &[u8]) -> (r: Option<EthernetFrame>)
    ensures
        r is Some <==> frame@.len() >= ETHERNET_HEADER_LEN,
        r matches Some(f) ==> f.ethertype == be16(frame@[12], frame@[13]) && f.payload@
            == frame@.skip(ETHERNET_HEADER_LEN as int),
{
    match EthernetPacket::new(frame) {
        Some(p) => Some(
            EthernetFrame { ethertype: p.get_ethertype().0, payload: p.payload().to_vec() },
        ),
        None => None,
    }
}

/// Reads an IPv4 packet with `pnet`'s `Ipv4Packet`: `new`, the getters of
/// the fields below, `packet` and `payload`.
///
/// Believed of `pnet`, not proved: `new` accepts exactly the buffers of at
/// least twenty bytes; the identification is the big-endian number in bytes
/// 4 and 5, the time to live byte 8, the protocol number byte 9, the source
/// bytes 12 to 15 and the destination bytes 16 to 19; `packet` is the whole
/// buffer; `payload` is the part of the buffer that [`ipv4_payload`]
/// describes.
#[verifier::external_body]
fn read_ipv4(bytes: &[u8]) -> (r: Option<Ipv4Datagram>)
    ensures
        r is Some <==> bytes@.len() >= IPV4_HEADER_LEN,
        r matches Some(d) ==> d@ == ipv4_datagram(bytes@),
{
    match Ipv4Packet::new(bytes) {
        Some(p) => Some(
            Ipv4Datagram {
                length: p.packet().len(),
                identification: p.get_identification(),
                ttl: p.get_ttl(),
                protocol: p.get_next_level_protocol().0,
                source: p.get_source().octets(),
                destination: p.get_destination().octets(),
                payload: p.payload().to_vec(),
            },
        ),
        None => None,
    }
}

/// Reads the start of a TCP header with `pnet`'s `TcpPacket`: `new`,
/// `get_source`, `get_destination`, `get_sequence` and `get_flags`.
///
/// Believed of `pnet`, not proved: `new` accepts exactly the buffers of at
/// least twenty bytes; the ports are the big-endian numbers in bytes 0 and 1
/// and in bytes 2 and 3, the sequence number the one in bytes 4 to 7, and
/// the flags are byte 13.
#[verifier::external_body]
fn read_tcp(bytes: &[u8]) -> (r: Option<TcpHeader>)
    ensures
        r is Some <==> bytes@.len() >= TCP_HEADER_LEN,
        r matches Some(h) ==> h == tcp_header(bytes@),
{
    match TcpPacket::new(bytes) {
        Some(p) => Some(
            TcpHeader {
                source: p.get_source(),
                destination: p.get_destination(),
                sequence: p.get_sequence(),
                flags: p.get_flags(),
            },
        ),
        None => None,
    }
}

/// Reads the ports of a UDP header with `pnet`'s `UdpPacket`: `new`,
/// `get_source` and `get_destination`.
///
/// Believed of `pnet`, not proved: `new` accepts exactly the buffers of at
/// least eight bytes; the ports are the big-endian numbers in bytes 0 and 1
/// and in bytes 2 and 3.
#[verifier::external_body]
fn read_udp(bytes: &[u8]) -> (r: Option<UdpHeader>)
    ensures
        r is Some <==> bytes@.len() >= UDP_HEADER_LEN,
        r matches Some(h) ==> h == udp_header(bytes@),
{
    match UdpPacket::new(bytes) {
        Some(p) => Some(UdpHeader { source: p.get_source(), destination: p.get_destination() }),
        None => None,
    }
}

impl Ipv4Datagram {
    /// Reads an IPv4 packet from `bytes`. Fewer than twenty bytes are no
    /// IPv4 packet; anything longer is read, whatever it holds.
    pub fn parse(bytes: &[u8]) -> (r: Option<Ipv4Datagram>)
        ensures
            match r {
                Some(d) => bytes@.len() >= IPV4_HEADER_LEN && d@ == ipv4_datagram(bytes@),
                None => bytes@.len() < IPV4_HEADER_LEN,
            },
    {
        read_ipv4(bytes)
    }

    /// The TCP header at the start of the payload, if the payload is long
    /// enough to hold one.
    pub fn tcp(&self) -> (r: Option<TcpHeader>)
        ensures
            r == if self.payload@.len() >= TCP_HEADER_LEN {
                Some(tcp_header(self.payload@))
            } else {
                None
            },
    {
        read_tcp(self.payload.as_slice())
    }

    /// The UDP header at the start of the payload, if the payload is long
    /// enough to hold one.
    pub fn udp(&self) -> (r: Option<UdpHeader>)
        ensures
            r == if self.payload@.len() >= UDP_HEADER_LEN {
                Some(udp_header(self.payload@))
            } else {
                None
            },
    {
        read_udp(self.payload.as_slice())
    }
}

/// Whether `frame` is an Ethernet frame that carries an IPv4 packet: long
/// enough for an Ethernet header, marked as IPv4, and with at least a whole
/// IPv4 header behind the Ethernet header.
pub open spec fn carries_ipv4(frame: Seq<u8>) -> bool {
    &&& frame.len() >= ETHERNET_HEADER_LEN + IPV4_HEADER_LEN
    &&& be16(frame[12], frame[13]) == ETHERTYPE_IPV4
}

/// The IPv4 packet inside an Ethernet frame. Frames that carry anything
/// else, or too little, give `None`.
pub fn ipv4_in_frame(frame: &[u8]) -> (r: Option<Ipv4Datagram>)
    ensures
        match r {
            Some(d) => carries_ipv4(frame@) && d@ == ipv4_datagram(
                frame@.skip(ETHERNET_HEADER_LEN as int),
            ),
            None => !carries_ipv4(frame@),
        },
{
    match read_ethernet(frame) {
        Some(ethernet) => {
            if ethernet.ethertype == ETHERTYPE_IPV4 {
                Ipv4Datagram::parse(ethernet.payload.as_slice())
            } else {
                None
            }
        },
        None => None,
    }
}

/// In a packet whose header declares no options and a total length equal to
/// the number of bytes, the payload is everything behind the twenty bytes of
/// the header.
pub proof fn lemma_plain_packet_payload(bytes: Seq<u8>)
    requires
        bytes.len() >= IPV4_HEADER_LEN,
        bytes[0] % 16 == 5,
        be16(bytes[2], bytes[3]) == bytes.len(),
    ensures
        ipv4_payload(bytes) == bytes.skip(IPV4_HEADER_LEN as int),
{
    if bytes.len() > IPV4_HEADER_LEN {
        assert(ipv4_payload(bytes) =~= bytes.skip(IPV4_HEADER_LEN as int));
    } else {
        assert(ipv4_payload(bytes) =~= bytes.skip(IPV4_HEADER_LEN as int));
    }
}

/// The payload of a packet is a run of its bytes that starts at or behind
/// byte twenty: it is never longer than what follows the header.
pub proof fn lemma_payload_within_packet(bytes: Seq<u8>)
    requires
        bytes.len() >= IPV4_HEADER_LEN,
    ensures
        ipv4_payload(bytes).len() + IPV4_HEADER_LEN <= bytes.len(),
        forall|i: int|
            0 <= i < ipv4_payload(bytes).len() ==> #[trigger] ipv4_payload(bytes)[i]
                == bytes[ipv4_payload_start(bytes) + i],
{
}

} // verus!
