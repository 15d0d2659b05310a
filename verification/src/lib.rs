//! Live packet capture, decoded: the header fields of Ethernet-framed IPv4
//! traffic (TCP, UDP, ICMP), the description of network interfaces, and the
//! life cycle of one capture session.
//!
//! Everything here works on plain values. Reading frames from an interface
//! and delivering records to a consumer is left to the caller, who feeds the
//! session with events and carries out the actions it answers with.

pub mod controller;
pub mod interface;
pub mod packet;
pub mod session;
pub mod text;
pub mod wire;

pub use controller::CaptureController;
pub use interface::{list_interfaces, InterfaceInfo, LinkAddress, LinkInterface};
pub use packet::{analyze_packet, decode_at, PacketInfo, Protocol, TcpFlags};
pub use session::{
    select_interface, CaptureAction, CaptureError, CaptureEvent, CaptureSession, CaptureStatus,
    SessionState,
};
pub use wire::{ipv4_in_frame, Ipv4Datagram};
