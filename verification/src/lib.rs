//! Layered dissection of raw network frames.
//!
//! The library takes one frame as an opaque byte buffer and classifies it
//! layer by layer: an IPv4 or IPv6 network header first, then the transport
//! header (TCP, UDP, ICMP, ICMPv6) that the network layer announces. A frame
//! that matches neither IP family is kept verbatim for rendering as a
//! fixed-width hex/ASCII table. Every step is a total function over bytes:
//! nothing here performs I/O.

mod cli;
mod endian;
mod hexdump;
mod network;
mod report;
mod transport;

pub use cli::Cli;
pub use cli::Commands;

pub use endian::read_be16;
pub use endian::read_be32;
pub use endian::spec_be16;
pub use endian::spec_be32;

pub use hexdump::hex_dump;
pub use hexdump::spec_hex_line;
pub use hexdump::spec_hex_lines;
pub use hexdump::spec_line_count;

pub use network::Ipv4Header;
pub use network::Ipv6Header;
pub use network::NetworkHeader;
pub use network::dissect_network;
pub use network::spec_ipv4_header_ok;
pub use network::spec_ipv4_matches;
pub use network::spec_ipv6_header_ok;
pub use network::spec_ipv6_matches;
pub use network::spec_network_ok;

pub use report::DissectionReport;
pub use report::dissect;
pub use report::lemma_header_end_in_frame;
pub use report::lemma_ip_frame_resolves;
pub use report::lemma_short_frame_dumps_hex;
pub use report::spec_report_ok;

pub use transport::IpFamily;
pub use transport::TransportError;
pub use transport::TransportHeader;
pub use transport::dissect_transport;
pub use transport::lemma_unrecognized_is_unknown;
pub use transport::spec_dissect_transport;
pub use transport::spec_recognized;
pub use transport::spec_tcp_header;
pub use transport::spec_udp_header;
