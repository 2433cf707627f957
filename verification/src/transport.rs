//! Transport-layer dissection: TCP, UDP, ICMP and ICMPv6 headers.
//!
//! The dissector is handed the bytes that follow the network header together
//! with the protocol number that the network layer announced. A recognized
//! protocol whose buffer is long enough yields a parsed header; a recognized
//! protocol whose buffer falls short of the fixed minimum header size is a
//! failure of this layer alone; every other protocol number — including one
//! that only the other IP family recognizes — is classified `Unknown`, which
//! is a success.

use vstd::prelude::*;
use crate::endian::read_be16;
use crate::endian::read_be32;
use crate::endian::spec_be16;
use crate::endian::spec_be32;

verus! {

/// Which IP family the enclosing network header belongs to. ICMP is only
/// recognized under IPv4 and ICMPv6 only under IPv6.
#[derive(Clone, Copy, Debug, PartialEq, Eq, Structural)]
pub enum IpFamily {
    V4,
    V6,
}

/// A dissected transport-layer header.
#[derive(Clone, Copy, Debug, PartialEq, Eq, Structural)]
pub enum TransportHeader {
    Tcp {
        source_port: u16,
        destination_port: u16,
        sequence_number: u32,
        acknowledgment_number: u32,
        syn: bool,
        ack: bool,
        fin: bool,
        rst: bool,
        psh: bool,
        urg: bool,
    },
    Udp { source_port: u16, destination_port: u16, length: u16 },
    Icmpv4 { message_type: u8 },
    Icmpv6 { message_type: u8 },
    Unknown { protocol: u8 },
}

/// A failure of the transport layer alone: the buffer is shorter than the
/// fixed minimum header size of a recognized protocol. It never invalidates
/// the network layer's result.
#[derive(Clone, Copy, Debug, PartialEq, Eq, Structural)]
pub enum TransportError {
    TruncatedHeader,
}

/// Whether `protocol` names a transport protocol this dissector parses when
/// it follows a header of `family`: TCP and UDP under either family, ICMP
/// only under IPv4, ICMPv6 only under IPv6.
pub open spec fn spec_recognized(family: IpFamily, protocol: u8) -> bool {
    ||| protocol == 6
    ||| protocol == 17
    ||| (protocol == 1 && family == IpFamily::V4)
    ||| (protocol == 58 && family == IpFamily::V6)
}

/// The TCP header encoded at the start of `p`: ports, sequence and
/// acknowledgment numbers big-endian, and the six control bits of the flag
/// byte.
pub open spec fn spec_tcp_header(p: Seq<u8>) -> TransportHeader {
    TransportHeader::Tcp {
        source_port: spec_be16(p, 0) as u16,
        destination_port: spec_be16(p, 2) as u16,
        sequence_number: spec_be32(p, 4) as u32,
        acknowledgment_number: spec_be32(p, 8) as u32,
        fin: p[13] & 0x01 != 0,
        syn: p[13] & 0x02 != 0,
        rst: p[13] & 0x04 != 0,
        psh: p[13] & 0x08 != 0,
        ack: p[13] & 0x10 != 0,
        urg: p[13] & 0x20 != 0,
    }
}

/// The UDP header encoded at the start of `p`: ports and the declared
/// datagram length, big-endian. The length field is not checked against the
/// buffer.
pub open spec fn spec_udp_header(p: Seq<u8>) -> TransportHeader {
    TransportHeader::Udp {
        source_port: spec_be16(p, 0) as u16,
        destination_port: spec_be16(p, 2) as u16,
        length: spec_be16(p, 4) as u16,
    }
}

/// What transport dissection returns for protocol `protocol` of family
/// `family` on payload `p`: the complete classification, every case.
pub open spec fn spec_dissect_transport(family: IpFamily, protocol: u8, p: Seq<u8>) -> Result<
    TransportHeader,
    TransportError,
> {
    if protocol == 6 {
        if p.len() >= 20 {
            Ok(spec_tcp_header(p))
        } else {
            Err(TransportError::TruncatedHeader)
        }
    } else if protocol == 17 {
        if p.len() >= 8 {
            Ok(spec_udp_header(p))
        } else {
            Err(TransportError::TruncatedHeader)
        }
    } else if protocol == 1 && family == IpFamily::V4 {
        if p.len() >= 1 {
            Ok(TransportHeader::Icmpv4 { message_type: p[0] })
        } else {
            Err(TransportError::TruncatedHeader)
        }
    } else if protocol == 58 && family == IpFamily::V6 {
        if p.len() >= 1 {
            Ok(TransportHeader::Icmpv6 { message_type: p[0] })
        } else {
            Err(TransportError::TruncatedHeader)
        }
    } else {
        Ok(TransportHeader::Unknown { protocol })
    }
}

/// Dissects the transport layer at the start of `payload`, which protocol
/// number `protocol` of an IPv4 or IPv6 header (`family`) declared. Total:
/// an unrecognized protocol is classified `Unknown`, and a recognized one
/// whose fixed header does not fit is this layer's failure alone.
pub fn dissect_transport(family: IpFamily, protocol: u8, payload: &[u8]) -> (r: Result<
    TransportHeader,
    TransportError,
>)
    ensures
        r == spec_dissect_transport(family, protocol, payload@),
{
    if protocol == 6 {
        if payload.len() >= 20 {
            let flags: u8 = payload[13];
            Ok(TransportHeader::Tcp {
                source_port: read_be16(payload, 0),
                destination_port: read_be16(payload, 2),
                sequence_number: read_be32(payload, 4),
                acknowledgment_number: read_be32(payload, 8),
                fin: flags & 0x01 != 0,
                syn: flags & 0x02 != 0,
                rst: flags & 0x04 != 0,
                psh: flags & 0x08 != 0,
                ack: flags & 0x10 != 0,
                urg: flags & 0x20 != 0,
            })
        } else {
            Err(TransportError::TruncatedHeader)
        }
    } else if protocol == 17 {
        if payload.len() >= 8 {
            Ok(TransportHeader::Udp {
                source_port: read_be16(payload, 0),
                destination_port: read_be16(payload, 2),
                length: read_be16(payload, 4),
            })
        } else {
            Err(TransportError::TruncatedHeader)
        }
    } else if protocol == 1 && matches!(family, IpFamily::V4) {
        if payload.len() >= 1 {
            Ok(TransportHeader::Icmpv4 { message_type: payload[0] })
        } else {
            Err(TransportError::TruncatedHeader)
        }
    } else if protocol == 58 && matches!(family, IpFamily::V6) {
        if payload.len() >= 1 {
            Ok(TransportHeader::Icmpv6 { message_type: payload[0] })
        } else {
            Err(TransportError::TruncatedHeader)
        }
    } else {
        Ok(TransportHeader::Unknown { protocol })
    }
}

/// An unrecognized protocol number is always classified `Unknown` with that
/// same number carried for display, whatever the payload holds — never a
/// failure.
pub proof fn lemma_unrecognized_is_unknown(family: IpFamily, protocol: u8, p: Seq<u8>)
    requires
        !spec_recognized(family, protocol),
    ensures
        spec_dissect_transport(family, protocol, p) == Ok::<TransportHeader, TransportError>(
            TransportHeader::Unknown { protocol },
        ),
{
}

} // verus!
