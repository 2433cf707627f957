//! Network-layer dissection: IPv4 and IPv6 headers at the start of a frame.
//!
//! IPv4 is always tried first. A frame matches IPv4 when its version nibble
//! is 4 and its declared header length both covers the fixed twenty bytes and
//! fits inside the buffer; it matches IPv6 when the version nibble is 6 and
//! the fixed forty-byte header fits. IPv6 extension headers are not walked:
//! the IPv6 payload always starts at byte forty. A frame matching neither is
//! classified `NoMatch`, which is not an error — the caller renders such a
//! frame as a hex dump.

use vstd::prelude::*;
use crate::endian::read_be16;
use crate::endian::spec_be16;
use crate::transport::IpFamily;

verus! {

/// A dissected IPv4 header. `header_end` is the byte offset where the header
/// ends and the transport payload starts: the declared header length in
/// 32-bit words times four.
#[derive(Clone, Debug, PartialEq, Eq)]
pub struct Ipv4Header {
    /// Source address, four bytes.
    pub source: Vec<u8>,
    /// Destination address, four bytes.
    pub destination: Vec<u8>,
    /// The protocol field: which transport protocol follows.
    pub protocol: u8,
    /// Time to live.
    pub ttl: u8,
    /// The declared total length field, not checked against the buffer.
    pub total_length: u16,
    /// Offset of the first payload byte; at most the frame length.
    pub header_end: usize,
}

/// A dissected IPv6 header. The header is fixed at forty bytes, so the
/// payload always starts at offset forty.
#[derive(Clone, Debug, PartialEq, Eq)]
pub struct Ipv6Header {
    /// Source address, sixteen bytes.
    pub source: Vec<u8>,
    /// Destination address, sixteen bytes.
    pub destination: Vec<u8>,
    /// The next-header field: which transport protocol follows.
    pub next_header: u8,
    /// Hop limit.
    pub hop_limit: u8,
    /// The declared payload length field, not checked against the buffer.
    pub payload_length: u16,
}

/// The network layer of one frame: IPv4 or IPv6.
#[derive(Clone, Debug, PartialEq, Eq)]
pub enum NetworkHeader {
    V4(Ipv4Header),
    V6(Ipv6Header),
}

/// Whether the frame starts with a well-formed IPv4 header: version nibble
/// 4, and a declared header length that covers the fixed twenty bytes and
/// fits inside the buffer.
pub open spec fn spec_ipv4_matches(f: Seq<u8>) -> bool {
    &&& f.len() >= 20
    &&& f[0] / 16 == 4
    &&& f[0] % 16 >= 5
    &&& (f[0] % 16) * 4 <= f.len()
}

/// Whether the frame starts with a well-formed IPv6 header: version nibble 6
/// and the fixed forty bytes present.
pub open spec fn spec_ipv6_matches(f: Seq<u8>) -> bool {
    &&& f.len() >= 40
    &&& f[0] / 16 == 6
}

/// `h` is exactly the IPv4 header encoded at the start of `f`.
pub open spec fn spec_ipv4_header_ok(f: Seq<u8>, h: Ipv4Header) -> bool {
    &&& spec_ipv4_matches(f)
    &&& h.source@ == f.subrange(12, 16)
    &&& h.destination@ == f.subrange(16, 20)
    &&& h.protocol == f[9]
    &&& h.ttl == f[8]
    &&& h.total_length == spec_be16(f, 2)
    &&& h.header_end == (f[0] % 16) * 4
}

/// `h` is exactly the IPv6 header encoded at the start of `f`.
pub open spec fn spec_ipv6_header_ok(f: Seq<u8>, h: Ipv6Header) -> bool {
    &&& spec_ipv6_matches(f)
    &&& h.source@ == f.subrange(8, 24)
    &&& h.destination@ == f.subrange(24, 40)
    &&& h.next_header == f[6]
    &&& h.hop_limit == f[7]
    &&& h.payload_length == spec_be16(f, 4)
}

/// `r` is the correct network-layer classification of `f`: IPv4 whenever
/// IPv4 matches, otherwise IPv6 whenever IPv6 matches, otherwise `None`.
pub open spec fn spec_network_ok(f: Seq<u8>, r: Option<NetworkHeader>) -> bool {
    match r {
        Some(NetworkHeader::V4(h)) => spec_ipv4_header_ok(f, h),
        Some(NetworkHeader::V6(h)) => !spec_ipv4_matches(f) && spec_ipv6_header_ok(f, h),
        None => !spec_ipv4_matches(f) && !spec_ipv6_matches(f),
    }
}

impl NetworkHeader {
    /// The IP family this header belongs to.
    pub open spec fn spec_family(&self) -> IpFamily {
        match self {
            NetworkHeader::V4(_) => IpFamily::V4,
            NetworkHeader::V6(_) => IpFamily::V6,
        }
    }

    /// The next-protocol number this header announces for the transport
    /// layer: IPv4's protocol field, IPv6's next-header field.
    pub open spec fn spec_protocol(&self) -> u8 {
        match self {
            NetworkHeader::V4(h) => h.protocol,
            NetworkHeader::V6(h) => h.next_header,
        }
    }

    /// The byte offset where this header ends and its payload starts.
    pub open spec fn spec_header_end(&self) -> int {
        match self {
            NetworkHeader::V4(h) => h.header_end as int,
            NetworkHeader::V6(_) => 40,
        }
    }

    /// The IP family this header belongs to.
    pub fn family(&self) -> (r: IpFamily)
        ensures
            r == self.spec_family(),
    {
        match self {
            NetworkHeader::V4(_) => IpFamily::V4,
            NetworkHeader::V6(_) => IpFamily::V6,
        }
    }

    /// The next-protocol number this header announces.
    pub fn protocol_number(&self) -> (r: u8)
        ensures
            r == self.spec_protocol(),
    {
        match self {
            NetworkHeader::V4(h) => h.protocol,
            NetworkHeader::V6(h) => h.next_header,
        }
    }

    /// The byte offset where this header ends and its payload starts.
    pub fn header_end(&self) -> (r: usize)
        ensures
            r as int == self.spec_header_end(),
    {
        match self {
            NetworkHeader::V4(h) => h.header_end,
            NetworkHeader::V6(_) => 40,
        }
    }
}

/// Copies `b[lo..hi]` into a fresh vector.
fn copy_range(b: &[u8], lo: usize, hi: usize) -> (r: Vec<u8>)
    requires
        lo <= hi <= b@.len(),
    ensures
        r@ == b@.subrange(lo as int, hi as int),
{
    let mut r: Vec<u8> = Vec::new();
    let mut i: usize = lo;
    while i < hi
        invariant
            lo <= i <= hi <= b@.len(),
            r@ == b@.subrange(lo as int, i as int),
        decreases hi - i,
    {
        r.push(b[i]);
        proof {
            assert(b@.subrange(lo as int, i + 1 as int) =~= b@.subrange(lo as int, i as int).push(
                b@[i as int],
            ));
        }
        i += 1;
    }
    r
}

/// Dissects the network layer at the start of `frame`: IPv4 first, then
/// IPv6. `None` is the `NoMatch` classification — the frame is not IP (or
/// too short for either header) and should be rendered as a hex dump.
pub fn dissect_network(frame: &[u8]) -> (r: Option<NetworkHeader>)
    ensures
        spec_network_ok(frame@, r),
{
    if frame.len() >= 20 && frame[0] / 16 == 4 {
        let ihl: u8 = frame[0] % 16;
        let header_end: usize = (ihl as usize) * 4;
        if ihl >= 5 && header_end <= frame.len() {
            return Some(
                NetworkHeader::V4(
                    Ipv4Header {
                        source: copy_range(frame, 12, 16),
                        destination: copy_range(frame, 16, 20),
                        protocol: frame[9],
                        ttl: frame[8],
                        total_length: read_be16(frame, 2),
                        header_end,
                    },
                ),
            );
        }
    }
    if frame.len() >= 40 && frame[0] / 16 == 6 {
        return Some(
            NetworkHeader::V6(
                Ipv6Header {
                    source: copy_range(frame, 8, 24),
                    destination: copy_range(frame, 24, 40),
                    next_header: frame[6],
                    hop_limit: frame[7],
                    payload_length: read_be16(frame, 4),
                },
            ),
        );
    }
    None
}

} // verus!
