//! The dissection entry point and the report it produces.
//!
//! `dissect` is total: every byte buffer, the empty one included, yields a
//! report and nothing ever panics. A frame whose start matches IPv4 or IPv6
//! carries a network header and whatever the transport layer made of the
//! bytes after it; a transport failure is recorded in the report and never
//! undoes the network layer's success. A frame matching neither family keeps
//! its bytes verbatim for hex/ASCII rendering.

use vstd::prelude::*;
use crate::hexdump::hex_dump;
use crate::hexdump::spec_hex_lines;
use crate::network::NetworkHeader;
use crate::network::dissect_network;
use crate::network::spec_ipv4_matches;
use crate::network::spec_ipv6_matches;
use crate::network::spec_network_ok;
use crate::transport::TransportError;
use crate::transport::TransportHeader;
use crate::transport::dissect_transport;
use crate::transport::spec_dissect_transport;

verus! {

/// What dissecting one frame produced: the layers that resolved, or the raw
/// bytes when no network layer matched.
#[derive(Debug, PartialEq, Eq)]
pub enum DissectionReport {
    /// The frame is IP. The transport field carries the parsed header, or
    /// this layer's failure alone — the network header stays valid either
    /// way.
    Ip { network: NetworkHeader, transport: Result<TransportHeader, TransportError> },
    /// The frame is not IP; its bytes are kept unmodified for hex rendering.
    NotIp { raw: Vec<u8> },
}

/// `r` is the correct report for frame `f`: the network layer classified as
/// `spec_network_ok` says, the transport layer dissected from the network
/// header's own family, protocol number and payload offset, and a frame
/// matching neither family kept byte for byte.
pub open spec fn spec_report_ok(f: Seq<u8>, r: DissectionReport) -> bool {
    match r {
        DissectionReport::Ip { network, transport } => {
            &&& spec_network_ok(f, Some(network))
            &&& transport == spec_dissect_transport(
                network.spec_family(),
                network.spec_protocol(),
                f.skip(network.spec_header_end()),
            )
        },
        DissectionReport::NotIp { raw } => {
            &&& raw@ == f
            &&& !spec_ipv4_matches(f)
            &&& !spec_ipv6_matches(f)
        },
    }
}

/// Dissects one frame, layer by layer: the network layer first, then — only
/// when a network header resolved — the transport layer on the bytes after
/// it. Total over every buffer; never panics.
pub fn dissect(frame: &[u8]) -> (r: DissectionReport)
    ensures
        spec_report_ok(frame@, r),
{
    match dissect_network(frame) {
        Some(network) => {
            let family = network.family();
            let protocol = network.protocol_number();
            let header_end = network.header_end();
            let payload = &frame[header_end..frame.len()];
            proof {
                assert(payload@ =~= frame@.skip(network.spec_header_end()));
            }
            let transport = dissect_transport(family, protocol, payload);
            DissectionReport::Ip { network, transport }
        },
        None => DissectionReport::NotIp { raw: vstd::slice::slice_to_vec(frame) },
    }
}

impl DissectionReport {
    /// The hex/ASCII rendering owed for a frame that matched no network
    /// layer; a report with a network layer has none.
    pub fn hex_view(&self) -> (r: Option<Vec<Vec<u8>>>)
        ensures
            match self {
                DissectionReport::NotIp { raw } => r matches Some(lines) && lines.deep_view()
                    == spec_hex_lines(raw@),
                _ => r is None,
            },
    {
        match self {
            DissectionReport::NotIp { raw } => Some(hex_dump(raw.as_slice())),
            _ => None,
        }
    }
}

/// A buffer shorter than the twenty-byte minimum IPv4 header matches
/// neither IP family — IPv6 needs forty bytes — so its report keeps the
/// bytes verbatim, and the hex table owed for the report's bytes is exactly
/// the table of the input: formatting is a function of the bytes alone, so
/// repeated calls agree.
pub proof fn lemma_short_frame_dumps_hex(f: Seq<u8>, r: DissectionReport)
    requires
        f.len() < 20,
        spec_report_ok(f, r),
    ensures
        r matches DissectionReport::NotIp { raw } && raw@ == f && spec_hex_lines(raw@)
            == spec_hex_lines(f),
{
}

/// When either IP family matches, a network layer is owed: the report is
/// never the hex fallback, and its header belongs to IPv4 whenever IPv4
/// matches — IPv4 is tried first — and to IPv6 only otherwise.
pub proof fn lemma_ip_frame_resolves(f: Seq<u8>, r: DissectionReport)
    requires
        spec_report_ok(f, r),
        spec_ipv4_matches(f) || spec_ipv6_matches(f),
    ensures
        r matches DissectionReport::Ip { network, .. } && network.spec_family() == (
        if spec_ipv4_matches(f) {
            crate::transport::IpFamily::V4
        } else {
            crate::transport::IpFamily::V6
        }),
{
}

/// The data-model invariant of every report with a network layer: the
/// header's payload offset never exceeds the frame length.
pub proof fn lemma_header_end_in_frame(f: Seq<u8>, r: DissectionReport)
    requires
        spec_report_ok(f, r),
    ensures
        r matches DissectionReport::Ip { network, .. } ==> 0 <= network.spec_header_end()
            <= f.len(),
{
}

} // verus!
