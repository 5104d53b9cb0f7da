//! Transport-layer values: the per-frame transport descriptor, and the
//! human-readable classification of ICMP messages by their raw type and code
//! octets. Unrecognized types and codes still yield a descriptive string.

use vstd::prelude::*;
use vstd::string::StringExecFns;
use crate::facts::TransFacts;
use crate::facts::TransFactsView;
use crate::network::spec_ipv4_text;
use crate::network::push_ipv4;
use crate::text::push_decimal;
use crate::text::spec_dec;

verus! {

/// The per-frame transport descriptor: the protocol label, the ports where
/// the protocol has them, and the ICMP description where it is ICMP.
#[derive(Debug)]
pub struct TransportInfo {
    /// Transport protocol label.
    pub protocol: String,
    /// Source port, as a decimal string, for TCP and UDP.
    pub source_port: Option<String>,
    /// Destination port, as a decimal string, for TCP and UDP.
    pub destination_port: Option<String>,
    /// Human-readable ICMP type and code description, for ICMP.
    pub icmp_type: Option<String>,
}

/// The mathematical shape of a transport descriptor.
pub ghost struct TransportInfoView {
    pub protocol: Seq<char>,
    pub source_port: Option<Seq<char>>,
    pub destination_port: Option<Seq<char>>,
    pub icmp_type: Option<Seq<char>>,
}

impl View for TransportInfo {
    type V = TransportInfoView;

    open spec fn view(&self) -> TransportInfoView {
        TransportInfoView {
            protocol: self.protocol@,
            source_port: match self.source_port {
                Some(ref p) => Some(p@),
                None => None,
            },
            destination_port: match self.destination_port {
                Some(ref p) => Some(p@),
                None => None,
            },
            icmp_type: match self.icmp_type {
                Some(ref d) => Some(d@),
                None => None,
            },
        }
    }
}

/// The description of an ICMPv4 message with the given type and code octets
/// and the four bytes that follow the checksum (the redirect gateway).
pub open spec fn spec_icmp4_description(t: u8, c: u8, b58: Seq<u8>) -> Seq<char>
    recommends
        b58.len() == 4,
{
    if t == 0 && c == 0 {
        "Echo Reply - code: 0"@
    } else if t == 3 && c <= 15 {
        "Destination Unreachable - code: "@ + spec_dec(c as nat)
    } else if t == 5 && c <= 3 {
        "Redirect "@ + spec_dec(c as nat) + " - code: "@ + spec_ipv4_text(b58)
    } else if t == 8 && c == 0 {
        "Echo Request - code: 0"@
    } else if t == 11 && c <= 1 {
        "Time Exceeded - code: "@ + spec_dec(c as nat)
    } else if t == 12 && c <= 2 {
        "Parameter Problem - code: "@ + spec_dec(c as nat)
    } else if t == 13 && c == 0 {
        "Timestamp Request - code: 0"@
    } else if t == 14 && c == 0 {
        "Timestamp Reply - code: 0"@
    } else {
        "Unknown, type: "@ + spec_dec(t as nat) + ", code: "@ + spec_dec(c as nat)
    }
}

/// The description of an ICMPv6 message with the given type and code octets
/// and the four bytes that follow the checksum (the path MTU, big-endian).
pub open spec fn spec_icmp6_description(t: u8, c: u8, b58: Seq<u8>) -> Seq<char>
    recommends
        b58.len() == 4,
{
    if t == 1 && c <= 6 {
        "Destination Unreachable - code: "@ + spec_dec(c as nat)
    } else if t == 2 && c == 0 {
        "Packet too big mtu = "@ + spec_dec(
            (b58[0] as nat) * 0x1000000 + (b58[1] as nat) * 0x10000 + (b58[2] as nat) * 0x100 + (
            b58[3] as nat),
        ) + " - code: 0"@
    } else if t == 3 && c <= 1 {
        "Time exceeded - code: "@ + spec_dec(c as nat)
    } else if t == 4 && c <= 10 {
        "Parameter problem - code: "@ + spec_dec(c as nat)
    } else if t == 128 && c == 0 {
        "Echo request - code: 0"@
    } else if t == 129 && c == 0 {
        "Echo reply - code: 0"@
    } else {
        "Unknown, type: "@ + spec_dec(t as nat) + ", code: "@ + spec_dec(c as nat)
    }
}

/// Classifies an ICMPv4 message into its human-readable description.
pub fn icmpv4_type_parser(type_u8: u8, code_u8: u8, bytes5to8: &[u8; 4]) -> (r: String)
    ensures
        r@ == spec_icmp4_description(type_u8, code_u8, bytes5to8@),
{
    if type_u8 == 0 && code_u8 == 0 {
        String::from_str("Echo Reply - code: 0")
    } else if type_u8 == 3 && code_u8 <= 15 {
        let mut s = String::from_str("Destination Unreachable - code: ");
        push_decimal(&mut s, code_u8 as u64);
        s
    } else if type_u8 == 5 && code_u8 <= 3 {
        let mut s = String::from_str("Redirect ");
        push_decimal(&mut s, code_u8 as u64);
        s.append(" - code: ");
        push_ipv4(&mut s, bytes5to8[0], bytes5to8[1], bytes5to8[2], bytes5to8[3]);
        proof {
            assert(seq![bytes5to8@[0], bytes5to8@[1], bytes5to8@[2], bytes5to8@[3]]
                =~= bytes5to8@);
            assert(s@ =~= spec_icmp4_description(type_u8, code_u8, bytes5to8@));
        }
        s
    } else if type_u8 == 8 && code_u8 == 0 {
        String::from_str("Echo Request - code: 0")
    } else if type_u8 == 11 && code_u8 <= 1 {
        let mut s = String::from_str("Time Exceeded - code: ");
        push_decimal(&mut s, code_u8 as u64);
        s
    } else if type_u8 == 12 && code_u8 <= 2 {
        let mut s = String::from_str("Parameter Problem - code: ");
        push_decimal(&mut s, code_u8 as u64);
        s
    } else if type_u8 == 13 && code_u8 == 0 {
        String::from_str("Timestamp Request - code: 0")
    } else if type_u8 == 14 && code_u8 == 0 {
        String::from_str("Timestamp Reply - code: 0")
    } else {
        let mut s = String::from_str("Unknown, type: ");
        push_decimal(&mut s, type_u8 as u64);
        s.append(", code: ");
        push_decimal(&mut s, code_u8 as u64);
        s
    }
}

/// Classifies an ICMPv6 message into its human-readable description.
pub fn icmpv6_type_parser(type_u8: u8, code_u8: u8, bytes5to8: &[u8; 4]) -> (r: String)
    ensures
        r@ == spec_icmp6_description(type_u8, code_u8, bytes5to8@),
{
    if type_u8 == 1 && code_u8 <= 6 {
        let mut s = String::from_str("Destination Unreachable - code: ");
        push_decimal(&mut s, code_u8 as u64);
        s
    } else if type_u8 == 2 && code_u8 == 0 {
        let mut s = String::from_str("Packet too big mtu = ");
        let mtu: u64 = (bytes5to8[0] as u64) * 0x1000000 + (bytes5to8[1] as u64) * 0x10000 + (
        bytes5to8[2] as u64) * 0x100 + (bytes5to8[3] as u64);
        push_decimal(&mut s, mtu);
        s.append(" - code: 0");
        s
    } else if type_u8 == 3 && code_u8 <= 1 {
        let mut s = String::from_str("Time exceeded - code: ");
        push_decimal(&mut s, code_u8 as u64);
        s
    } else if type_u8 == 4 && code_u8 <= 10 {
        let mut s = String::from_str("Parameter problem - code: ");
        push_decimal(&mut s, code_u8 as u64);
        s
    } else if type_u8 == 128 && code_u8 == 0 {
        String::from_str("Echo request - code: 0")
    } else if type_u8 == 129 && code_u8 == 0 {
        String::from_str("Echo reply - code: 0")
    } else {
        let mut s = String::from_str("Unknown, type: ");
        push_decimal(&mut s, type_u8 as u64);
        s.append(", code: ");
        push_decimal(&mut s, code_u8 as u64);
        s
    }
}

/// The transport descriptor that `parse_transport` builds for given facts.
pub open spec fn spec_transport_info(f: TransFactsView) -> TransportInfoView {
    match f {
        TransFactsView::Tcp { source_port, destination_port } => TransportInfoView {
            protocol: "TCP"@,
            source_port: Some(spec_dec(source_port as nat)),
            destination_port: Some(spec_dec(destination_port as nat)),
            icmp_type: None,
        },
        TransFactsView::Udp { source_port, destination_port } => TransportInfoView {
            protocol: "UDP"@,
            source_port: Some(spec_dec(source_port as nat)),
            destination_port: Some(spec_dec(destination_port as nat)),
            icmp_type: None,
        },
        TransFactsView::Icmp4 { type_u8, code_u8, bytes5to8 } => TransportInfoView {
            protocol: "Icmpv4"@,
            source_port: None,
            destination_port: None,
            icmp_type: Some(spec_icmp4_description(type_u8, code_u8, bytes5to8)),
        },
        TransFactsView::Icmp6 { type_u8, code_u8, bytes5to8 } => TransportInfoView {
            protocol: "Icmpv6"@,
            source_port: None,
            destination_port: None,
            icmp_type: Some(spec_icmp6_description(type_u8, code_u8, bytes5to8)),
        },
        TransFactsView::Other { protocol } => TransportInfoView {
            protocol: "Unknown | IP protocol number: "@ + spec_dec(protocol as nat),
            source_port: None,
            destination_port: None,
            icmp_type: None,
        },
    }
}

/// Builds the transport descriptor for a frame whose transport layer was
/// sliced; an unrecognized IP protocol still yields a descriptor tagged
/// `Unknown` with the protocol number.
pub fn parse_transport(transport_value: Option<TransFacts>) -> (r: Option<TransportInfo>)
    ensures
        match transport_value {
            Some(f) => match r {
                Some(ti) => ti@ == spec_transport_info(f@),
                None => false,
            },
            None => r is None,
        },
{
    match transport_value {
        Some(TransFacts::Tcp(source_port, destination_port)) => {
            let mut sp = String::new();
            push_decimal(&mut sp, source_port as u64);
            let mut dp = String::new();
            push_decimal(&mut dp, destination_port as u64);
            Some(
                TransportInfo {
                    protocol: String::from_str("TCP"),
                    source_port: Some(sp),
                    destination_port: Some(dp),
                    icmp_type: None,
                },
            )
        },
        Some(TransFacts::Udp(source_port, destination_port)) => {
            let mut sp = String::new();
            push_decimal(&mut sp, source_port as u64);
            let mut dp = String::new();
            push_decimal(&mut dp, destination_port as u64);
            Some(
                TransportInfo {
                    protocol: String::from_str("UDP"),
                    source_port: Some(sp),
                    destination_port: Some(dp),
                    icmp_type: None,
                },
            )
        },
        Some(TransFacts::Icmp4(type_u8, code_u8, bytes5to8)) => Some(
            TransportInfo {
                protocol: String::from_str("Icmpv4"),
                source_port: None,
                destination_port: None,
                icmp_type: Some(icmpv4_type_parser(type_u8, code_u8, &bytes5to8)),
            },
        ),
        Some(TransFacts::Icmp6(type_u8, code_u8, bytes5to8)) => Some(
            TransportInfo {
                protocol: String::from_str("Icmpv6"),
                source_port: None,
                destination_port: None,
                icmp_type: Some(icmpv6_type_parser(type_u8, code_u8, &bytes5to8)),
            },
        ),
        Some(TransFacts::Other(protocol)) => {
            let mut p = String::from_str("Unknown | IP protocol number: ");
            push_decimal(&mut p, protocol as u64);
            Some(
                TransportInfo {
                    protocol: p,
                    source_port: None,
                    destination_port: None,
                    icmp_type: None,
                },
            )
        },
        None => None,
    }
}

} // verus!
