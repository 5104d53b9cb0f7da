//! Plain per-layer facts extracted from one raw frame. These carry, as plain
//! values, exactly what the decoding logic reads: the outside slicing library
//! hands them over at the trusted boundary, and everything downstream of that
//! boundary is verified against them.

use vstd::prelude::*;

verus! {

/// Link-layer facts of an Ethernet-II frame.
#[derive(Clone, Copy, Debug)]
pub struct LinkFacts {
    /// Source MAC address.
    pub source_mac: [u8; 6],
    /// Destination MAC address.
    pub destination_mac: [u8; 6],
    /// The EtherType field value.
    pub ether_type: u16,
}

/// The mathematical shape of link-layer facts.
pub ghost struct LinkFactsView {
    pub source_mac: Seq<u8>,
    pub destination_mac: Seq<u8>,
    pub ether_type: u16,
}

impl View for LinkFacts {
    type V = LinkFactsView;

    open spec fn view(&self) -> LinkFactsView {
        LinkFactsView {
            source_mac: self.source_mac@,
            destination_mac: self.destination_mac@,
            ether_type: self.ether_type,
        }
    }
}

/// Network-layer facts: the protocol version and both raw addresses.
#[derive(Clone, Copy, Debug)]
pub enum NetFacts {
    /// An IPv4 header: source and destination octets.
    V4([u8; 4], [u8; 4]),
    /// An IPv6 header: source and destination octets.
    V6([u8; 16], [u8; 16]),
}

/// The mathematical shape of network-layer facts.
pub ghost enum NetFactsView {
    V4 { source: Seq<u8>, destination: Seq<u8> },
    V6 { source: Seq<u8>, destination: Seq<u8> },
}

impl View for NetFacts {
    type V = NetFactsView;

    open spec fn view(&self) -> NetFactsView {
        match self {
            NetFacts::V4(s, d) => NetFactsView::V4 { source: s@, destination: d@ },
            NetFacts::V6(s, d) => NetFactsView::V6 { source: s@, destination: d@ },
        }
    }
}

/// Transport-layer facts. ICMP messages carry the raw type and code octets
/// and the four header bytes that follow the checksum, from which the
/// human-readable description is computed.
#[derive(Clone, Copy, Debug)]
pub enum TransFacts {
    /// A TCP header: source port, destination port.
    Tcp(u16, u16),
    /// A UDP header: source port, destination port.
    Udp(u16, u16),
    /// An ICMPv4 message: type and code octets, and the four bytes after
    /// the checksum.
    Icmp4(u8, u8, [u8; 4]),
    /// An ICMPv6 message: type and code octets, and the four bytes after
    /// the checksum.
    Icmp6(u8, u8, [u8; 4]),
    /// Any other transport; carries the IP protocol number.
    Other(u8),
}

/// The mathematical shape of transport-layer facts.
pub ghost enum TransFactsView {
    Tcp { source_port: u16, destination_port: u16 },
    Udp { source_port: u16, destination_port: u16 },
    Icmp4 { type_u8: u8, code_u8: u8, bytes5to8: Seq<u8> },
    Icmp6 { type_u8: u8, code_u8: u8, bytes5to8: Seq<u8> },
    Other { protocol: u8 },
}

impl View for TransFacts {
    type V = TransFactsView;

    open spec fn view(&self) -> TransFactsView {
        match self {
            TransFacts::Tcp(sp, dp) => TransFactsView::Tcp {
                source_port: *sp,
                destination_port: *dp,
            },
            TransFacts::Udp(sp, dp) => TransFactsView::Udp {
                source_port: *sp,
                destination_port: *dp,
            },
            TransFacts::Icmp4(t, c, b) => TransFactsView::Icmp4 {
                type_u8: *t,
                code_u8: *c,
                bytes5to8: b@,
            },
            TransFacts::Icmp6(t, c, b) => TransFactsView::Icmp6 {
                type_u8: *t,
                code_u8: *c,
                bytes5to8: b@,
            },
            TransFacts::Other(p) => TransFactsView::Other { protocol: *p },
        }
    }
}

} // verus!
