//! Link-layer values: MAC addresses, the per-frame link descriptor, and their
//! textual renderings. Two link descriptors count as the same when they hold
//! the same unordered pair of MAC addresses and the same EtherType, mirroring
//! the unordered identity of a connection.

use vstd::prelude::*;
use vstd::string::StringExecFns;
use crate::facts::LinkFacts;
use crate::text::spec_dec;
use crate::text::spec_hex_byte;
use crate::text::push_hex_byte;
use crate::text::u64_to_decimal;

verus! {

/// A MAC address.
pub struct MacAddress {
    bytes: [u8; 6],
}

impl View for MacAddress {
    type V = Seq<u8>;

    closed spec fn view(&self) -> Seq<u8> {
        self.bytes@
    }
}

impl MacAddress {
    /// Creates a new `MacAddress` from the given bytes.
    pub fn new(bytes: [u8; 6]) -> (r: MacAddress)
        ensures
            r@ == bytes@,
    {
        MacAddress { bytes }
    }
}

/// Six bytes as colon-separated pairs of uppercase hexadecimal digits.
#[verifier::opaque]
pub open spec fn spec_mac_text(m: Seq<u8>) -> Seq<char>
    recommends
        m.len() == 6,
{
    spec_hex_byte(m[0]) + seq![':'] + spec_hex_byte(m[1]) + seq![':'] + spec_hex_byte(m[2])
        + seq![':'] + spec_hex_byte(m[3]) + seq![':'] + spec_hex_byte(m[4]) + seq![':']
        + spec_hex_byte(m[5])
}

/// Renders a MAC address in its usual colon-separated uppercase form.
pub fn mac_address_to_string(mac: MacAddress) -> (r: String)
    ensures
        r@ == spec_mac_text(mac@),
{
    let mut s = String::new();
    proof {
        reveal_strlit(":");
    }
    push_hex_byte(&mut s, mac.bytes[0]);
    s.append(":");
    push_hex_byte(&mut s, mac.bytes[1]);
    s.append(":");
    push_hex_byte(&mut s, mac.bytes[2]);
    s.append(":");
    push_hex_byte(&mut s, mac.bytes[3]);
    s.append(":");
    push_hex_byte(&mut s, mac.bytes[4]);
    s.append(":");
    push_hex_byte(&mut s, mac.bytes[5]);
    proof {
        reveal(spec_mac_text);
        assert(s@ =~= spec_mac_text(mac@));
    }
    s
}

/// The per-frame link-layer descriptor: both MAC addresses and the EtherType
/// rendered in decimal.
#[derive(Debug)]
pub struct LinkInfo {
    /// Source MAC address of the frame.
    pub source_mac: [u8; 6],
    /// Destination MAC address of the frame.
    pub destination_mac: [u8; 6],
    /// The EtherType field, as a decimal string.
    pub ether_type: String,
}

/// The mathematical shape of a link descriptor.
pub ghost struct LinkInfoView {
    pub source_mac: Seq<u8>,
    pub destination_mac: Seq<u8>,
    pub ether_type: Seq<char>,
}

impl View for LinkInfo {
    type V = LinkInfoView;

    open spec fn view(&self) -> LinkInfoView {
        LinkInfoView {
            source_mac: self.source_mac@,
            destination_mac: self.destination_mac@,
            ether_type: self.ether_type@,
        }
    }
}

/// Two link descriptors describe the same link when their MAC addresses agree
/// as an unordered pair and their EtherTypes agree.
pub open spec fn spec_link_eq(a: LinkInfoView, b: LinkInfoView) -> bool {
    a.ether_type == b.ether_type && ((a.source_mac == b.source_mac && a.destination_mac
        == b.destination_mac) || (a.source_mac == b.destination_mac && a.destination_mac
        == b.source_mac))
}

fn mac_eq(a: &[u8; 6], b: &[u8; 6]) -> (r: bool)
    ensures
        r == (a@ == b@),
{
    let r = a[0] == b[0] && a[1] == b[1] && a[2] == b[2] && a[3] == b[3] && a[4] == b[4] && a[5]
        == b[5];
    proof {
        if r {
            assert(a@ =~= b@);
        }
    }
    r
}

impl PartialEq for LinkInfo {
    /// Descriptor equality, independent of which MAC address came first.
    fn eq(&self, other: &Self) -> (r: bool) {
        self.ether_type == other.ether_type && ((mac_eq(&self.source_mac, &other.source_mac)
            && mac_eq(&self.destination_mac, &other.destination_mac)) || (mac_eq(
            &self.source_mac,
            &other.destination_mac,
        ) && mac_eq(&self.destination_mac, &other.source_mac)))
    }
}

impl Eq for LinkInfo {

}

impl vstd::std_specs::cmp::PartialEqSpecImpl for LinkInfo {
    open spec fn obeys_eq_spec() -> bool {
        true
    }

    open spec fn eq_spec(&self, other: &Self) -> bool {
        spec_link_eq(self@, other@)
    }
}

/// The link descriptor that `parse_link` builds for given facts.
pub open spec fn spec_link_info(f: crate::facts::LinkFactsView) -> LinkInfoView {
    LinkInfoView {
        source_mac: f.source_mac,
        destination_mac: f.destination_mac,
        ether_type: spec_dec(f.ether_type as nat),
    }
}

/// Builds the link descriptor for a frame whose link layer was recognized as
/// Ethernet-II; any other framing yields no descriptor.
pub fn parse_link(link_value: Option<LinkFacts>) -> (r: Option<LinkInfo>)
    ensures
        match link_value {
            Some(f) => match r {
                Some(li) => li@ == spec_link_info(f@),
                None => false,
            },
            None => r is None,
        },
{
    match link_value {
        Some(f) => Some(
            LinkInfo {
                source_mac: f.source_mac,
                destination_mac: f.destination_mac,
                ether_type: u64_to_decimal(f.ether_type as u64),
            },
        ),
        None => None,
    }
}

/// The textual rendering of a link descriptor.
#[verifier::opaque]
pub open spec fn spec_linkinfo_text(l: LinkInfoView) -> Seq<char> {
    "first mac address: "@ + spec_mac_text(l.source_mac) + " - second mac address: "@
        + spec_mac_text(l.destination_mac) + " - ether type: "@ + l.ether_type
}

/// Renders a link descriptor as one line of report text.
pub fn linkinfo_tostring(li: &LinkInfo) -> (r: String)
    ensures
        r@ == spec_linkinfo_text(li@),
{
    let mut s = String::from_str("first mac address: ");
    let smac = mac_address_to_string(MacAddress::new(li.source_mac));
    s.append(smac.as_str());
    s.append(" - second mac address: ");
    let dmac = mac_address_to_string(MacAddress::new(li.destination_mac));
    s.append(dmac.as_str());
    s.append(" - ether type: ");
    s.append(li.ether_type.as_str());
    proof {
        reveal(spec_linkinfo_text);
        assert(s@ =~= spec_linkinfo_text(li@));
    }
    s
}

} // verus!
