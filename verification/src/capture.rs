//! The trusted decoding boundary and the verified per-frame decoder built on
//! it. Each wrapper below calls the outside slicing or DNS library once and
//! hands back plain facts; what those facts are for a given frame is named by
//! an uninterpreted function of the frame bytes, and everything after the
//! boundary is verified against those names.

use etherparse::TransportSlice;
use vstd::prelude::*;
use vstd::string::StringExecFns;
use crate::dns::dns_gate;
use crate::dns::dns_info_to_string;
use crate::dns::spec_dns_gate;
use crate::dns::spec_dns_text;
use crate::dns::DnsInfo;
use crate::dns::DnsInfoView;
use crate::dns_wire::dns_wire_safe;
use crate::dns_wire::spec_dns_wire_safe;
use crate::facts::LinkFacts;
use crate::facts::LinkFactsView;
use crate::facts::NetFacts;
use crate::facts::NetFactsView;
use crate::facts::TransFacts;
use crate::facts::TransFactsView;
use crate::key::spec_key;
use crate::key::AddressPortPair;
use crate::link::parse_link;
use crate::link::spec_link_info;
use crate::link::LinkInfo;
use crate::network::parse_network;
use crate::network::spec_network_info;
use crate::network::NetworkInfo;
use crate::report::spec_fold_all;
use crate::report::spec_obs;
use crate::report::spec_report_create;
use crate::report::spec_report_fold;
use crate::report::PacketObs;
use crate::report::ReportView;
use crate::table::KeyView;
use crate::table::ReportTable;
use crate::transport::parse_transport;
use crate::transport::spec_transport_info;
use crate::transport::TransportInfo;
use crate::transport::TransportInfoView;

verus! {

/// The link-layer facts that slicing a frame yields.
pub uninterp spec fn spec_link_of(frame: Seq<u8>) -> Option<LinkFactsView>;

/// The network-layer facts that slicing a frame yields.
pub uninterp spec fn spec_net_of(frame: Seq<u8>) -> Option<NetFactsView>;

/// The transport-layer facts that slicing a frame yields.
pub uninterp spec fn spec_transport_of(frame: Seq<u8>) -> Option<TransFactsView>;

/// The unparsed payload that slicing a frame leaves over.
pub uninterp spec fn spec_payload_of(frame: Seq<u8>) -> Option<Seq<u8>>;

/// What parsing a payload as a DNS message yields: a message summary, or the
/// failure's diagnostic text.
pub uninterp spec fn spec_dns_of(payload: Seq<u8>) -> Result<DnsInfoView, Seq<char>>;

pub open spec fn opt_link_view(r: Option<LinkFacts>) -> Option<LinkFactsView> {
    match r {
        Some(f) => Some(f@),
        None => None,
    }
}

pub open spec fn opt_net_view(r: Option<NetFacts>) -> Option<NetFactsView> {
    match r {
        Some(f) => Some(f@),
        None => None,
    }
}

pub open spec fn opt_trans_view(r: Option<TransFacts>) -> Option<TransFactsView> {
    match r {
        Some(f) => Some(f@),
        None => None,
    }
}

/// Relies on `etherparse::SlicedPacket::from_ethernet` and the Ethernet-II
/// header slice accessors: the link facts are a function of the frame bytes
/// alone; a frame that does not slice, or has no Ethernet-II link layer,
/// yields none.
#[verifier::external_body]
fn decode_link(data: &Vec<u8>) -> (r: Option<LinkFacts>)
    ensures
        opt_link_view(r) == spec_link_of(data@),
{
    match etherparse::SlicedPacket::from_ethernet(data) {
        Ok(p) => match p.link {
            Some(etherparse::LinkSlice::Ethernet2(h)) => Some(
                LinkFacts { source_mac: h.source(), destination_mac: h.destination(), ether_type: h.ether_type() },
            ),
            None => None,
        },
        Err(_) => None,
    }
}

/// Relies on `etherparse::SlicedPacket::from_ethernet` and the IPv4/IPv6
/// header slice accessors: the network facts are a function of the frame
/// bytes alone; a frame that does not slice, or has no IP layer, yields none.
#[verifier::external_body]
fn decode_network(data: &Vec<u8>) -> (r: Option<NetFacts>)
    ensures
        opt_net_view(r) == spec_net_of(data@),
{
    match etherparse::SlicedPacket::from_ethernet(data) {
        Ok(p) => match p.ip {
            Some(etherparse::InternetSlice::Ipv4(h, _)) => Some(
                NetFacts::V4(h.source(), h.destination()),
            ),
            Some(etherparse::InternetSlice::Ipv6(h, _)) => Some(
                NetFacts::V6(h.source(), h.destination()),
            ),
            None => None,
        },
        Err(_) => None,
    }
}

/// Relies on `etherparse::SlicedPacket::from_ethernet` and the TCP, UDP and
/// ICMP slice accessors: the transport facts are a function of the frame
/// bytes alone; a frame that does not slice, or has no transport layer,
/// yields none. An unrecognized IP protocol yields its number.
#[verifier::external_body]
fn decode_transport(data: &Vec<u8>) -> (r: Option<TransFacts>)
    ensures
        opt_trans_view(r) == spec_transport_of(data@),
{
    let p = match etherparse::SlicedPacket::from_ethernet(data) { Ok(p) => p, Err(_) => return None };
    match p.transport {
        Some(TransportSlice::Tcp(h)) => Some(TransFacts::Tcp(h.source_port(), h.destination_port())),
        Some(TransportSlice::Udp(h)) => Some(TransFacts::Udp(h.source_port(), h.destination_port())),
        Some(TransportSlice::Icmpv4(s)) => Some(TransFacts::Icmp4(s.type_u8(), s.code_u8(), s.bytes5to8())),
        Some(TransportSlice::Icmpv6(s)) => Some(TransFacts::Icmp6(s.type_u8(), s.code_u8(), s.bytes5to8())),
        Some(TransportSlice::Unknown(n)) => Some(TransFacts::Other(n)),
        None => None,
    }
}

/// Relies on `etherparse::SlicedPacket::from_ethernet`: the payload left
/// after slicing is a function of the frame bytes alone; a frame that does
/// not slice yields none.
#[verifier::external_body]
fn frame_payload(data: &Vec<u8>) -> (r: Option<Vec<u8>>)
    ensures
        match r {
            Some(p) => spec_payload_of(data@) == Some(p@),
            None => spec_payload_of(data@) is None,
        },
{
    match etherparse::SlicedPacket::from_ethernet(data) {
        Ok(p) => Some(p.payload.to_vec()),
        Err(_) => None,
    }
}

/// Relies on `simple_dns::Packet::parse` and the header accessors: the
/// parse result is a function of the payload bytes alone. On success the
/// transaction id comes back with the opcode's and response code's names in
/// their debug shapes; on failure, the error's display text. Only payloads
/// the wire screen admits are handed over: on those, every read the parser
/// makes is covered and every rendered name is valid UTF-8, so the call
/// returns; a payload with an uncovered record read, or with a question or
/// answer name whose rendering would fail, is excluded by the precondition
/// and never reaches the parser.
#[verifier::external_body]
fn dns_wire_header(payload: &Vec<u8>) -> (r: Result<(u16, String, String), String>)
    requires
        spec_dns_wire_safe(payload@),
    ensures
        match r {
            Ok(h) => spec_dns_of(payload@) matches Ok(d) && d.id == h.0 && d.opcode == h.1@
                && d.response_code == h.2@,
            Err(m) => spec_dns_of(payload@) == Err::<DnsInfoView, Seq<char>>(m@),
        },
{
    match simple_dns::Packet::parse(payload) {
        Err(e) => Err(e.to_string()),
        Ok(p) => Ok((p.id(), format!("{:?}", p.opcode()), format!("{:?}", p.rcode()))),
    }
}

/// Relies on `simple_dns::Packet::parse` and the question fields: where the
/// payload parses, the question names come back in their dotted text and the
/// question types and classes as one bracketed list each. Only payloads the
/// wire screen admits are handed over, so the parse returns and every
/// question name renders.
#[verifier::external_body]
fn dns_wire_questions(payload: &Vec<u8>) -> (r: (Vec<String>, String, String))
    requires
        spec_dns_wire_safe(payload@),
    ensures
        spec_dns_of(payload@) matches Ok(d) ==> d.queries == r.0@.map_values(|q: String| q@)
            && d.query_type == r.1@ && d.query_class == r.2@,
{
    match simple_dns::Packet::parse(payload) {
        Err(_) => (Vec::new(), String::new(), String::new()),
        Ok(p) => (
            p.questions.iter().map(|x| x.qname.to_string()).collect(),
            format!("{:?}", p.questions.iter().map(|x| x.qtype).collect::<Vec<_>>()),
            format!("{:?}", p.questions.iter().map(|x| x.qclass).collect::<Vec<_>>()),
        ),
    }
}

/// Relies on `simple_dns::Packet::parse` and the answer fields: where the
/// payload parses, the answer names come back in their dotted text and the
/// answer classes as one bracketed list. Only payloads the wire screen
/// admits are handed over, so the parse returns and every answer name
/// renders.
#[verifier::external_body]
fn dns_wire_answers(payload: &Vec<u8>) -> (r: (Vec<String>, String))
    requires
        spec_dns_wire_safe(payload@),
    ensures
        spec_dns_of(payload@) matches Ok(d) ==> d.responses == r.0@.map_values(|a: String| a@)
            && d.response_class == r.1@,
{
    match simple_dns::Packet::parse(payload) {
        Err(_) => (Vec::new(), String::new()),
        Ok(p) => (
            p.answers.iter().map(|x| x.name.to_string()).collect(),
            format!("{:?}", p.answers.iter().map(|x| x.class).collect::<Vec<_>>()),
        ),
    }
}

/// The failure text with which the library itself refuses a payload that
/// the wire screen turned away.
pub open spec fn spec_dns_rejected_text() -> Seq<char> {
    "DNS payload refused: unsupported name or record encoding"@
}

/// What parsing a payload as DNS yields: the outside parser's result where
/// the wire screen admits the payload, and the library's own refusal text
/// where it does not.
pub open spec fn spec_dns_result(payload: Seq<u8>) -> Result<DnsInfoView, Seq<char>> {
    if spec_dns_wire_safe(payload) {
        spec_dns_of(payload)
    } else {
        Err(spec_dns_rejected_text())
    }
}

/// Parses a payload as a DNS message: the decoded summary, or the failure's
/// diagnostic text. A payload the wire screen turns away is refused with a
/// failure text of the library's own and never reaches the outside parser.
pub fn parse_dns(payload: &Vec<u8>) -> (r: Result<DnsInfo, String>)
    ensures
        match r {
            Ok(d) => spec_dns_result(payload@) == Ok::<DnsInfoView, Seq<char>>(d@),
            Err(m) => spec_dns_result(payload@) == Err::<DnsInfoView, Seq<char>>(m@),
        },
{
    if !dns_wire_safe(payload) {
        return Err(String::from_str("DNS payload refused: unsupported name or record encoding"));
    }
    match dns_wire_header(payload) {
        Err(m) => Err(m),
        Ok((id, opcode, response_code)) => {
            let (queries, query_type, query_class) = dns_wire_questions(payload);
            let (responses, response_class) = dns_wire_answers(payload);
            let info = DnsInfo {
                id,
                opcode,
                response_code,
                queries,
                query_type,
                query_class,
                responses,
                response_class,
            };
            proof {
                let d = spec_dns_of(payload@)->Ok_0;
                assert(d =~= info@);
            }
            Ok(info)
        },
    }
}

/// Everything one frame decodes to.
pub struct DecodedPacket {
    /// The link descriptor, when the frame is Ethernet-II.
    pub link: Option<LinkInfo>,
    /// The network descriptor, when an IP layer was recognized.
    pub network: Option<NetworkInfo>,
    /// The transport descriptor, when a transport layer was sliced.
    pub transport: Option<TransportInfo>,
    /// The DNS message summary, when the DNS gate held and the payload
    /// parsed.
    pub dns: Option<DnsInfo>,
    /// The DNS failure text, when the DNS gate held and the payload did not
    /// parse.
    pub dns_failure: Option<String>,
}

/// Whether a decoded frame is examined as DNS: all three layers recognized,
/// and the transport passes the DNS gate.
pub open spec fn spec_frame_gated(frame: Seq<u8>) -> bool {
    &&& spec_link_of(frame) is Some
    &&& spec_net_of(frame) is Some
    &&& match spec_transport_of(frame) {
        Some(t) => spec_dns_gate(spec_transport_info(t)),
        None => false,
    }
}

/// Decodes one raw frame layer by layer. Each layer's descriptor is present
/// exactly when the slicing facts for that layer are; the payload is examined
/// as DNS exactly when all three layers were recognized and the transport is
/// UDP with a port of 53 — so a TCP packet on port 53, or UDP traffic away
/// from port 53, never reaches the DNS parser.
pub fn decode_packet(data: &Vec<u8>) -> (r: DecodedPacket)
    ensures
        match spec_link_of(data@) {
            Some(f) => r.link matches Some(li) && li@ == spec_link_info(f),
            None => r.link is None,
        },
        match spec_net_of(data@) {
            Some(f) => r.network matches Some(ni) && ni@ == spec_network_info(f),
            None => r.network is None,
        },
        match spec_transport_of(data@) {
            Some(f) => r.transport matches Some(ti) && ti@ == spec_transport_info(f),
            None => r.transport is None,
        },
        !spec_frame_gated(data@) ==> r.dns is None && r.dns_failure is None,
        spec_frame_gated(data@) ==> match spec_payload_of(data@) {
            Some(p) => match spec_dns_result(p) {
                Ok(d) => (r.dns matches Some(di) && di@ == d) && r.dns_failure is None,
                Err(m) => r.dns is None && (r.dns_failure matches Some(s) && s@ == m),
            },
            None => r.dns is None && r.dns_failure is None,
        },
{
    let link = parse_link(decode_link(data));
    let network = parse_network(decode_network(data));
    let transport = parse_transport(decode_transport(data));
    let mut dns: Option<DnsInfo> = None;
    let mut dns_failure: Option<String> = None;
    if link.is_some() && network.is_some() && transport.is_some() {
        if dns_gate(transport.as_ref().unwrap()) {
            match frame_payload(data) {
                Some(payload) => match parse_dns(&payload) {
                    Ok(d) => {
                        dns = Some(d);
                    },
                    Err(m) => {
                        dns_failure = Some(m);
                    },
                },
                None => {},
            }
        }
    }
    DecodedPacket { link, network, transport, dns, dns_failure }
}

/// The ICMP description a transport descriptor contributes to an aggregate:
/// the empty descriptor where the transport is not ICMP.
pub open spec fn spec_frame_icmp(ti: TransportInfoView) -> Seq<char> {
    match ti.icmp_type {
        Some(s) => s,
        None => Seq::empty(),
    }
}

/// The DNS description a frame contributes to an aggregate: the message
/// summary's rendering where the port-53 rule admitted the payload and it
/// parsed, and the empty descriptor otherwise.
pub open spec fn spec_frame_dns_text(frame: Seq<u8>) -> Seq<char> {
    if spec_frame_gated(frame) {
        match spec_payload_of(frame) {
            Some(p) => match spec_dns_result(p) {
                Ok(d) => spec_dns_text(d),
                Err(_) => Seq::empty(),
            },
            None => Seq::empty(),
        }
    } else {
        Seq::empty()
    }
}

/// The DNS parse failure a frame surfaces, if any.
pub open spec fn spec_frame_dns_failure(frame: Seq<u8>) -> Option<Seq<char>> {
    if spec_frame_gated(frame) {
        match spec_payload_of(frame) {
            Some(p) => match spec_dns_result(p) {
                Ok(_) => None,
                Err(m) => Some(m),
            },
            None => None,
        }
    } else {
        None
    }
}

/// The connection key and observation a frame folds into the table, present
/// exactly when all of link, network and transport dissection succeeded.
pub open spec fn spec_frame_obs(frame: Seq<u8>, ts: u64, bytes: u32) -> Option<
    (KeyView, PacketObs),
> {
    match (spec_link_of(frame), spec_net_of(frame), spec_transport_of(frame)) {
        (Some(lf), Some(nf), Some(tf)) => {
            let li = spec_link_info(lf);
            let ni = spec_network_info(nf);
            let ti = spec_transport_info(tf);
            let fp = match ti.source_port {
                Some(p) => p,
                None => "No port"@,
            };
            let sp = match ti.destination_port {
                Some(p) => p,
                None => "No port"@,
            };
            Some(
                (
                    spec_key((ni.source_address, fp), (ni.destination_address, sp)),
                    spec_obs(
                        ts,
                        bytes,
                        ti.protocol,
                        ni.protocol,
                        li,
                        spec_frame_icmp(ti),
                        spec_frame_dns_text(frame),
                    ),
                ),
            )
        },
        _ => None,
    }
}

/// How one packet may change a window: the aggregate under its key is
/// extended, or a fresh aggregate is appended under a key not yet held.
pub open spec fn spec_fold_post(
    t0: Seq<(KeyView, ReportView)>,
    t1: Seq<(KeyView, ReportView)>,
    k: KeyView,
    o: PacketObs,
) -> bool {
    &&& forall|i: int|
        0 <= i < t0.len() && (#[trigger] t0[i]).0 == k ==> t1 == t0.update(
            i,
            (t0[i].0, spec_report_fold(t0[i].1, o)),
        )
    &&& (forall|i: int| 0 <= i < t0.len() ==> (#[trigger] t0[i]).0 != k) ==> t1 == t0.push(
        (k, spec_report_create(o)),
    )
}

/// How one frame changes a window: its observation is folded in when all
/// three layers dissected, and nothing changes otherwise.
pub open spec fn spec_packet_post(
    t0: Seq<(KeyView, ReportView)>,
    t1: Seq<(KeyView, ReportView)>,
    frame: Seq<u8>,
    ts: u64,
    bytes: u32,
) -> bool {
    match spec_frame_obs(frame, ts, bytes) {
        Some(ko) => spec_fold_post(t0, t1, ko.0, ko.1),
        None => t1 == t0,
    }
}

/// After a flush the window is empty, and the first packet of any connection
/// arriving after it creates a brand-new aggregate: folding into an empty
/// window always yields exactly the one freshly created entry.
pub proof fn lemma_window_reset(
    t1: Seq<(KeyView, ReportView)>,
    t2: Seq<(KeyView, ReportView)>,
    k: KeyView,
    o: PacketObs,
)
    requires
        t1.len() == 0,
        spec_fold_post(t1, t2, k, o),
    ensures
        t2 == seq![(k, spec_report_create(o))],
{
    assert(t2 == t1.push((k, spec_report_create(o))));
    assert(t1.push((k, spec_report_create(o))) =~= seq![(k, spec_report_create(o))]);
}

/// Aggregation correctness at the window level: starting from an empty
/// window, folding any number of packets of one connection, one step after
/// another, leaves exactly one entry for that connection, and its aggregate
/// is the fold of all the observations — whose totals, time bounds and
/// descriptor sets `lemma_fold_aggregation` pins down.
pub proof fn lemma_one_connection_window(
    states: Seq<Seq<(KeyView, ReportView)>>,
    obs: Seq<PacketObs>,
    k: KeyView,
)
    requires
        states.len() == obs.len() + 1,
        obs.len() > 0,
        states[0].len() == 0,
        forall|i: int|
            0 <= i < obs.len() ==> spec_fold_post(#[trigger] states[i], states[i + 1], k, obs[i]),
    ensures
        states.last() == seq![(k, spec_fold_all(obs))],
    decreases obs.len(),
{
    if obs.len() == 1 {
        lemma_window_reset(states[0], states[1], k, obs[0]);
    } else {
        let sdl = states.drop_last();
        let odl = obs.drop_last();
        assert(forall|i: int|
            0 <= i < odl.len() ==> spec_fold_post(#[trigger] sdl[i], sdl[i + 1], k, odl[i]));
        lemma_one_connection_window(sdl, odl, k);
        let t = states[states.len() - 2];
        assert(t == seq![(k, spec_fold_all(odl))]);
        assert(spec_fold_post(t, states.last(), k, obs.last()));
        assert(t[0].0 == k);
        assert(states.last() == t.update(0, (t[0].0, spec_report_fold(t[0].1, obs.last()))));
        assert(states.last() =~= seq![(k, spec_report_fold(spec_fold_all(odl), obs.last()))]);
    }
}

/// Decodes one frame and folds it into the window, exactly when all of link,
/// network and transport dissection succeeded. Returns the diagnostic text of
/// a failed DNS parse, for the caller's diagnostic hook; the one known-benign
/// failure can be told apart with `dns_failure_is_benign`.
pub fn parse_packet(data: &Vec<u8>, ts: u64, bytes: u32, report_map: &mut ReportTable) -> (r:
    Option<String>)
    requires
        old(report_map).well_formed(),
    ensures
        final(report_map).well_formed(),
        spec_packet_post(old(report_map)@, final(report_map)@, data@, ts, bytes),
        match spec_frame_dns_failure(data@) {
            Some(m) => r matches Some(s) && s@ == m,
            None => r is None,
        },
{
    let d = decode_packet(data);
    let DecodedPacket { link, network, transport, dns, dns_failure } = d;
    match (link, network, transport) {
        (Some(ll), Some(nl), Some(tl)) => {
            let first_port = match tl.source_port {
                Some(p) => p,
                None => String::from_str("No port"),
            };
            let second_port = match tl.destination_port {
                Some(p) => p,
                None => String::from_str("No port"),
            };
            let dns_string = match dns {
                Some(di) => dns_info_to_string(Some(di)),
                None => String::new(),
            };
            let icmp_string = match tl.icmp_type {
                Some(s) => s,
                None => String::new(),
            };
            let pair = AddressPortPair::new(
                nl.source_address,
                first_port,
                nl.destination_address,
                second_port,
            );
            report_map.fold_packet(
                pair,
                ts,
                bytes,
                tl.protocol,
                nl.protocol,
                ll,
                icmp_string,
                dns_string,
            );
            dns_failure
        },
        _ => dns_failure,
    }
}

} // verus!
