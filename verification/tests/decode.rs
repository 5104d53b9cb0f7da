use packet_sniffer::capture::decode_packet;
use packet_sniffer::capture::parse_dns;
use packet_sniffer::capture::parse_packet;
use packet_sniffer::dns::dns_failure_is_benign;
use packet_sniffer::dns::dns_info_to_string;
use packet_sniffer::dns::DnsInfo;
use packet_sniffer::table::ReportTable;
use packet_sniffer::transport::icmpv4_type_parser;
use packet_sniffer::transport::icmpv6_type_parser;

fn build_udp_frame(source_port: u16, destination_port: u16, payload: &[u8]) -> Vec<u8> {
    let builder = etherparse::PacketBuilder::ethernet2([1, 2, 3, 4, 5, 6], [7, 8, 9, 10, 11, 12])
        .ipv4([10, 0, 0, 1], [10, 0, 0, 2], 20)
        .udp(source_port, destination_port);
    let mut packet = Vec::with_capacity(builder.size(payload.len()));
    builder.write(&mut packet, payload).unwrap();
    packet
}

fn build_tcp_frame(source_port: u16, destination_port: u16) -> Vec<u8> {
    let builder = etherparse::PacketBuilder::ethernet2([1, 2, 3, 4, 5, 6], [7, 8, 9, 10, 11, 12])
        .ipv4([10, 0, 0, 1], [10, 0, 0, 2], 20)
        .tcp(source_port, destination_port, 0, 1024);
    let payload = [0u8; 4];
    let mut packet = Vec::with_capacity(builder.size(payload.len()));
    builder.write(&mut packet, &payload).unwrap();
    packet
}

/// A minimal DNS query for `example.com`, type A, class IN.
fn dns_query_payload() -> Vec<u8> {
    let mut p = vec![
        0x12, 0x34, // id
        0x01, 0x00, // flags: standard query, recursion desired
        0x00, 0x01, // one question
        0x00, 0x00, // no answers
        0x00, 0x00, // no name servers
        0x00, 0x00, // no additional records
    ];
    p.extend_from_slice(b"\x07example\x03com\x00");
    p.extend_from_slice(&[0x00, 0x01]); // type A
    p.extend_from_slice(&[0x00, 0x01]); // class IN
    p
}

/// The same query with the question type 65, which the DNS parser rejects as
/// the one known-benign failure.
fn dns_query_payload_qtype65() -> Vec<u8> {
    let mut p = dns_query_payload();
    let len = p.len();
    p[len - 3] = 0x41;
    p
}

#[test]
fn layers_of_a_tcp_frame() {
    let frame = build_tcp_frame(5000, 80);
    let d = decode_packet(&frame);
    let link = d.link.expect("ethernet frame has link facts");
    assert_eq!(link.source_mac, [1, 2, 3, 4, 5, 6]);
    assert_eq!(link.destination_mac, [7, 8, 9, 10, 11, 12]);
    assert_eq!(link.ether_type.as_str(), "2048");
    let net = d.network.expect("ipv4 frame has network facts");
    assert_eq!(net.protocol.as_str(), "IPv4");
    assert_eq!(net.source_address.as_str(), "10.0.0.1");
    assert_eq!(net.destination_address.as_str(), "10.0.0.2");
    let tr = d.transport.expect("tcp frame has transport facts");
    assert_eq!(tr.protocol.as_str(), "TCP");
    assert_eq!(tr.source_port.as_deref(), Some("5000"));
    assert_eq!(tr.destination_port.as_deref(), Some("80"));
    assert!(tr.icmp_type.is_none());
}

#[test]
fn tcp_on_port_53_never_decodes_dns() {
    let frame = build_tcp_frame(5000, 53);
    let d = decode_packet(&frame);
    assert!(d.transport.is_some());
    assert!(d.dns.is_none());
    assert!(d.dns_failure.is_none());
}

#[test]
fn udp_away_from_port_53_never_decodes_dns() {
    let frame = build_udp_frame(1000, 2000, &dns_query_payload());
    let d = decode_packet(&frame);
    assert!(d.transport.is_some());
    assert!(d.dns.is_none());
    assert!(d.dns_failure.is_none());
}

#[test]
fn udp_to_port_53_decodes_dns() {
    let frame = build_udp_frame(1000, 53, &dns_query_payload());
    let d = decode_packet(&frame);
    let dns = d.dns.expect("a valid DNS query must decode");
    assert!(dns.queries.len() >= 1);
    assert_eq!(dns.queries[0].as_str(), "example.com");
    assert_eq!(dns.id, 0x1234);
    assert_eq!(dns.opcode.as_str(), "StandardQuery");
    assert_eq!(dns.response_code.as_str(), "NoError");
    assert_eq!(dns.query_type.as_str(), "[TYPE(A)]");
    assert_eq!(dns.query_class.as_str(), "[CLASS(IN)]");
    assert!(dns.responses.is_empty());
}

#[test]
fn udp_from_port_53_also_decodes_dns() {
    let frame = build_udp_frame(53, 1000, &dns_query_payload());
    let d = decode_packet(&frame);
    assert!(d.dns.is_some());
}

#[test]
fn benign_dns_failure_is_recognized() {
    let frame = build_udp_frame(1000, 53, &dns_query_payload_qtype65());
    let d = decode_packet(&frame);
    assert!(d.dns.is_none());
    let failure = d.dns_failure.expect("the rejected question type surfaces");
    assert_eq!(failure.as_str(), "Provided QType is invalid: 65");
    assert!(dns_failure_is_benign(&failure));
    assert!(!dns_failure_is_benign(&"something else".to_string()));
}

#[test]
fn dns_text_rendering() {
    let info = DnsInfo {
        id: 4660,
        opcode: "StandardQuery".to_string(),
        response_code: "NoError".to_string(),
        queries: vec!["example.com".to_string()],
        query_type: "[A]".to_string(),
        query_class: "[IN]".to_string(),
        responses: vec![],
        response_class: "[]".to_string(),
    };
    assert_eq!(
        dns_info_to_string(Some(info)).as_str(),
        "Id: 4660; Opcode: StandardQuery; Response code: NoError; Questions name: example.com | ; Questions type: [A]; Questions class: [IN]; Responses name: ; Responses class: []\n"
    );
    assert_eq!(
        dns_info_to_string(None).as_str(),
        "DNS packet not well formatted"
    );
}

#[test]
fn icmp4_descriptions() {
    assert_eq!(icmpv4_type_parser(0, 0, &[0; 4]).as_str(), "Echo Reply - code: 0");
    assert_eq!(icmpv4_type_parser(8, 0, &[0; 4]).as_str(), "Echo Request - code: 0");
    assert_eq!(
        icmpv4_type_parser(3, 3, &[0; 4]).as_str(),
        "Destination Unreachable - code: 3"
    );
    assert_eq!(
        icmpv4_type_parser(5, 1, &[10, 0, 0, 1]).as_str(),
        "Redirect 1 - code: 10.0.0.1"
    );
    assert_eq!(icmpv4_type_parser(11, 0, &[0; 4]).as_str(), "Time Exceeded - code: 0");
    assert_eq!(
        icmpv4_type_parser(12, 2, &[0; 4]).as_str(),
        "Parameter Problem - code: 2"
    );
    assert_eq!(
        icmpv4_type_parser(13, 0, &[0; 4]).as_str(),
        "Timestamp Request - code: 0"
    );
    assert_eq!(
        icmpv4_type_parser(14, 0, &[0; 4]).as_str(),
        "Timestamp Reply - code: 0"
    );
    assert_eq!(
        icmpv4_type_parser(99, 7, &[0; 4]).as_str(),
        "Unknown, type: 99, code: 7"
    );
    // A recognized type with an out-of-range code still reads as unknown.
    assert_eq!(
        icmpv4_type_parser(3, 16, &[0; 4]).as_str(),
        "Unknown, type: 3, code: 16"
    );
}

#[test]
fn icmp6_descriptions() {
    assert_eq!(
        icmpv6_type_parser(1, 4, &[0; 4]).as_str(),
        "Destination Unreachable - code: 4"
    );
    assert_eq!(
        icmpv6_type_parser(2, 0, &[0, 0, 5, 220]).as_str(),
        "Packet too big mtu = 1500 - code: 0"
    );
    assert_eq!(icmpv6_type_parser(3, 1, &[0; 4]).as_str(), "Time exceeded - code: 1");
    assert_eq!(
        icmpv6_type_parser(4, 10, &[0; 4]).as_str(),
        "Parameter problem - code: 10"
    );
    assert_eq!(icmpv6_type_parser(128, 0, &[0; 4]).as_str(), "Echo request - code: 0");
    assert_eq!(icmpv6_type_parser(129, 0, &[0; 4]).as_str(), "Echo reply - code: 0");
    assert_eq!(
        icmpv6_type_parser(130, 0, &[0; 4]).as_str(),
        "Unknown, type: 130, code: 0"
    );
}

/// A reply whose single answer record declares a data length of zero for an
/// address record: its address read is not covered by the record.
fn truncated_a_record_payload() -> Vec<u8> {
    let mut p = vec![
        0x00, 0x01, // id
        0x80, 0x00, // flags: response
        0x00, 0x00, // no questions
        0x00, 0x01, // one answer
        0x00, 0x00, // no name servers
        0x00, 0x00, // no additional records
    ];
    p.extend_from_slice(&[0x00]); // root name
    p.extend_from_slice(&[0x00, 0x01]); // type A
    p.extend_from_slice(&[0x00, 0x01]); // class IN
    p.extend_from_slice(&[0x00, 0x00, 0x00, 0x00]); // ttl
    p.extend_from_slice(&[0x00, 0x00]); // declared data length: zero
    p
}

/// The same reply with the four address bytes its record claims.
fn wellformed_a_record_payload() -> Vec<u8> {
    let mut p = truncated_a_record_payload();
    let len = p.len();
    p[len - 1] = 0x04; // declared data length: four
    p.extend_from_slice(&[1, 2, 3, 4]);
    p
}

#[test]
fn truncated_record_is_refused_before_parsing() {
    let refused = parse_dns(&truncated_a_record_payload())
        .expect_err("an uncovered record read must be refused");
    assert_eq!(
        refused.as_str(),
        "DNS payload refused: unsupported name or record encoding"
    );
    assert!(!dns_failure_is_benign(&refused));

    // The same payload arriving on the wire surfaces the refusal as a
    // DNS failure and folds nothing DNS-related.
    let frame = build_udp_frame(53, 3000, &truncated_a_record_payload());
    let d = decode_packet(&frame);
    assert!(d.dns.is_none());
    assert_eq!(
        d.dns_failure.as_deref(),
        Some("DNS payload refused: unsupported name or record encoding")
    );
}

#[test]
fn wellformed_answer_record_still_parses() {
    let dns = parse_dns(&wellformed_a_record_payload()).expect("a covered answer record parses");
    assert_eq!(dns.responses.len(), 1);
    assert_eq!(dns.response_class.as_str(), "[IN]");
    assert_eq!(dns.response_code.as_str(), "NoError");
}

/// A query whose single question name holds a one-byte label that is not
/// valid UTF-8: the parser would accept it but could not render it.
fn non_utf8_name_payload() -> Vec<u8> {
    let mut p = vec![
        0x00, 0x02, // id
        0x01, 0x00, // flags: standard query
        0x00, 0x01, // one question
        0x00, 0x00, // no answers
        0x00, 0x00, // no name servers
        0x00, 0x00, // no additional records
    ];
    p.extend_from_slice(&[0x01, 0xFF, 0x00]); // one label: the byte 0xFF
    p.extend_from_slice(&[0x00, 0x01]); // type A
    p.extend_from_slice(&[0x00, 0x01]); // class IN
    p
}

#[test]
fn non_utf8_name_is_refused_before_parsing() {
    let refused = parse_dns(&non_utf8_name_payload())
        .expect_err("a name that cannot be rendered must be refused");
    assert_eq!(refused.as_str(), "DNS payload refused: unsupported name or record encoding");
    assert!(!dns_failure_is_benign(&refused));

    let frame = build_udp_frame(1000, 53, &non_utf8_name_payload());
    let d = decode_packet(&frame);
    assert!(d.dns.is_none());
    assert_eq!(
        d.dns_failure.as_deref(),
        Some("DNS payload refused: unsupported name or record encoding")
    );
}

#[test]
fn utf8_name_still_parses() {
    // One label holding the two-byte UTF-8 encoding of a non-ASCII letter.
    let mut p = vec![
        0x00, 0x03, // id
        0x01, 0x00, // flags: standard query
        0x00, 0x01, // one question
        0x00, 0x00, // no answers
        0x00, 0x00, // no name servers
        0x00, 0x00, // no additional records
    ];
    p.extend_from_slice(&[0x02, 0xC3, 0xA9, 0x00]);
    p.extend_from_slice(&[0x00, 0x01]); // type A
    p.extend_from_slice(&[0x00, 0x01]); // class IN
    let dns = parse_dns(&p).expect("a renderable name parses");
    assert_eq!(dns.queries.len(), 1);
    assert_eq!(dns.queries[0].as_str(), "\u{e9}");
}

#[test]
fn parse_dns_directly() {
    let ok = parse_dns(&dns_query_payload()).expect("the query parses");
    assert_eq!(ok.id, 0x1234);
    assert_eq!(ok.queries, vec!["example.com".to_string()]);
    let err = parse_dns(&dns_query_payload_qtype65()).expect_err("question type 65 is rejected");
    assert_eq!(err.as_str(), "Provided QType is invalid: 65");
    let truncated = parse_dns(&vec![0u8, 1, 2]).is_err();
    assert!(truncated);
}

#[test]
fn two_connections_keep_arrival_order() {
    let mut table = ReportTable::new();
    let first = build_udp_frame(1111, 2222, b"x");
    let second = build_udp_frame(3333, 4444, b"y");
    parse_packet(&first, 1, 10, &mut table);
    parse_packet(&second, 2, 20, &mut table);
    parse_packet(&first, 3, 30, &mut table);
    assert_eq!(table.len(), 2);
    let entries = table.drain();
    assert_eq!(entries[0].0.first_pair.1.as_str(), "1111");
    assert_eq!(entries[0].1.total_bytes(), 40);
    assert_eq!(entries[1].0.first_pair.1.as_str(), "3333");
    assert_eq!(entries[1].1.total_bytes(), 20);
}

#[test]
fn parse_packet_folds_only_complete_frames() {
    let mut table = ReportTable::new();

    // A frame that does not slice at all changes nothing.
    let garbage = vec![1u8, 2, 3];
    assert!(parse_packet(&garbage, 1, 3, &mut table).is_none());
    assert_eq!(table.len(), 0);

    let frame = build_udp_frame(1000, 2000, b"hello");
    assert!(parse_packet(&frame, 1000, 60, &mut table).is_none());
    assert_eq!(table.len(), 1);
    let entries = table.drain();
    let (pair, rep) = &entries[0];
    assert_eq!(pair.first_pair.0.as_str(), "10.0.0.1");
    assert_eq!(pair.first_pair.1.as_str(), "1000");
    assert_eq!(pair.second_pair.0.as_str(), "10.0.0.2");
    assert_eq!(pair.second_pair.1.as_str(), "2000");
    assert_eq!(rep.total_bytes(), 60);
    assert_eq!(rep.network_layer_protocols().as_str(), "IPv4");
    let transports = rep.transport_layer_protocols();
    assert_eq!(transports.len(), 1);
    assert_eq!(transports[0].as_str(), "UDP");
}
