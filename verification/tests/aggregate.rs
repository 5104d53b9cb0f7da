use packet_sniffer::engine::CaptureEngine;
use packet_sniffer::errors::PacketSnifferError;
use packet_sniffer::key::AddressPortPair;
use packet_sniffer::link::LinkInfo;
use packet_sniffer::report::Report;
use packet_sniffer::table::empty_report;
use packet_sniffer::table::render_report;
use packet_sniffer::table::ReportTable;

fn sample_link() -> LinkInfo {
    LinkInfo {
        source_mac: [1, 2, 3, 4, 5, 6],
        destination_mac: [7, 8, 9, 10, 11, 12],
        ether_type: "2048".to_string(),
    }
}

fn key_forward() -> AddressPortPair {
    AddressPortPair::new(
        "10.0.0.1".to_string(),
        "5000".to_string(),
        "10.0.0.2".to_string(),
        "80".to_string(),
    )
}

fn key_reverse() -> AddressPortPair {
    AddressPortPair::new(
        "10.0.0.2".to_string(),
        "80".to_string(),
        "10.0.0.1".to_string(),
        "5000".to_string(),
    )
}

#[test]
fn two_packets_one_flow() {
    let mut table = ReportTable::new();
    table.fold_packet(
        key_forward(),
        1000,
        100,
        "TCP".to_string(),
        "IPv4".to_string(),
        sample_link(),
        "".to_string(),
        "".to_string(),
    );
    table.fold_packet(
        key_reverse(),
        1005,
        200,
        "TCP".to_string(),
        "IPv4".to_string(),
        sample_link(),
        "".to_string(),
        "".to_string(),
    );
    assert_eq!(table.len(), 1);
    let entries = table.drain();
    let (_, rep) = &entries[0];
    assert_eq!(rep.total_bytes(), 300);
    assert_eq!(rep.first_ts(), 1000);
    assert_eq!(rep.last_ts(), 1005);
    let transports = rep.transport_layer_protocols();
    assert_eq!(transports.len(), 1);
    assert_eq!(transports[0].as_str(), "TCP");
    assert_eq!(rep.network_layer_protocols().as_str(), "IPv4");
}

#[test]
fn aggregation_totals_and_sets() {
    let mut table = ReportTable::new();
    for (ts, bytes, tlp, icmp) in [
        (1005u64, 10u32, "TCP", ""),
        (1000, 20, "UDP", ""),
        (1010, 30, "TCP", ""),
        (1001, 40, "Icmpv4", "Echo Request - code: 0"),
    ] {
        table.fold_packet(
            key_forward(),
            ts,
            bytes,
            tlp.to_string(),
            "IPv4".to_string(),
            sample_link(),
            icmp.to_string(),
            "".to_string(),
        );
    }
    let entries = table.drain();
    assert_eq!(entries.len(), 1);
    let (_, rep) = &entries[0];
    assert_eq!(rep.total_bytes(), 100);
    assert_eq!(rep.first_ts(), 1000);
    assert_eq!(rep.last_ts(), 1010);
    let transports: Vec<&str> = rep.transport_layer_protocols().iter().map(|s| s.as_str()).collect();
    assert_eq!(transports, vec!["TCP", "UDP", "Icmpv4"]);
    let icmp: Vec<&str> = rep.icmp_info().iter().map(|s| s.as_str()).collect();
    assert_eq!(icmp, vec!["", "Echo Request - code: 0"]);
    let links = rep.link_layer_info();
    assert_eq!(links.len(), 1);
}

#[test]
fn report_new_then_update() {
    let mut rep = Report::new(
        1000,
        100,
        "TCP".to_string(),
        "IPv4".to_string(),
        sample_link(),
        "".to_string(),
        "".to_string(),
    );
    assert_eq!(rep.total_bytes(), 100);
    assert_eq!(rep.first_ts(), 1000);
    assert_eq!(rep.last_ts(), 1000);
    rep.update_report(
        900,
        50,
        "TCP".to_string(),
        "IPv6".to_string(),
        sample_link(),
        "".to_string(),
        "".to_string(),
    );
    assert_eq!(rep.total_bytes(), 150);
    assert_eq!(rep.first_ts(), 900);
    assert_eq!(rep.last_ts(), 1000);
    assert_eq!(rep.network_layer_protocols().as_str(), "IPv6");
    assert_eq!(rep.transport_layer_protocols().len(), 1);
}

#[test]
fn window_reset_after_flush() {
    let mut table = ReportTable::new();
    table.fold_packet(
        key_forward(),
        1000,
        100,
        "TCP".to_string(),
        "IPv4".to_string(),
        sample_link(),
        "".to_string(),
        "".to_string(),
    );
    let section = empty_report(&mut table);
    assert_eq!(table.len(), 0);
    assert!(section.contains("NEW REPORT: "));
    assert!(section.contains("-----Packets info-----"));

    // The same connection reappearing afterwards starts a brand-new
    // aggregate.
    table.fold_packet(
        key_forward(),
        2000,
        7,
        "TCP".to_string(),
        "IPv4".to_string(),
        sample_link(),
        "".to_string(),
        "".to_string(),
    );
    assert_eq!(table.len(), 1);
    let entries = table.drain();
    let (_, rep) = &entries[0];
    assert_eq!(rep.total_bytes(), 7);
    assert_eq!(rep.first_ts(), 2000);
    assert_eq!(rep.last_ts(), 2000);
}

#[test]
fn rendered_section_schema() {
    let mut table = ReportTable::new();
    table.fold_packet(
        key_forward(),
        1000,
        100,
        "TCP".to_string(),
        "IPv4".to_string(),
        sample_link(),
        "".to_string(),
        "".to_string(),
    );
    table.fold_packet(
        key_reverse(),
        1005,
        200,
        "TCP".to_string(),
        "IPv4".to_string(),
        sample_link(),
        "".to_string(),
        "".to_string(),
    );
    let entries = table.drain();
    let text = render_report(&entries, "2024-01-02 03:04:05");
    let expected = [
        "================================================\n",
        "NEW REPORT: 2024-01-02 03:04:05\n",
        "================================================\n\n",
        "-----Packets info-----\n",
        "First pair: 10.0.0.1; 5000\n",
        "Second pair: 10.0.0.2; 80\n",
        "First timestamp: 1000\n",
        "Last timestamp: 1005\n",
        "Total bytes: 300\n",
        "Transport layer protocol: TCP\n",
        "Network layer protocol: IPv4\n",
        "Link layer info:\n",
        "first mac address: 01:02:03:04:05:06 - second mac address: 07:08:09:0A:0B:0C - ether type: 2048 \n",
        "Icmp info:\n",
        " \n",
        "Dns info:\n",
        "\n\n",
    ]
    .concat();
    assert_eq!(text.as_str(), expected.as_str());
}

#[test]
fn start_rejects_short_interval() {
    let mut engine = CaptureEngine::new();
    let r = engine.capture("eth0".to_string(), "out.txt".to_string(), 50, None);
    match r {
        Err(PacketSnifferError::InvalidInterval(i)) => assert_eq!(i, 50),
        _ => panic!("a 50 ms interval must be rejected"),
    }
    // Nothing was started: neither packets nor flush ticks do anything.
    assert!(engine.on_packet(&vec![0u8; 4], 1, 1).is_none());
    assert!(engine.on_flush_tick().is_none());
}

#[test]
fn start_accepts_legal_interval() {
    let mut engine = CaptureEngine::new();
    let r = engine.capture("eth0".to_string(), "out.txt".to_string(), 100, None);
    assert!(r.is_ok());
    let flushed = engine.on_flush_tick();
    assert!(flushed.is_some());
    assert!(flushed.unwrap().contains("NEW REPORT: "));
}

#[test]
fn pause_blocks_folding_and_flushing() {
    let mut engine = CaptureEngine::new();
    engine
        .capture("eth0".to_string(), "out.txt".to_string(), 1000, None)
        .unwrap();
    engine.switch(true);
    // While paused, no flush happens at all.
    assert!(engine.on_flush_tick().is_none());
    // While paused, a packet is not folded: after resuming, the window is
    // still empty (the flushed section has no connection block).
    let frame = sample_tcp_frame();
    assert!(engine.on_packet(&frame, 1000, 100).is_none());
    engine.switch(false);
    let section = engine.on_flush_tick().expect("resumed engine flushes again");
    assert!(!section.contains("-----Packets info-----"));

    // Resuming really restarts capture: the same frame now lands in the
    // window.
    engine.on_packet(&frame, 1000, 100);
    let section2 = engine.on_flush_tick().expect("capturing engine flushes");
    assert!(section2.contains("-----Packets info-----"));
}

#[test]
fn stop_is_terminal() {
    let mut engine = CaptureEngine::new();
    engine
        .capture("eth0".to_string(), "out.txt".to_string(), 1000, None)
        .unwrap();
    engine.stop_capture();
    assert!(engine.on_flush_tick().is_none());
    assert!(engine.on_packet(&sample_tcp_frame(), 1, 1).is_none());
    // switch has no effect once stopped
    engine.switch(false);
    assert!(engine.on_flush_tick().is_none());
}

fn sample_tcp_frame() -> Vec<u8> {
    let builder = etherparse::PacketBuilder::ethernet2([1, 2, 3, 4, 5, 6], [7, 8, 9, 10, 11, 12])
        .ipv4([10, 0, 0, 1], [10, 0, 0, 2], 20)
        .tcp(5000, 80, 0, 1024);
    let payload = [0u8; 8];
    let mut packet = Vec::with_capacity(builder.size(payload.len()));
    builder.write(&mut packet, &payload).unwrap();
    packet
}
