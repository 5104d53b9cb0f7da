use std::collections::hash_map::DefaultHasher;
use std::hash::Hash;
use std::hash::Hasher;

use packet_sniffer::devices::parse_network_adapter;
use packet_sniffer::devices::DeviceDescriptor;
use packet_sniffer::errors::Errors;
use packet_sniffer::errors::PacketSnifferError;
use packet_sniffer::filter::Filter;
use packet_sniffer::key::AddressPortPair;
use packet_sniffer::link::linkinfo_tostring;
use packet_sniffer::link::mac_address_to_string;
use packet_sniffer::link::LinkInfo;
use packet_sniffer::link::MacAddress;
use packet_sniffer::network::ipv4_to_string;
use packet_sniffer::network::ipv6_to_string;
use packet_sniffer::text::u64_to_decimal;

fn hash_of(k: &AddressPortPair) -> u64 {
    let mut h = DefaultHasher::new();
    k.hash(&mut h);
    h.finish()
}

#[test]
fn key_symmetry() {
    let a = AddressPortPair::new(
        "10.0.0.1".to_string(),
        "5000".to_string(),
        "10.0.0.2".to_string(),
        "80".to_string(),
    );
    let b = AddressPortPair::new(
        "10.0.0.2".to_string(),
        "80".to_string(),
        "10.0.0.1".to_string(),
        "5000".to_string(),
    );
    assert_eq!(a, b);
    assert_eq!(hash_of(&a), hash_of(&b));
    assert_eq!(a.first_pair, b.first_pair);
    assert_eq!(a.second_pair, b.second_pair);
}

#[test]
fn key_symmetry_same_address() {
    let a = AddressPortPair::new(
        "10.0.0.1".to_string(),
        "9".to_string(),
        "10.0.0.1".to_string(),
        "10".to_string(),
    );
    let b = AddressPortPair::new(
        "10.0.0.1".to_string(),
        "10".to_string(),
        "10.0.0.1".to_string(),
        "9".to_string(),
    );
    assert_eq!(a, b);
    assert_eq!(hash_of(&a), hash_of(&b));
}

#[test]
fn key_distinct_connections_differ() {
    let a = AddressPortPair::new(
        "10.0.0.1".to_string(),
        "5000".to_string(),
        "10.0.0.2".to_string(),
        "80".to_string(),
    );
    let c = AddressPortPair::new(
        "10.0.0.1".to_string(),
        "5001".to_string(),
        "10.0.0.2".to_string(),
        "80".to_string(),
    );
    assert_ne!(a, c);
}

#[test]
fn decimal_rendering() {
    assert_eq!(u64_to_decimal(0).as_str(), "0");
    assert_eq!(u64_to_decimal(7).as_str(), "7");
    assert_eq!(u64_to_decimal(12345).as_str(), "12345");
    assert_eq!(u64_to_decimal(18446744073709551615).as_str(), "18446744073709551615");
}

#[test]
fn mac_rendering() {
    let m = MacAddress::new([0xAA, 0xBB, 0x0C, 0x1D, 0x2E, 0x3F]);
    assert_eq!(mac_address_to_string(m).as_str(), "AA:BB:0C:1D:2E:3F");
    let z = MacAddress::new([0, 0, 0, 0, 0, 0]);
    assert_eq!(mac_address_to_string(z).as_str(), "00:00:00:00:00:00");
}

#[test]
fn ipv4_rendering() {
    assert_eq!(ipv4_to_string(&[192, 168, 1, 2]).as_str(), "192.168.1.2");
    assert_eq!(ipv4_to_string(&[0, 0, 0, 0]).as_str(), "0.0.0.0");
    assert_eq!(ipv4_to_string(&[255, 255, 255, 255]).as_str(), "255.255.255.255");
}

#[test]
fn ipv6_rendering() {
    let mut unspecified = [0u8; 16];
    assert_eq!(ipv6_to_string(&unspecified).as_str(), "::");
    unspecified[15] = 1;
    assert_eq!(ipv6_to_string(&unspecified).as_str(), "::1");

    let doc = [0x20, 0x01, 0x0d, 0xb8, 0, 0, 0, 0, 0, 0, 0, 0, 0, 0, 0, 1];
    assert_eq!(ipv6_to_string(&doc).as_str(), "2001:db8::1");

    let mapped = [0, 0, 0, 0, 0, 0, 0, 0, 0, 0, 0xff, 0xff, 192, 0, 2, 1];
    assert_eq!(ipv6_to_string(&mapped).as_str(), "::ffff:192.0.2.1");

    // A single zero group is not compressed.
    let single = [
        0x20, 0x01, 0x0d, 0xb8, 0, 0, 0, 1, 0, 1, 0, 1, 0, 1, 0, 1,
    ];
    assert_eq!(ipv6_to_string(&single).as_str(), "2001:db8:0:1:1:1:1:1");

    // Of two equally long runs, the first is compressed.
    let tie = [0, 1, 0, 0, 0, 0, 0, 2, 0, 0, 0, 0, 0, 3, 0, 4];
    assert_eq!(ipv6_to_string(&tie).as_str(), "1::2:0:0:3:4");

    // The longer run wins even when it comes second.
    let longer_second = [
        0x20, 0x01, 0, 0, 0, 0, 0, 1, 0, 0, 0, 0, 0, 0, 0, 1,
    ];
    assert_eq!(ipv6_to_string(&longer_second).as_str(), "2001:0:0:1::1");
}

#[test]
fn error_messages() {
    assert_eq!(
        PacketSnifferError::InvalidInterval(50).message().as_str(),
        "Error: Invalid Interval value: 50, interval must be greater than 100 ms"
    );
    assert_eq!(
        PacketSnifferError::FileError("denied".to_string()).message().as_str(),
        "File error: denied"
    );
    assert_eq!(
        PacketSnifferError::InvalidCapture("eth9".to_string(), "no such device".to_string())
            .message()
            .as_str(),
        "Error: Possible invalid device name: eth9.\nDetailed error: no such device"
    );
    assert_eq!(
        PacketSnifferError::InactivableCapture("eth0".to_string(), "permission denied".to_string())
            .message()
            .as_str(),
        "Cannot capture from device: eth0, check if the name is correct or if you have permissions.\nDetailed error: permission denied"
    );
    assert_eq!(
        PacketSnifferError::UnavailableDeviceList("no permission".to_string()).message().as_str(),
        "Cannot get device list, check if you have permission or if there are available devices.\nDetailed error: no permission"
    );
    assert_eq!(
        PacketSnifferError::InvalidFilter("tcp or".to_string(), "syntax error".to_string())
            .message()
            .as_str(),
        "Invalid filter: tcp or, check https://biot.com/capstats/bpf.html to know the syntax.\nDetailed error: syntax error"
    );
    assert_eq!(
        Errors::InvalidInterval(50).message().as_str(),
        "Error: InvalidInterval(50)"
    );
}

#[test]
fn linkinfo_rendering_and_equality() {
    let li = LinkInfo {
        source_mac: [1, 2, 3, 4, 5, 6],
        destination_mac: [7, 8, 9, 10, 11, 12],
        ether_type: "2048".to_string(),
    };
    assert_eq!(
        linkinfo_tostring(&li).as_str(),
        "first mac address: 01:02:03:04:05:06 - second mac address: 07:08:09:0A:0B:0C - ether type: 2048"
    );
    let reversed = LinkInfo {
        source_mac: [7, 8, 9, 10, 11, 12],
        destination_mac: [1, 2, 3, 4, 5, 6],
        ether_type: "2048".to_string(),
    };
    assert_eq!(li, reversed);
    let other_type = LinkInfo {
        source_mac: [1, 2, 3, 4, 5, 6],
        destination_mac: [7, 8, 9, 10, 11, 12],
        ether_type: "2054".to_string(),
    };
    assert_ne!(li, other_type);
}

#[test]
fn filter_composition() {
    let f = Filter::new(
        Some("1.2.3.4".to_string()),
        None,
        None,
        Some("80".to_string()),
        None,
        Some("tcp".to_string()),
        None,
        None,
    );
    assert_eq!(f.parse_filter().as_str(), "src host 1.2.3.4dst port 80tcp");

    let unsupported = Filter::new(
        None,
        None,
        None,
        None,
        None,
        Some("sctp".to_string()),
        None,
        None,
    );
    assert_eq!(unsupported.parse_filter().as_str(), "");
}

#[test]
fn device_listing() {
    let devs = vec![
        DeviceDescriptor {
            name: "eth0".to_string(),
            desc: Some("wired".to_string()),
            addresses: vec!["10.0.0.5".to_string(), "fe80::1".to_string()],
        },
        DeviceDescriptor {
            name: "\\Device\\NPF_1".to_string(),
            desc: None,
            addresses: vec![],
        },
    ];
    let listing = parse_network_adapter(&devs);
    let expected = [
        "1) eth0\n",
        "       -Description: wired\n",
        "       -Addresses:  10.0.0.5\n",
        "                    fe80::1\n",
        " \n",
        "2) \\\\Device\\\\NPF_1\n",
        "       -Description: No description available\n",
        "       -Addresses:   \n",
    ]
    .concat();
    assert_eq!(listing.text.as_str(), expected.as_str());
    assert_eq!(listing.names.len(), 2);
    assert_eq!(listing.names[0].as_str(), "eth0");
    assert_eq!(listing.names[1].as_str(), "\\\\Device\\\\NPF_1");
}
