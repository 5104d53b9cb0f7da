[package]
name = "packet_sniffer"
version = "0.1.0"
edition = "2021"
publish = false

[dependencies]
etherparse = "0.13"
simple-dns = "0.5"
chrono = "0.4"
pcap = "*"
clap = { version = "4", features = ["derive"] }
