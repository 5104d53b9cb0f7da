//! A verified packet-sniffing library: raw frames are decoded layer by layer
//! (link, network, transport, and — for UDP traffic on port 53 — DNS), grouped
//! by an order-independent connection key, folded into per-connection flow
//! aggregates, and periodically rendered as a textual report.
//!
//! Capture devices, worker threads and file output live outside this crate;
//! the crate holds the decoding, aggregation and control logic, each function
//! carrying a contract that pins its result down.

pub mod args;
pub mod capture;
pub mod devices;
pub mod dns;
pub mod dns_wire;
pub mod engine;
pub mod errors;
pub mod facts;
pub mod filter;
pub mod key;
pub mod link;
pub mod network;
pub mod report;
pub mod table;
pub mod text;
pub mod transport;
