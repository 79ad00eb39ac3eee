//! Packet analysis and flow aggregation for a network traffic monitor.
//!
//! The library decodes captured packets into flow keys, classifies each flow
//! (direction, traffic type, upper-layer service), keeps the per-flow,
//! per-service and per-host aggregates, and runs the bookkeeping that makes
//! sure each remote address is resolved at most once.

pub mod address;
pub mod bogon;
pub mod types;
pub mod classify;
pub mod headers;
pub mod text;
pub mod analyze;
pub mod data_info;
pub mod service;
pub mod host;
pub mod assoc;
pub mod counts;
pub mod info_address_port_pair;
pub mod info_traffic;
pub mod resolution;
pub mod pipeline;
pub mod host_data_states;
pub mod session;
