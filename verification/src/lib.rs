//! Verified packet-forwarding logic of a TUN benchmarking tool.
pub mod buf;
pub mod offload;
pub mod batch;
pub mod packet;
pub mod config;
