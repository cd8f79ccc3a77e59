//! Network packet parsing and flow aggregation for a host-level security sensor.

pub mod bytes;
pub mod capture;
pub mod clock;
pub mod config;
pub mod detect;
pub mod enrichment;
pub mod entry;
pub mod error;
pub mod ethernet;
pub mod export;
pub mod ip;
pub mod key;
pub mod packet;
pub mod table;
pub mod tcp;
pub mod text;
pub mod udp;
