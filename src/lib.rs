//! Per-frame flow-feature extraction for IPv6 TCP/UDP traffic.
//!
//! A frame is a byte slice holding an Ethernet II header, an IPv6 header and a
//! TCP or UDP header. Every header access goes through [`reader::header_at`],
//! which checks the window against the captured length.
pub mod headers;
pub mod hook;
pub mod reader;
pub mod record;
pub mod theorems;

pub use hook::{extract_flow, tc_flow_track, OUTPUT_FLAGS, TC_ACT_PIPE};
pub use reader::FlowError;
pub use record::BasicFeaturesIpv6;
