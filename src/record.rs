//! The flow-feature record and its assembly.
use vstd::prelude::*;
use crate::headers::{NetworkHeader, TransportHeader, ETH_HDR_LEN, IPV6_HDR_LEN};

verus! {

/// Largest transport header length that a TCP data offset can give.
pub const MAX_TRANSPORT_HDR_LEN: usize = 60;

/// Largest captured frame whose record lengths fit in 32 bits.
pub const MAX_FRAME_LEN: usize = 0xFFFF_FFFF - MAX_TRANSPORT_HDR_LEN - IPV6_HDR_LEN - ETH_HDR_LEN;

/// Flow features of one IPv6 TCP or UDP frame, in the fixed layout that the
/// consumer decodes.
///
/// The `*_flag` fields are the control bits of this one packet, each 0 or 1;
/// the names do not denote counters.
#[derive(Clone, Copy, Debug, PartialEq, Eq, Structural)]
pub struct BasicFeaturesIpv6 {
    pub ipv6_source: u128,
    pub ipv6_destination: u128,
    pub port_source: u16,
    pub port_destination: u16,
    pub protocol: u8,
    pub fin_flag: u8,
    pub syn_flag: u8,
    pub rst_flag: u8,
    pub psh_flag: u8,
    pub ack_flag: u8,
    pub urg_flag: u8,
    pub cwe_flag: u8,
    pub ece_flag: u8,
    /// The captured length of the whole frame, headers included.
    pub data_length: u32,
    pub header_length: u32,
    /// `data_length + header_length + IPV6_HDR_LEN + ETH_HDR_LEN`.
    pub length: u32,
    pub window_size: u16,
}

/// The record made of a network header, a transport header and a data length.
pub open spec fn assemble_spec(
    net: NetworkHeader,
    tr: TransportHeader,
    data_length: u32,
) -> BasicFeaturesIpv6 {
    BasicFeaturesIpv6 {
        ipv6_source: net.source_address,
        ipv6_destination: net.destination_address,
        port_source: tr.source_port,
        port_destination: tr.destination_port,
        protocol: net.protocol,
        fin_flag: tr.fin_flag,
        syn_flag: tr.syn_flag,
        rst_flag: tr.rst_flag,
        psh_flag: tr.psh_flag,
        ack_flag: tr.ack_flag,
        urg_flag: tr.urg_flag,
        cwe_flag: tr.cwe_flag,
        ece_flag: tr.ece_flag,
        data_length,
        header_length: tr.header_length,
        length: (data_length + tr.header_length + IPV6_HDR_LEN + ETH_HDR_LEN) as u32,
        window_size: tr.window_size,
    }
}

/// Packs the extracted scalars into one record.
pub fn assemble(net: &NetworkHeader, tr: &TransportHeader, data_length: u32) -> (r:
    BasicFeaturesIpv6)
    requires
        data_length + tr.header_length + IPV6_HDR_LEN + ETH_HDR_LEN <= u32::MAX,
    ensures
        r == assemble_spec(*net, *tr, data_length),
{
    BasicFeaturesIpv6 {
        ipv6_source: net.source_address,
        ipv6_destination: net.destination_address,
        port_source: tr.source_port,
        port_destination: tr.destination_port,
        protocol: net.protocol,
        fin_flag: tr.fin_flag,
        syn_flag: tr.syn_flag,
        rst_flag: tr.rst_flag,
        psh_flag: tr.psh_flag,
        ack_flag: tr.ack_flag,
        urg_flag: tr.urg_flag,
        cwe_flag: tr.cwe_flag,
        ece_flag: tr.ece_flag,
        data_length,
        header_length: tr.header_length,
        length: data_length + tr.header_length + IPV6_HDR_LEN as u32 + ETH_HDR_LEN as u32,
        window_size: tr.window_size,
    }
}

} // verus!
