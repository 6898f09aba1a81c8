//! Link, network and transport header interpretation.
use vstd::prelude::*;
use crate::reader::{be16, be128, header_at, FlowError};

verus! {

/// Size of an Ethernet II header.
pub const ETH_HDR_LEN: usize = 14;

/// Size of the fixed IPv6 header.
pub const IPV6_HDR_LEN: usize = 40;

/// Size of a TCP header without options.
pub const TCP_HDR_LEN: usize = 20;

/// Size of a UDP header.
pub const UDP_HDR_LEN: usize = 8;

/// Offset of the transport header in a frame.
pub const TRANSPORT_OFFSET: usize = ETH_HDR_LEN + IPV6_HDR_LEN;

/// Ether-type of IPv6, as it reads in host order.
pub const ETHER_TYPE_IPV6: u16 = 0x86DD;

/// IPv6 next-header tag of TCP.
pub const IPPROTO_TCP: u8 = 6;

/// IPv6 next-header tag of UDP.
pub const IPPROTO_UDP: u8 = 17;

/// What the Ethernet and IPv6 headers say of a frame that carries TCP or UDP.
#[derive(Clone, Copy, Debug, PartialEq, Eq, Structural)]
pub struct NetworkHeader {
    pub source_address: u128,
    pub destination_address: u128,
    /// `IPPROTO_TCP` or `IPPROTO_UDP`.
    pub protocol: u8,
}

/// What the transport header says of a frame.
#[derive(Clone, Copy, Debug, PartialEq, Eq, Structural)]
pub struct TransportHeader {
    pub source_port: u16,
    pub destination_port: u16,
    /// Length of the transport header in bytes.
    pub header_length: u32,
    pub fin_flag: u8,
    pub syn_flag: u8,
    pub rst_flag: u8,
    pub psh_flag: u8,
    pub ack_flag: u8,
    pub urg_flag: u8,
    pub cwe_flag: u8,
    pub ece_flag: u8,
    pub window_size: u16,
}

/// The `n` bytes of `f` that start at `off`.
pub open spec fn window(f: Seq<u8>, off: int, n: int) -> Seq<u8> {
    f.subrange(off, off + n)
}

/// Bit `k` of `b`, as 0 or 1.
pub open spec fn bit(b: u8, k: u8) -> u8 {
    (b >> k) & 1
}

/// The ether-type of a frame of at least `ETH_HDR_LEN` bytes.
pub open spec fn ether_type(f: Seq<u8>) -> u16 {
    be16(f, 12)
}

/// The IPv6 next-header tag of a frame of at least `TRANSPORT_OFFSET` bytes.
pub open spec fn next_header(f: Seq<u8>) -> u8 {
    f[ETH_HDR_LEN + 6]
}

/// Outcome of reading the Ethernet and IPv6 headers of `f`.
pub open spec fn classify_spec(f: Seq<u8>) -> Result<NetworkHeader, FlowError> {
    if f.len() < ETH_HDR_LEN {
        Err(FlowError::OutOfBounds)
    } else if ether_type(f) != ETHER_TYPE_IPV6 {
        Err(FlowError::Inapplicable)
    } else if f.len() < TRANSPORT_OFFSET {
        Err(FlowError::OutOfBounds)
    } else if next_header(f) != IPPROTO_TCP && next_header(f) != IPPROTO_UDP {
        Err(FlowError::Inapplicable)
    } else {
        let ip = window(f, ETH_HDR_LEN as int, IPV6_HDR_LEN as int);
        Ok(
            NetworkHeader {
                source_address: be128(ip, 8),
                destination_address: be128(ip, 24),
                protocol: next_header(f),
            },
        )
    }
}

/// Outcome of reading a TCP header after the IPv6 header of `f`.
pub open spec fn tcp_spec(f: Seq<u8>) -> Result<TransportHeader, FlowError> {
    if f.len() < TRANSPORT_OFFSET + TCP_HDR_LEN {
        Err(FlowError::OutOfBounds)
    } else {
        let t = window(f, TRANSPORT_OFFSET as int, TCP_HDR_LEN as int);
        Ok(
            TransportHeader {
                source_port: be16(t, 0),
                destination_port: be16(t, 2),
                header_length: (4 * (t[12] >> 4)) as u32,
                fin_flag: bit(t[13], 0),
                syn_flag: bit(t[13], 1),
                rst_flag: bit(t[13], 2),
                psh_flag: bit(t[13], 3),
                ack_flag: bit(t[13], 4),
                urg_flag: bit(t[13], 5),
                ece_flag: bit(t[13], 6),
                cwe_flag: bit(t[13], 7),
                window_size: be16(t, 14),
            },
        )
    }
}

/// Outcome of reading a UDP header after the IPv6 header of `f`.
pub open spec fn udp_spec(f: Seq<u8>) -> Result<TransportHeader, FlowError> {
    if f.len() < TRANSPORT_OFFSET + UDP_HDR_LEN {
        Err(FlowError::OutOfBounds)
    } else {
        let u = window(f, TRANSPORT_OFFSET as int, UDP_HDR_LEN as int);
        Ok(
            TransportHeader {
                source_port: be16(u, 0),
                destination_port: be16(u, 2),
                header_length: UDP_HDR_LEN as u32,
                fin_flag: 0,
                syn_flag: 0,
                rst_flag: 0,
                psh_flag: 0,
                ack_flag: 0,
                urg_flag: 0,
                ece_flag: 0,
                cwe_flag: 0,
                window_size: 0,
            },
        )
    }
}

/// Bit `k` of `b`, as 0 or 1.
pub fn flag_bit(b: u8, k: u8) -> (r: u8)
    requires
        k < 8,
    ensures
        r == bit(b, k),
        r <= 1,
{
    let r = (b >> k) & 1;
    assert(r <= 1) by (bit_vector)
        requires
            r == (b >> k) & 1,
    ;
    r
}

/// Reads the Ethernet header, then the IPv6 header, of `frame`: the addresses
/// and the transport tag where the frame is IPv6 carrying TCP or UDP.
pub fn classify(frame: &[u8]) -> (r: Result<NetworkHeader, FlowError>)
    ensures
        r == classify_spec(frame@),
{
    let eth = match header_at(frame, 0, ETH_HDR_LEN) {
        Ok(v) => v,
        Err(e) => return Err(e),
    };
    if eth.be_u16(12) != ETHER_TYPE_IPV6 {
        return Err(FlowError::Inapplicable);
    }
    let ip = match header_at(frame, ETH_HDR_LEN, IPV6_HDR_LEN) {
        Ok(v) => v,
        Err(e) => return Err(e),
    };
    let next = ip.byte(6);
    if next != IPPROTO_TCP && next != IPPROTO_UDP {
        return Err(FlowError::Inapplicable);
    }
    Ok(
        NetworkHeader {
            source_address: ip.be_u128(8),
            destination_address: ip.be_u128(24),
            protocol: next,
        },
    )
}

/// Reads the TCP header that follows the IPv6 header of `frame`.
pub fn extract_tcp(frame: &[u8]) -> (r: Result<TransportHeader, FlowError>)
    ensures
        r == tcp_spec(frame@),
{
    let tcp = match header_at(frame, TRANSPORT_OFFSET, TCP_HDR_LEN) {
        Ok(v) => v,
        Err(e) => return Err(e),
    };
    let data_offset = tcp.byte(12) >> 4;
    let flags = tcp.byte(13);
    Ok(
        TransportHeader {
            source_port: tcp.be_u16(0),
            destination_port: tcp.be_u16(2),
            header_length: 4 * data_offset as u32,
            fin_flag: flag_bit(flags, 0),
            syn_flag: flag_bit(flags, 1),
            rst_flag: flag_bit(flags, 2),
            psh_flag: flag_bit(flags, 3),
            ack_flag: flag_bit(flags, 4),
            urg_flag: flag_bit(flags, 5),
            ece_flag: flag_bit(flags, 6),
            cwe_flag: flag_bit(flags, 7),
            window_size: tcp.be_u16(14),
        },
    )
}

/// Reads the UDP header that follows the IPv6 header of `frame`.
pub fn extract_udp(frame: &[u8]) -> (r: Result<TransportHeader, FlowError>)
    ensures
        r == udp_spec(frame@),
{
    let udp = match header_at(frame, TRANSPORT_OFFSET, UDP_HDR_LEN) {
        Ok(v) => v,
        Err(e) => return Err(e),
    };
    Ok(
        TransportHeader {
            source_port: udp.be_u16(0),
            destination_port: udp.be_u16(2),
            header_length: UDP_HDR_LEN as u32,
            fin_flag: 0,
            syn_flag: 0,
            rst_flag: 0,
            psh_flag: 0,
            ack_flag: 0,
            urg_flag: 0,
            ece_flag: 0,
            cwe_flag: 0,
            window_size: 0,
        },
    )
}

} // verus!
