use ebpf_ipv6::extract_flow;
use ebpf_ipv6::headers::{
    extract_tcp, ETHER_TYPE_IPV6, ETH_HDR_LEN, IPPROTO_TCP, IPPROTO_UDP, IPV6_HDR_LEN,
    TCP_HDR_LEN, UDP_HDR_LEN,
};
use network_types::eth::{EthHdr, EtherType};
use network_types::ip::{IpProto, Ipv6Hdr};
use network_types::tcp::TcpHdr;
use network_types::udp::UdpHdr;

#[test]
fn header_sizes_match_network_types() {
    assert_eq!(ETH_HDR_LEN, EthHdr::LEN);
    assert_eq!(IPV6_HDR_LEN, Ipv6Hdr::LEN);
    assert_eq!(TCP_HDR_LEN, TcpHdr::LEN);
    assert_eq!(UDP_HDR_LEN, UdpHdr::LEN);
}

#[test]
fn protocol_tags_match_network_types() {
    assert_eq!(u16::from_be(EtherType::Ipv6 as u16), ETHER_TYPE_IPV6);
    assert_eq!(IpProto::Tcp as u8, IPPROTO_TCP);
    assert_eq!(IpProto::Udp as u8, IPPROTO_UDP);
}

fn ipv6_hdr(next: IpProto) -> Ipv6Hdr {
    Ipv6Hdr {
        vcf: [0x60, 0, 0, 0],
        payload_len: 20u16.to_be_bytes(),
        next_hdr: next as u8,
        hop_limit: 64,
        src_addr: 0x2001_0db8_0000_0000_0000_0000_0000_0001u128.to_be_bytes(),
        dst_addr: 0x2001_0db8_0000_0000_0000_0000_0000_0002u128.to_be_bytes(),
    }
}

fn frame_prefix(ip: &Ipv6Hdr) -> Vec<u8> {
    let eth = EthHdr::new([2, 0, 0, 0, 0, 1], [2, 0, 0, 0, 0, 2], EtherType::Ipv6);
    let mut f = Vec::new();
    f.extend_from_slice(&eth.dst_addr);
    f.extend_from_slice(&eth.src_addr);
    f.extend_from_slice(&eth.ether_type.to_ne_bytes());
    f.extend_from_slice(&ip.vcf);
    f.extend_from_slice(&ip.payload_len);
    f.push(ip.next_hdr);
    f.push(ip.hop_limit);
    f.extend_from_slice(&ip.src_addr);
    f.extend_from_slice(&ip.dst_addr);
    f
}

#[test]
fn tcp_fields_agree_with_network_types_accessors() {
    let ip = ipv6_hdr(IpProto::Tcp);
    let bits = TcpHdr::new_bitfield_1(0, 5, 0, 1, 0, 1, 1, 0, 0, 1);
    let hdr = TcpHdr {
        source: 443u16.to_be_bytes(),
        dest: 51000u16.to_be_bytes(),
        seq: [0, 0, 0, 7],
        ack_seq: [0, 0, 0, 9],
        _bitfield_align_1: [],
        _bitfield_1: bits,
        window: 64240u16.to_be_bytes(),
        check: [0, 0],
        urg_ptr: [0, 0],
    };
    let mut frame = frame_prefix(&ip);
    frame.extend_from_slice(&hdr.source);
    frame.extend_from_slice(&hdr.dest);
    frame.extend_from_slice(&hdr.seq);
    frame.extend_from_slice(&hdr.ack_seq);
    frame.push(hdr._bitfield_1.get(0, 8) as u8);
    frame.push(hdr._bitfield_1.get(8, 8) as u8);
    frame.extend_from_slice(&hdr.window);
    frame.extend_from_slice(&hdr.check);
    frame.extend_from_slice(&hdr.urg_ptr);
    assert_eq!(frame.len(), 74);

    let t = extract_tcp(&frame).unwrap();
    assert_eq!(t.header_length, 4 * hdr.doff() as u32);
    assert_eq!(t.fin_flag as u16, hdr.fin());
    assert_eq!(t.syn_flag as u16, hdr.syn());
    assert_eq!(t.rst_flag as u16, hdr.rst());
    assert_eq!(t.psh_flag as u16, hdr.psh());
    assert_eq!(t.ack_flag as u16, hdr.ack());
    assert_eq!(t.urg_flag as u16, hdr.urg());
    assert_eq!(t.ece_flag as u16, hdr.ece());
    assert_eq!(t.cwe_flag as u16, hdr.cwr());

    let r = extract_flow(&frame).unwrap();
    assert_eq!(r.ipv6_source, u128::from(ip.src_addr()));
    assert_eq!(r.ipv6_destination, u128::from(ip.dst_addr()));
    assert_eq!(r.port_source, 443);
    assert_eq!(r.port_destination, 51000);
    assert_eq!(r.window_size, 64240);
    assert_eq!((r.syn_flag, r.psh_flag, r.ack_flag, r.cwe_flag), (1, 1, 1, 1));
}

#[test]
fn udp_ports_agree_with_network_types_accessors() {
    let ip = ipv6_hdr(IpProto::Udp);
    let hdr = UdpHdr {
        src: 53u16.to_be_bytes(),
        dst: 33000u16.to_be_bytes(),
        len: 20u16.to_be_bytes(),
        check: [0, 0],
    };
    let mut frame = frame_prefix(&ip);
    frame.extend_from_slice(&hdr.src);
    frame.extend_from_slice(&hdr.dst);
    frame.extend_from_slice(&hdr.len);
    frame.extend_from_slice(&hdr.check);
    frame.extend_from_slice(&[0u8; 12]);
    let r = extract_flow(&frame).unwrap();
    assert_eq!(r.port_source, hdr.src_port());
    assert_eq!(r.port_destination, hdr.dst_port());
    assert_eq!(r.protocol, IpProto::Udp as u8);
    assert_eq!(r.header_length as usize, UdpHdr::LEN);
}
