//! What holds of extraction over all frames.
use vstd::prelude::*;
use vstd::arithmetic::div_mod::{lemma_mod_breakdown, lemma_small_mod};
use crate::headers::{
    bit, ether_type, next_header, window, ETHER_TYPE_IPV6, ETH_HDR_LEN, IPPROTO_TCP, IPPROTO_UDP,
    IPV6_HDR_LEN, TCP_HDR_LEN, TRANSPORT_OFFSET,
};
use crate::hook::{emitted, extract_spec};
use crate::reader::{be128, be16, be_value, lemma_pow256_16, pow256, FlowError};
use crate::record::{BasicFeaturesIpv6, MAX_FRAME_LEN};

verus! {

/// The `n` low-order bytes of `x`, most significant first.
pub open spec fn be_bytes(x: nat, n: nat) -> Seq<u8>
    decreases n,
{
    if n == 0 {
        Seq::empty()
    } else {
        be_bytes(x / 256, (n - 1) as nat).push((x % 256) as u8)
    }
}

/// `n` zero bytes.
pub open spec fn zeros(n: nat) -> Seq<u8> {
    Seq::new(n, |i: int| 0u8)
}

/// The flags byte of a TCP header with the given control bits, each 0 or 1.
pub open spec fn flags_byte(
    fin: u8,
    syn: u8,
    rst: u8,
    psh: u8,
    ack: u8,
    urg: u8,
    ece: u8,
    cwr: u8,
) -> u8 {
    fin | (syn << 1) | (rst << 2) | (psh << 3) | (ack << 4) | (urg << 5) | (ece << 6) | (cwr << 7)
}

/// A frame of zero MAC addresses, an IPv6 header from `source` to
/// `destination` carrying TCP, a TCP header with the given ports, data offset,
/// flags byte and window, and then `payload`.
pub open spec fn tcp_frame(
    source: u128,
    destination: u128,
    source_port: u16,
    destination_port: u16,
    data_offset: u8,
    flags: u8,
    window_size: u16,
    payload: Seq<u8>,
) -> Seq<u8> {
    let eth = zeros(12) + be_bytes(ETHER_TYPE_IPV6 as nat, 2);
    let ip = seq![0x60u8, 0, 0, 0] + be_bytes(
        (TCP_HDR_LEN + payload.len()) as nat,
        2,
    ) + seq![IPPROTO_TCP, 64u8] + be_bytes(source as nat, 16) + be_bytes(destination as nat, 16);
    let tcp = be_bytes(source_port as nat, 2) + be_bytes(destination_port as nat, 2) + zeros(8)
        + seq![(data_offset << 4) as u8, flags] + be_bytes(window_size as nat, 2) + zeros(4);
    eth + ip + tcp + payload
}

pub proof fn lemma_pow256_pos(n: nat)
    ensures
        pow256(n) > 0,
    decreases n,
{
    if n > 0 {
        lemma_pow256_pos((n - 1) as nat);
    }
}

/// Reading `n` bytes back gives `x` modulo `256^n`.
pub proof fn lemma_be_bytes(x: nat, n: nat)
    ensures
        be_bytes(x, n).len() == n,
        be_value(be_bytes(x, n)) == x % pow256(n),
    decreases n,
{
    if n > 0 {
        let m = (n - 1) as nat;
        lemma_be_bytes(x / 256, m);
        lemma_pow256_pos(m);
        let s = be_bytes(x, n);
        assert(s.drop_last() =~= be_bytes(x / 256, m));
        lemma_mod_breakdown(x as int, 256, pow256(m) as int);
    } else {
        assert(x % 1 == 0);
    }
}

/// A big-endian 16-bit read is the value of its two bytes.
pub proof fn lemma_be16_value(s: Seq<u8>, i: int)
    requires
        0 <= i,
        i + 2 <= s.len(),
    ensures
        be16(s, i) as nat == be_value(s.subrange(i, i + 2)),
{
    let w = s.subrange(i, i + 2);
    assert(w.drop_last().drop_last() =~= Seq::<u8>::empty());
    assert(w.drop_last()[0] == s[i]);
    reveal_with_fuel(be_value, 3);
}

/// The bit `k` of a packed flags byte is the flag packed there.
pub proof fn lemma_flags_byte(
    fin: u8,
    syn: u8,
    rst: u8,
    psh: u8,
    ack: u8,
    urg: u8,
    ece: u8,
    cwr: u8,
)
    by (bit_vector)
    requires
        fin <= 1,
        syn <= 1,
        rst <= 1,
        psh <= 1,
        ack <= 1,
        urg <= 1,
        ece <= 1,
        cwr <= 1,
    ensures
        bit(flags_byte(fin, syn, rst, psh, ack, urg, ece, cwr), 0) == fin,
        bit(flags_byte(fin, syn, rst, psh, ack, urg, ece, cwr), 1) == syn,
        bit(flags_byte(fin, syn, rst, psh, ack, urg, ece, cwr), 2) == rst,
        bit(flags_byte(fin, syn, rst, psh, ack, urg, ece, cwr), 3) == psh,
        bit(flags_byte(fin, syn, rst, psh, ack, urg, ece, cwr), 4) == ack,
        bit(flags_byte(fin, syn, rst, psh, ack, urg, ece, cwr), 5) == urg,
        bit(flags_byte(fin, syn, rst, psh, ack, urg, ece, cwr), 6) == ece,
        bit(flags_byte(fin, syn, rst, psh, ack, urg, ece, cwr), 7) == cwr,
{
}

/// A frame too short to hold the Ethernet and IPv6 headers yields no record.
pub proof fn short_frame_emits_nothing(f: Seq<u8>)
    requires
        f.len() < TRANSPORT_OFFSET,
    ensures
        extract_spec(f) == Err::<BasicFeaturesIpv6, FlowError>(FlowError::OutOfBounds)
            || extract_spec(f) == Err::<BasicFeaturesIpv6, FlowError>(FlowError::Inapplicable),
        emitted(f) == Seq::<BasicFeaturesIpv6>::empty(),
{
}

/// A frame whose ether-type is not IPv6 yields no record.
pub proof fn non_ipv6_emits_nothing(f: Seq<u8>)
    requires
        f.len() >= ETH_HDR_LEN,
        ether_type(f) != ETHER_TYPE_IPV6,
    ensures
        extract_spec(f) == Err::<BasicFeaturesIpv6, FlowError>(FlowError::Inapplicable),
        emitted(f) == Seq::<BasicFeaturesIpv6>::empty(),
{
}

/// An IPv6 frame whose next header is neither TCP nor UDP yields no record.
pub proof fn other_transport_emits_nothing(f: Seq<u8>)
    requires
        f.len() >= TRANSPORT_OFFSET,
        ether_type(f) == ETHER_TYPE_IPV6,
        next_header(f) != IPPROTO_TCP,
        next_header(f) != IPPROTO_UDP,
    ensures
        extract_spec(f) == Err::<BasicFeaturesIpv6, FlowError>(FlowError::Inapplicable),
        emitted(f) == Seq::<BasicFeaturesIpv6>::empty(),
{
}

/// The header length of a TCP record is four times the high nibble of byte
/// 12 of the TCP header.
pub proof fn tcp_header_length_is_data_offset(f: Seq<u8>)
    requires
        extract_spec(f) is Ok,
        next_header(f) == IPPROTO_TCP,
    ensures
        extract_spec(f)->Ok_0.header_length == 4 * (f[TRANSPORT_OFFSET + 12] >> 4),
        extract_spec(f)->Ok_0.protocol == IPPROTO_TCP,
{
}

/// The length of every record is its data length plus its header length plus
/// the IPv6 and Ethernet header sizes, and its data length is the captured
/// length.
pub proof fn record_length_adds_up(f: Seq<u8>)
    requires
        f.len() <= MAX_FRAME_LEN,
        extract_spec(f) is Ok,
    ensures
        extract_spec(f)->Ok_0.length == extract_spec(f)->Ok_0.data_length
            + extract_spec(f)->Ok_0.header_length + IPV6_HDR_LEN + ETH_HDR_LEN,
        extract_spec(f)->Ok_0.data_length == f.len(),
{
    let b = f[TRANSPORT_OFFSET + 12];
    assert(4 * (b >> 4) <= 60) by (bit_vector);
}

/// Every flag of a record is 0 or 1, and a UDP record has no flags and no
/// window.
pub proof fn flags_are_bits(f: Seq<u8>)
    requires
        extract_spec(f) is Ok,
    ensures
        ({
            let r = extract_spec(f)->Ok_0;
            &&& r.fin_flag <= 1 && r.syn_flag <= 1 && r.rst_flag <= 1 && r.psh_flag <= 1
            &&& r.ack_flag <= 1 && r.urg_flag <= 1 && r.cwe_flag <= 1 && r.ece_flag <= 1
            &&& r.protocol == IPPROTO_UDP ==> r.fin_flag == 0 && r.syn_flag == 0 && r.rst_flag
                == 0 && r.psh_flag == 0 && r.ack_flag == 0 && r.urg_flag == 0 && r.cwe_flag == 0
                && r.ece_flag == 0 && r.window_size == 0
        }),
{
    let b = f[TRANSPORT_OFFSET + 13];
    assert(forall|k: u8| #![auto] k < 8 ==> (b >> k) & 1 <= 1) by (bit_vector);
}

/// Extracting a TCP frame built from known addresses, ports, data offset,
/// flags and window gives back exactly those values, in host order.
pub proof fn tcp_frame_round_trip(
    source: u128,
    destination: u128,
    source_port: u16,
    destination_port: u16,
    data_offset: u8,
    fin: u8,
    syn: u8,
    rst: u8,
    psh: u8,
    ack: u8,
    urg: u8,
    ece: u8,
    cwr: u8,
    window_size: u16,
    payload: Seq<u8>,
)
    requires
        data_offset < 16,
        fin <= 1,
        syn <= 1,
        rst <= 1,
        psh <= 1,
        ack <= 1,
        urg <= 1,
        ece <= 1,
        cwr <= 1,
        TRANSPORT_OFFSET + TCP_HDR_LEN + payload.len() <= MAX_FRAME_LEN,
    ensures
        ({
            let f = tcp_frame(
                source,
                destination,
                source_port,
                destination_port,
                data_offset,
                flags_byte(fin, syn, rst, psh, ack, urg, ece, cwr),
                window_size,
                payload,
            );
            let data_length = (TRANSPORT_OFFSET + TCP_HDR_LEN + payload.len()) as u32;
            let header_length = (4 * data_offset) as u32;
            extract_spec(f) == Ok::<BasicFeaturesIpv6, FlowError>(
                BasicFeaturesIpv6 {
                    ipv6_source: source,
                    ipv6_destination: destination,
                    port_source: source_port,
                    port_destination: destination_port,
                    protocol: IPPROTO_TCP,
                    fin_flag: fin,
                    syn_flag: syn,
                    rst_flag: rst,
                    psh_flag: psh,
                    ack_flag: ack,
                    urg_flag: urg,
                    cwe_flag: cwr,
                    ece_flag: ece,
                    data_length,
                    header_length,
                    length: (data_length + header_length + IPV6_HDR_LEN + ETH_HDR_LEN) as u32,
                    window_size,
                },
            )
        }),
{
    let flags = flags_byte(fin, syn, rst, psh, ack, urg, ece, cwr);
    let f = tcp_frame(
        source,
        destination,
        source_port,
        destination_port,
        data_offset,
        flags,
        window_size,
        payload,
    );
    lemma_flags_byte(fin, syn, rst, psh, ack, urg, ece, cwr);
    lemma_pow256_16();
    reveal_with_fuel(pow256, 3);
    lemma_be_bytes(ETHER_TYPE_IPV6 as nat, 2);
    lemma_be_bytes((TCP_HDR_LEN + payload.len()) as nat, 2);
    lemma_be_bytes(source as nat, 16);
    lemma_be_bytes(destination as nat, 16);
    lemma_be_bytes(source_port as nat, 2);
    lemma_be_bytes(destination_port as nat, 2);
    lemma_be_bytes(window_size as nat, 2);
    lemma_small_mod(source as nat, pow256(16));
    lemma_small_mod(destination as nat, pow256(16));
    lemma_small_mod(source_port as nat, pow256(2));
    lemma_small_mod(destination_port as nat, pow256(2));
    lemma_small_mod(window_size as nat, pow256(2));
    let eth = zeros(12) + be_bytes(ETHER_TYPE_IPV6 as nat, 2);
    let ip = seq![0x60u8, 0, 0, 0] + be_bytes((TCP_HDR_LEN + payload.len()) as nat, 2) + seq![
        IPPROTO_TCP,
        64u8,
    ] + be_bytes(source as nat, 16) + be_bytes(destination as nat, 16);
    let tcp = be_bytes(source_port as nat, 2) + be_bytes(destination_port as nat, 2) + zeros(8)
        + seq![(data_offset << 4) as u8, flags] + be_bytes(window_size as nat, 2) + zeros(4);
    assert(f == eth + ip + tcp + payload);
    assert(eth.len() == 14);
    assert(ip.len() == 40);
    assert(tcp.len() == 20);

    lemma_be16_value(f, 12);
    assert(f.subrange(12, 14) =~= be_bytes(ETHER_TYPE_IPV6 as nat, 2));
    lemma_small_mod(ETHER_TYPE_IPV6 as nat, pow256(2));
    assert(ether_type(f) == ETHER_TYPE_IPV6);
    assert(next_header(f) == IPPROTO_TCP);

    let w = window(f, ETH_HDR_LEN as int, IPV6_HDR_LEN as int);
    assert(w =~= ip);
    assert(ip.subrange(8, 24) =~= be_bytes(source as nat, 16));
    assert(ip.subrange(24, 40) =~= be_bytes(destination as nat, 16));

    let t = window(f, TRANSPORT_OFFSET as int, TCP_HDR_LEN as int);
    assert(t =~= tcp);
    lemma_be16_value(t, 0);
    lemma_be16_value(t, 2);
    lemma_be16_value(t, 14);
    assert(t.subrange(0, 2) =~= be_bytes(source_port as nat, 2));
    assert(t.subrange(2, 4) =~= be_bytes(destination_port as nat, 2));
    assert(t.subrange(14, 16) =~= be_bytes(window_size as nat, 2));
    assert(t[12] == (data_offset << 4) as u8);
    assert(t[13] == flags);
    assert((((data_offset << 4) as u8) >> 4) == data_offset) by (bit_vector)
        requires
            data_offset < 16,
    ;
}

} // verus!
