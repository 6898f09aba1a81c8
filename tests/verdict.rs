use ebpf_ipv6::TC_ACT_PIPE;

#[test]
fn pipe_verdict_matches_the_kernel_value() {
    assert_eq!(TC_ACT_PIPE as i64, aya_ebpf::bindings::TC_ACT_PIPE as i64);
}
