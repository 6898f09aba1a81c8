//! The per-frame entry point: classify, extract, assemble, emit.
use vstd::prelude::*;
use crate::headers::{
    classify, classify_spec, extract_tcp, extract_udp, tcp_spec, udp_spec, IPPROTO_TCP,
};
use crate::reader::FlowError;
use crate::record::{assemble, assemble_spec, BasicFeaturesIpv6, MAX_FRAME_LEN};

verus! {

/// Verdict that lets the frame continue along the packet path unchanged.
pub const TC_ACT_PIPE: i32 = 3;

/// Flags word handed to the output channel with each record: no special
/// handling.
pub const OUTPUT_FLAGS: u32 = 0;

/// The record extracted from frame `f`, or why there is none.
pub open spec fn extract_spec(f: Seq<u8>) -> Result<BasicFeaturesIpv6, FlowError> {
    match classify_spec(f) {
        Err(e) => Err(e),
        Ok(net) => {
            let tr = if net.protocol == IPPROTO_TCP {
                tcp_spec(f)
            } else {
                udp_spec(f)
            };
            match tr {
                Err(e) => Err(e),
                Ok(t) => Ok(assemble_spec(net, t, f.len() as u32)),
            }
        },
    }
}

/// The records emitted for frame `f`: one where extraction succeeds, none
/// otherwise.
pub open spec fn emitted(f: Seq<u8>) -> Seq<BasicFeaturesIpv6> {
    match extract_spec(f) {
        Ok(r) => seq![r],
        Err(_) => Seq::empty(),
    }
}

/// Extracts the flow-feature record of one frame.
pub fn extract_flow(frame: &[u8]) -> (r: Result<BasicFeaturesIpv6, FlowError>)
    requires
        frame@.len() <= MAX_FRAME_LEN,
    ensures
        r == extract_spec(frame@),
{
    let net = match classify(frame) {
        Ok(n) => n,
        Err(e) => return Err(e),
    };
    let tr = if net.protocol == IPPROTO_TCP {
        extract_tcp(frame)
    } else {
        extract_udp(frame)
    };
    let tr = match tr {
        Ok(t) => t,
        Err(e) => return Err(e),
    };
    proof {
        let b = frame@[66];
        assert(4 * (b >> 4) <= 60) by (bit_vector);
    }
    let data_length = frame.len() as u32;
    Ok(assemble(&net, &tr, data_length))
}

/// Handles one frame: appends its record to `events` where one can be
/// extracted, and lets the frame continue in every case.
pub fn tc_flow_track(frame: &[u8], events: &mut Vec<BasicFeaturesIpv6>) -> (r: i32)
    requires
        frame@.len() <= MAX_FRAME_LEN,
    ensures
        r == TC_ACT_PIPE,
        final(events)@ == old(events)@ + emitted(frame@),
{
    match extract_flow(frame) {
        Ok(record) => {
            events.push(record);
            assert(final(events)@ =~= old(events)@ + emitted(frame@));
        },
        Err(_) => {
            assert(events@ =~= old(events)@ + emitted(frame@));
        },
    }
    TC_ACT_PIPE
}

} // verus!
