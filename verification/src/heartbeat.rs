//! The heartbeat frame the scheduler emits on channel 0 at its fixed
//! interval; the timer driving it lives outside this crate.

use vstd::prelude::*;
use crate::frame::{Frame, FramePayload};

verus! {

/// Queue one heartbeat frame on channel 0.
pub fn send_heartbeat(out: &mut Vec<Frame>)
    ensures
        final(out)@ == old(out)@.push(Frame { channel: 0u16, payload: FramePayload::Heartbeat }),
{
    let frame = Frame { channel: 0, payload: FramePayload::Heartbeat };
    out.push(frame);
}

} // verus!
