//! The send-then-wait primitive every RPC-style operation uses: after
//! sending its method, an operation scans the inbound frames of its channel
//! for the one completion method it expects. A frame for another channel is
//! never its business and is always ignored; for a frame on its own channel
//! that is not the expected method, the call site chooses between failing
//! (strict, synchronous RPC) and skipping (tolerant, streaming traffic).

use vstd::prelude::*;
use crate::frame::{Frame, FramePayload, MethodPayload};

verus! {

/// The completion method one operation is waiting for on one channel.
#[derive(Clone, Debug, PartialEq)]
pub struct MethodWait {
    pub channel_id: u16,
    pub class_id: u16,
    pub method_id: u16,
}

/// What one observed frame means to a wait: the expected method arrived,
/// the frame belongs to another channel, or this channel carried something
/// else while waiting.
pub enum WaitOutcome {
    Matched(MethodPayload),
    OtherChannel(Frame),
    Mismatched(Frame),
}

impl MethodWait {
    /// The frame resolves this wait: right channel, right method.
    pub open spec fn resolves(&self, frame: Frame) -> bool {
        frame.channel == self.channel_id && frame.is_method_of(self.class_id, self.method_id)
    }

    /// Classify one inbound frame against this wait.
    pub fn observe(&self, frame: Frame) -> (r: WaitOutcome)
        ensures
            match r {
                WaitOutcome::Matched(m) => {
                    &&& self.resolves(frame)
                    &&& frame.payload == FramePayload::Method(m)
                },
                WaitOutcome::OtherChannel(f) => f == frame && frame.channel != self.channel_id,
                WaitOutcome::Mismatched(f) => {
                    &&& f == frame
                    &&& frame.channel == self.channel_id
                    &&& !frame.is_method_of(self.class_id, self.method_id)
                },
            },
    {
        if frame.channel != self.channel_id {
            return WaitOutcome::OtherChannel(frame);
        }
        let is_match = match frame.method() {
            Some(m) => m.class_id == self.class_id && m.method_id == self.method_id,
            None => false,
        };
        if is_match {
            match frame.payload {
                FramePayload::Method(m) => WaitOutcome::Matched(m),
                _ => unreached(),
            }
        } else {
            WaitOutcome::Mismatched(frame)
        }
    }
}

} // verus!
