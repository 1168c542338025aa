//! Opening one channel: send channel.open, then wait for channel.open-ok on
//! that channel and no other.

use vstd::prelude::*;
use crate::errors::Error;
use crate::frame::{appends, Argument, Frame, FramePayload, MethodPayload};
use crate::wait::{MethodWait, WaitOutcome};

verus! {

/// The channel.open frame for `channel_id`.
pub open spec fn is_channel_open_frame(f: Frame, channel_id: u16) -> bool {
    &&& f.channel == channel_id
    &&& f.payload matches FramePayload::Method(m)
    &&& m.class_id == 20
    &&& m.method_id == 10
    &&& m.arguments@.len() == 1
    &&& m.arguments@[0] matches Argument::ShortString(s) && s@ == Seq::<char>::empty()
}

/// Send channel.open for `channel_id` onto the outbound queue and start
/// waiting for the matching channel.open-ok.
pub fn open_channel(channel_id: u16, out: &mut Vec<Frame>) -> (c: ChannelOpened)
    ensures
        appends(old(out)@, final(out)@, 1),
        is_channel_open_frame(final(out)@.last(), channel_id),
        c matches ChannelOpened::Receiving(w) && w == (MethodWait {
            channel_id,
            class_id: 20u16,
            method_id: 11u16,
        }),
{
    let open = MethodPayload {
        class_id: 20,
        method_id: 10,
        arguments: vec![Argument::ShortString(String::new())],
    };
    let frame = Frame { channel: channel_id, payload: FramePayload::Method(open) };
    out.push(frame);

    ChannelOpened::Receiving(MethodWait { channel_id, class_id: 20, method_id: 11 })
}

/// The wait for channel.open-ok: still receiving, or resolved.
pub enum ChannelOpened {
    Receiving(MethodWait),
    Done,
}

impl ChannelOpened {
    /// Feed one inbound frame to the wait. `Ok(true)` reports the channel
    /// open: exactly on this channel's channel.open-ok. A frame of another
    /// channel leaves the wait untouched; any other frame on this channel
    /// fails it.
    pub fn on_frame(&mut self, frame: Frame) -> (r: Result<bool, Error>)
        requires
            *old(self) matches ChannelOpened::Receiving(w),
        ensures
            ({
                let w = (*old(self))->Receiving_0;
                match r {
                    Ok(true) => w.resolves(frame) && *final(self) is Done,
                    Ok(false) => frame.channel != w.channel_id && *final(self) == *old(self),
                    Err(e) => {
                        &&& frame.channel == w.channel_id
                        &&& !frame.is_method_of(w.class_id, w.method_id)
                        &&& e matches Error::UnexpectedFrame(exp, f) && f == frame && exp@ == "OpenOk"@
                        &&& *final(self) == *old(self)
                    },
                }
            }),
    {
        let outcome = match self {
            ChannelOpened::Receiving(w) => w.observe(frame),
            ChannelOpened::Done => unreached(),
        };
        match outcome {
            WaitOutcome::Matched(_open_ok) => {
                *self = ChannelOpened::Done;
                Ok(true)
            },
            WaitOutcome::OtherChannel(_f) => Ok(false),
            WaitOutcome::Mismatched(f) => Err(Error::UnexpectedFrame("OpenOk".to_owned(), f)),
        }
    }
}

} // verus!
