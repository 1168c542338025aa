//! Binding a queue to an exchange: send queue.bind and, unless no-wait was
//! asked, wait for queue.bind-ok on the same channel.

use vstd::prelude::*;
use crate::errors::Error;
use crate::frame::{appends, Argument, Frame, FramePayload};
use crate::methods::queue::bind::{bind, bind_bits, BindArguments};
use crate::wait::{MethodWait, WaitOutcome};

verus! {

/// What a queue binding asks for.
#[derive(Clone, Debug)]
pub struct BindQueueOption {
    pub queue: String,
    pub exchange: String,
    pub routing_key: String,
    pub is_no_wait: bool,
}

/// The queue.bind frame for `channel_id` and `option`.
pub open spec fn is_queue_bind_frame(f: Frame, channel_id: u16, option: BindQueueOption) -> bool {
    &&& f.channel == channel_id
    &&& f.payload matches FramePayload::Method(m)
    &&& m.class_id == 50
    &&& m.method_id == 20
    &&& m.arguments@.len() == 6
    &&& m.arguments@[1] == Argument::ShortString(option.queue)
    &&& m.arguments@[2] == Argument::ShortString(option.exchange)
    &&& m.arguments@[3] == Argument::ShortString(option.routing_key)
    &&& m.arguments@[4] == Argument::Bits(bind_bits(option.is_no_wait))
}

/// Send queue.bind onto the outbound queue. With no-wait the operation is
/// complete at once; otherwise it waits for the matching queue.bind-ok on
/// this channel.
pub fn bind_queue(channel_id: u16, option: BindQueueOption, out: &mut Vec<Frame>) -> (b: QueueBound)
    ensures
        appends(old(out)@, final(out)@, 1),
        is_queue_bind_frame(final(out)@.last(), channel_id, option),
        option.is_no_wait ==> b is Done,
        !option.is_no_wait ==> (b matches QueueBound::Receiving(w) && w == (MethodWait {
            channel_id,
            class_id: 50u16,
            method_id: 21u16,
        })),
{
    let no_wait = option.is_no_wait;
    let args = BindArguments {
        queue_name: option.queue,
        exchange_name: option.exchange,
        routing_key: option.routing_key,
        no_wait: option.is_no_wait,
    };
    let frame = Frame { channel: channel_id, payload: FramePayload::Method(bind(args)) };
    out.push(frame);

    if no_wait {
        QueueBound::Done
    } else {
        QueueBound::Receiving(MethodWait { channel_id, class_id: 50, method_id: 21 })
    }
}

/// The wait for queue.bind-ok: still receiving, or resolved.
pub enum QueueBound {
    Receiving(MethodWait),
    Done,
}

impl QueueBound {
    /// Feed one inbound frame to the wait. `Ok(true)` reports the queue
    /// bound: exactly on this channel's queue.bind-ok. A frame of another
    /// channel leaves the wait untouched; any other frame on this channel
    /// fails it.
    pub fn on_frame(&mut self, frame: Frame) -> (r: Result<bool, Error>)
        requires
            *old(self) matches QueueBound::Receiving(w),
        ensures
            ({
                let w = (*old(self))->Receiving_0;
                match r {
                    Ok(true) => w.resolves(frame) && *final(self) is Done,
                    Ok(false) => frame.channel != w.channel_id && *final(self) == *old(self),
                    Err(e) => {
                        &&& frame.channel == w.channel_id
                        &&& !frame.is_method_of(w.class_id, w.method_id)
                        &&& e matches Error::UnexpectedFrame(exp, f) && f == frame && exp@ == "BindOk"@
                        &&& *final(self) == *old(self)
                    },
                }
            }),
    {
        let outcome = match self {
            QueueBound::Receiving(w) => w.observe(frame),
            QueueBound::Done => unreached(),
        };
        match outcome {
            WaitOutcome::Matched(_bind_ok) => {
                *self = QueueBound::Done;
                Ok(true)
            },
            WaitOutcome::OtherChannel(_f) => Ok(false),
            WaitOutcome::Mismatched(f) => Err(Error::UnexpectedFrame("BindOk".to_owned(), f)),
        }
    }
}

} // verus!
