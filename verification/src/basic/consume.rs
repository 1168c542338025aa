//! Starting a consumer: send basic.consume in its no-wait form, after
//! which the channel's deliver sequences are the consumer's to assemble.

use vstd::prelude::*;
use crate::frame::{appends, Argument, Frame, FramePayload};
use crate::methods::basic::consume::{consume, consume_bits, ConsumeArguments};

verus! {

/// What a consumer asks for.
#[derive(Debug, Clone)]
pub struct StartConsumeOption {
    pub queue: String,
    pub consumer_tag: String,
    pub is_no_local: bool,
    pub is_no_ack: bool,
    pub is_exclusive: bool,
}

/// The basic.consume frame for `channel_id` and `option`, with the no-wait
/// bit set.
pub open spec fn is_consume_frame(f: Frame, channel_id: u16, option: StartConsumeOption) -> bool {
    &&& f.channel == channel_id
    &&& f.payload matches FramePayload::Method(m)
    &&& m.class_id == 60
    &&& m.method_id == 20
    &&& m.arguments@.len() == 5
    &&& m.arguments@[1] == Argument::ShortString(option.queue)
    &&& m.arguments@[2] == Argument::ShortString(option.consumer_tag)
    &&& m.arguments@[3] == Argument::Bits(
        consume_bits(option.is_no_local, option.is_no_ack, option.is_exclusive, true),
    )
}

/// Queue basic.consume for `channel_id`, no-wait: the send completes the
/// operation, and deliveries may follow at any time.
pub fn start_consume(channel_id: u16, option: StartConsumeOption, out: &mut Vec<Frame>)
    ensures
        appends(old(out)@, final(out)@, 1),
        is_consume_frame(final(out)@.last(), channel_id, option),
{
    let args = ConsumeArguments {
        queue_name: option.queue,
        consumer_tag: option.consumer_tag,
        no_local: option.is_no_local,
        no_ack: option.is_no_ack,
        exclusive: option.is_exclusive,
        no_wait: true,
    };
    let frame = Frame { channel: channel_id, payload: FramePayload::Method(consume(args)) };
    out.push(frame);
}

} // verus!
