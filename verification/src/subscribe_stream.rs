//! A long-lived subscription: send basic.consume once, then assemble every
//! deliver sequence on the channel into one delivered item after another,
//! skipping frames that belong to other traffic on the channel.

use vstd::prelude::*;
use crate::basic::consume::{is_consume_frame, start_consume, StartConsumeOption};
use crate::basic::deliver::{deliver_step, get_delivered, Delivered, DeliveredItem};
use crate::errors::Error;
use crate::frame::{appends, Frame};

verus! {

/// One subscription's assembly state between deliveries.
pub struct SubscribeStream {
    pub state: Delivered,
}

/// Queue basic.consume for `channel_id` and start the stream of delivered
/// items. The consume is sent no-wait; deliveries may begin at once.
pub fn subscribe_stream(channel_id: u16, option: StartConsumeOption, out: &mut Vec<Frame>) -> (s: SubscribeStream)
    ensures
        appends(old(out)@, final(out)@, 1),
        is_consume_frame(final(out)@.last(), channel_id, option),
        s.state is ReceivingDeliverMethod,
{
    start_consume(channel_id, option, out);
    SubscribeStream { state: get_delivered() }
}

impl SubscribeStream {
    /// Feed one inbound frame of the channel to the subscription. `Some`
    /// carries the next completed delivery; frames that are not the
    /// expected next piece of one are skipped, tolerantly, and after each
    /// delivery the stream at once awaits the next.
    pub fn on_frame(&mut self, frame: Frame) -> (r: Result<Option<DeliveredItem>, Error>)
        ensures
            deliver_step(old(self).state, frame, true, final(self).state, r),
    {
        self.state.on_frame(frame, true)
    }
}

} // verus!
