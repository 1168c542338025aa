//! A long-lived outbound endpoint for publishing item after item on one
//! channel: each accepted item puts its three frames on the queue back to
//! back, so the triples of successive publishes never interleave.

use vstd::prelude::*;
use crate::basic::publish::{publish, publish_appended, PublishItem};
use crate::frame::Frame;

verus! {

/// A sink of publish items for one channel.
pub struct BroadcastSink {
    pub channel: u16,
}

/// Make the publish sink for `channel`.
pub fn publish_sink(channel: u16) -> (s: BroadcastSink)
    ensures
        s.channel == channel,
{
    BroadcastSink { channel }
}

impl BroadcastSink {
    /// Accept one item: queue its publish method, content header and body,
    /// in order and with nothing between them.
    pub fn start_send(&self, item: PublishItem, out: &mut Vec<Frame>)
        ensures
            publish_appended(old(out)@, final(out)@, self.channel, item),
    {
        let ghost out0 = out@;
        let mut published = publish(self.channel, item);
        let ghost st = published.state;
        published.send_all(out);
        proof {
            let (m, h, b) = match st {
                crate::basic::publish::SendingContentState::SendingPublishMethod(m, h, b) => (
                    m,
                    h,
                    b,
                ),
                _ => arbitrary(),
            };
            assert(out@.subrange(out0.len() as int, (out0.len() + 3) as int) =~= seq![m, h, b]);
            assert(out@.subrange(0, out0.len() as int) =~= out0);
        }
    }
}

} // verus!
