//! The publish protocol: one message becomes exactly three frames on its
//! channel — the basic.publish method, a content header announcing the
//! body's size, and the body — emitted in that order with nothing of
//! another publish between them.

use vstd::prelude::*;
use crate::frame::{
    appends, Argument, ContentBodyPayload, ContentHeaderPayload, Frame, FramePayload,
    MethodPayload, Properties,
};
use crate::methods::basic::publish::publish_bits;

verus! {

/// A meta option of one published message.
#[derive(Clone, Debug)]
pub struct PublishOption {
    pub exchange: String,
    pub routing_key: String,
    pub is_mandatory: bool,
    pub is_immediate: bool,
}

/// One message to publish: its meta option, its header properties, and its
/// body bytes.
#[derive(Clone, Debug)]
pub struct PublishItem {
    pub meta: PublishOption,
    pub header: Properties,
    pub body: Vec<u8>,
}

/// The basic.publish method frame of `item` on `channel_id`.
pub open spec fn is_publish_method_frame(f: Frame, channel_id: u16, meta: PublishOption) -> bool {
    &&& f.channel == channel_id
    &&& f.payload matches FramePayload::Method(m)
    &&& m.class_id == 60
    &&& m.method_id == 40
    &&& m.arguments@.len() == 4
    &&& m.arguments@[0] == Argument::Short(0u16)
    &&& m.arguments@[1] == Argument::ShortString(meta.exchange)
    &&& m.arguments@[2] == Argument::ShortString(meta.routing_key)
    &&& m.arguments@[3] == Argument::Bits(publish_bits(meta.is_mandatory, meta.is_immediate))
}

/// The content header frame of `item` on `channel_id`: class 60, the body's
/// full byte count, and the item's properties.
pub open spec fn is_publish_header_frame(f: Frame, channel_id: u16, item: PublishItem) -> bool {
    &&& f.channel == channel_id
    &&& f.payload matches FramePayload::ContentHeader(h)
    &&& h.class_id == 60
    &&& h.body_size == item.body@.len()
    &&& h.properties == item.header
}

/// The content body frame carrying `body` on `channel_id`.
pub open spec fn is_publish_body_frame(f: Frame, channel_id: u16, body: Seq<u8>) -> bool {
    &&& f.channel == channel_id
    &&& f.payload matches FramePayload::ContentBody(b)
    &&& b.bytes@ == body
}

/// The three frames of one publish, in their required order.
pub open spec fn is_publish_sequence(fs: Seq<Frame>, channel_id: u16, item: PublishItem) -> bool {
    &&& fs.len() == 3
    &&& is_publish_method_frame(fs[0], channel_id, item.meta)
    &&& is_publish_header_frame(fs[1], channel_id, item)
    &&& is_publish_body_frame(fs[2], channel_id, item.body@)
}

/// `new` is `old` with the three frames of one publish of `item` appended,
/// back to back.
pub open spec fn publish_appended(old: Seq<Frame>, new: Seq<Frame>, channel_id: u16, item: PublishItem) -> bool {
    &&& appends(old, new, 3)
    &&& is_publish_sequence(new.subrange(old.len() as int, (old.len() + 3) as int), channel_id, item)
}

/// Start publishing `item` on `channel_id`. The returned state machine
/// holds the three frames of the publish and hands them out in order.
pub fn publish(channel_id: u16, item: PublishItem) -> (p: Published)
    ensures
        p.state matches SendingContentState::SendingPublishMethod(m, h, b) && is_publish_sequence(
            seq![m, h, b],
            channel_id,
            item,
        ),
{
    let body_size = item.body.len() as u64;

    let method = MethodPayload {
        class_id: 60,
        method_id: 40,
        arguments: vec![
            Argument::Short(0),
            Argument::ShortString(item.meta.exchange),
            Argument::ShortString(item.meta.routing_key),
            Argument::Bits(
                (if item.meta.is_mandatory { 1u8 } else { 0u8 })
                    + (if item.meta.is_immediate { 2u8 } else { 0u8 }),
            ),
        ],
    };
    let method_frame = Frame { channel: channel_id, payload: FramePayload::Method(method) };

    let header = ContentHeaderPayload { class_id: 60, body_size, properties: item.header };
    let header_frame = Frame { channel: channel_id, payload: FramePayload::ContentHeader(header) };

    let body = ContentBodyPayload { bytes: item.body };
    let body_frame = Frame { channel: channel_id, payload: FramePayload::ContentBody(body) };

    Published {
        state: SendingContentState::SendingPublishMethod(method_frame, header_frame, body_frame),
    }
}

/// How far one publish has come: which of its frames are still to send.
pub enum SendingContentState {
    SendingPublishMethod(Frame, Frame, Frame),
    SendingContentHeader(Frame, Frame),
    SendingContentBody(Frame),
    Done,
}

/// One publish in flight.
pub struct Published {
    pub state: SendingContentState,
}

impl Published {
    /// Hand out the next frame to send, in publish order, until none is
    /// left.
    pub fn next_frame(&mut self) -> (r: Option<Frame>)
        ensures
            match old(self).state {
                SendingContentState::SendingPublishMethod(m, h, b) => r == Some(m)
                    && final(self).state == SendingContentState::SendingContentHeader(h, b),
                SendingContentState::SendingContentHeader(h, b) => r == Some(h)
                    && final(self).state == SendingContentState::SendingContentBody(b),
                SendingContentState::SendingContentBody(b) => r == Some(b)
                    && final(self).state is Done,
                SendingContentState::Done => r is None && final(self).state is Done,
            },
    {
        let mut state = SendingContentState::Done;
        core::mem::swap(&mut self.state, &mut state);
        match state {
            SendingContentState::SendingPublishMethod(m, h, b) => {
                self.state = SendingContentState::SendingContentHeader(h, b);
                Some(m)
            },
            SendingContentState::SendingContentHeader(h, b) => {
                self.state = SendingContentState::SendingContentBody(b);
                Some(h)
            },
            SendingContentState::SendingContentBody(b) => {
                self.state = SendingContentState::Done;
                Some(b)
            },
            SendingContentState::Done => None,
        }
    }

    /// Queue every remaining frame of this publish, in order, with nothing
    /// between them.
    pub fn send_all(&mut self, out: &mut Vec<Frame>)
        ensures
            final(self).state is Done,
            match old(self).state {
                SendingContentState::SendingPublishMethod(m, h, b) => final(out)@
                    == old(out)@.push(m).push(h).push(b),
                SendingContentState::SendingContentHeader(h, b) => final(out)@
                    == old(out)@.push(h).push(b),
                SendingContentState::SendingContentBody(b) => final(out)@ == old(out)@.push(b),
                SendingContentState::Done => final(out)@ == old(out)@,
            },
    {
        let mut next = self.next_frame();
        while next.is_some()
            invariant
                next is Some ==> match self.state {
                    SendingContentState::SendingPublishMethod(_, _, _) => false,
                    SendingContentState::SendingContentHeader(h, b) => {
                        &&& match old(self).state {
                            SendingContentState::SendingPublishMethod(m0, h0, b0) => next == Some(m0)
                                && h == h0 && b == b0,
                            _ => false,
                        }
                        &&& out@ == old(out)@
                    },
                    SendingContentState::SendingContentBody(b) => {
                        match old(self).state {
                            SendingContentState::SendingPublishMethod(m0, h0, b0) => next == Some(h0)
                                && b == b0 && out@ == old(out)@.push(m0),
                            SendingContentState::SendingContentHeader(h0, b0) => next == Some(h0)
                                && b == b0 && out@ == old(out)@,
                            _ => false,
                        }
                    },
                    SendingContentState::Done => {
                        match old(self).state {
                            SendingContentState::SendingPublishMethod(m0, h0, b0) => next == Some(b0)
                                && out@ == old(out)@.push(m0).push(h0),
                            SendingContentState::SendingContentHeader(h0, b0) => next == Some(b0)
                                && out@ == old(out)@.push(h0),
                            SendingContentState::SendingContentBody(b0) => next == Some(b0) && out@
                                == old(out)@,
                            SendingContentState::Done => false,
                        }
                    },
                },
                next is None ==> self.state is Done && match old(self).state {
                    SendingContentState::SendingPublishMethod(m0, h0, b0) => out@
                        == old(out)@.push(m0).push(h0).push(b0),
                    SendingContentState::SendingContentHeader(h0, b0) => out@ == old(out)@.push(
                        h0,
                    ).push(b0),
                    SendingContentState::SendingContentBody(b0) => out@ == old(out)@.push(b0),
                    SendingContentState::Done => out@ == old(out)@,
                },
            decreases (if next is Some { 1int } else { 0int }) + match self.state {
                SendingContentState::SendingPublishMethod(_, _, _) => 4int,
                SendingContentState::SendingContentHeader(_, _) => 3int,
                SendingContentState::SendingContentBody(_) => 2int,
                SendingContentState::Done => 1int,
            },
        {
            match next {
                Some(frame) => out.push(frame),
                None => unreached(),
            }
            next = self.next_frame();
        }
    }
}

/// Two publishes on one channel leave the queue with the first's three
/// frames standing together, then the second's: the triples never
/// interleave.
pub proof fn lemma_publish_triples_contiguous(
    out0: Seq<Frame>,
    out1: Seq<Frame>,
    out2: Seq<Frame>,
    channel_id: u16,
    first: PublishItem,
    second: PublishItem,
)
    requires
        publish_appended(out0, out1, channel_id, first),
        publish_appended(out1, out2, channel_id, second),
    ensures
        out2.len() == out0.len() + 6,
        is_publish_sequence(out2.subrange(out0.len() as int, (out0.len() + 3) as int), channel_id, first),
        is_publish_sequence(out2.subrange((out0.len() + 3) as int, (out0.len() + 6) as int), channel_id, second),
{
    assert(out2.subrange(out0.len() as int, (out0.len() + 3) as int) =~= out1.subrange(
        out0.len() as int,
        (out0.len() + 3) as int,
    ));
    assert(out2.subrange((out0.len() + 3) as int, (out0.len() + 6) as int) =~= out2.subrange(
        out1.len() as int,
        (out1.len() + 3) as int,
    ));
}

} // verus!
