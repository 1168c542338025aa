//! The handle callers use to issue protocol operations on one channel.
//! Each method builds the frames of one operation and wraps them in the
//! command the channel actor's mailbox is to carry; handing the command to
//! the mailbox is the surrounding runtime's business.

use vstd::prelude::*;
use crate::frame::{
    ContentBodyPayload, ContentHeaderPayload, Frame, FramePayload, MethodPayload, Properties,
};
use crate::methods::basic::consume::consume_bits;
use crate::methods::basic::publish::publish_bits;
use crate::methods::exchange::declare::exchange_declare_bits;
use crate::methods::queue::bind::bind_bits;
use crate::methods::queue::declare::queue_declare_bits;
use crate::methods::{basic, exchange, queue};
use super::handler::LocalChannelCommand;

verus! {

/// A handle on one channel actor's mailbox, carrying the channel's id.
#[derive(Clone, Debug)]
pub struct LocalChannelController {
    pub channel_id: u16,
}

/// A method frame on `channel_id` carrying `m`.
pub open spec fn is_method_frame_on(f: Frame, channel_id: u16, m: MethodPayload) -> bool {
    f.channel == channel_id && f.payload == FramePayload::Method(m)
}

/// A content header frame on `channel_id` announcing `body_size` bytes of a
/// class-`class_id` body, with the empty property set.
pub open spec fn is_content_header_frame_on(f: Frame, channel_id: u16, class_id: u16, body_size: u64) -> bool {
    &&& f.channel == channel_id
    &&& f.payload matches FramePayload::ContentHeader(h)
    &&& h.class_id == class_id
    &&& h.body_size == body_size
    &&& h.properties.content_type is None
    &&& h.properties.delivery_mode is None
    &&& h.properties.priority is None
}

/// A content body frame on `channel_id` carrying exactly `bytes`.
pub open spec fn is_content_body_frame_on(f: Frame, channel_id: u16, bytes: Seq<u8>) -> bool {
    &&& f.channel == channel_id
    &&& f.payload matches FramePayload::ContentBody(b)
    &&& b.bytes@ == bytes
}

impl LocalChannelController {
    /// The command that opens this channel on the server. It must be issued
    /// before any other operation on the channel.
    pub fn init(&self) -> (c: LocalChannelCommand)
        ensures
            c == LocalChannelCommand::OpenChannel,
    {
        LocalChannelCommand::OpenChannel
    }

    /// The command delivering one inbound frame to this channel's actor.
    pub fn arrive_frame(&self, frame: Frame) -> (c: LocalChannelCommand)
        ensures
            c == LocalChannelCommand::ArriveFrame(frame),
    {
        LocalChannelCommand::ArriveFrame(frame)
    }

    /// The command declaring an exchange on this channel.
    pub fn declare_exchange(&self, args: exchange::DeclareArguments) -> (c: LocalChannelCommand)
        ensures
            ({
                &&& c matches LocalChannelCommand::DeclareExchange(f)
                &&& f.channel == self.channel_id
                &&& f.payload matches FramePayload::Method(m)
                &&& m.class_id == 40
                &&& m.method_id == 10
                &&& m.arguments@.len() == 5
                &&& m.arguments@[1] == crate::frame::Argument::ShortString(args.exchange_name)
                &&& m.arguments@[2] == crate::frame::Argument::ShortString(args.exchange_type)
                &&& m.arguments@[3] == crate::frame::Argument::Bits(
                    exchange_declare_bits(
                        args.passive,
                        args.durable,
                        args.auto_delete,
                        args.internal,
                        args.no_wait,
                    ),
                )
            }),
    {
        let frame = self.method_frame(exchange::declare(args));
        LocalChannelCommand::DeclareExchange(frame)
    }

    /// The command declaring a queue on this channel; the actor reports the
    /// declared queue's name when queue.declare-ok arrives.
    pub fn declare_queue(&self, args: queue::DeclareArguments) -> (c: LocalChannelCommand)
        ensures
            ({
                &&& c matches LocalChannelCommand::DeclareQueue(f)
                &&& f.channel == self.channel_id
                &&& f.payload matches FramePayload::Method(m)
                &&& m.class_id == 50
                &&& m.method_id == 10
                &&& m.arguments@.len() == 4
                &&& m.arguments@[1] == crate::frame::Argument::ShortString(args.queue_name)
                &&& m.arguments@[2] == crate::frame::Argument::Bits(
                    queue_declare_bits(
                        args.passive,
                        args.durable,
                        args.exclusive,
                        args.auto_delete,
                        args.no_wait,
                    ),
                )
            }),
    {
        let frame = self.method_frame(queue::declare(args));
        LocalChannelCommand::DeclareQueue(frame)
    }

    /// The command binding a queue to an exchange on this channel.
    pub fn bind_queue(&self, args: queue::BindArguments) -> (c: LocalChannelCommand)
        ensures
            ({
                &&& c matches LocalChannelCommand::BindQueue(f)
                &&& f.channel == self.channel_id
                &&& f.payload matches FramePayload::Method(m)
                &&& m.class_id == 50
                &&& m.method_id == 20
                &&& m.arguments@.len() == 6
                &&& m.arguments@[1] == crate::frame::Argument::ShortString(args.queue_name)
                &&& m.arguments@[2] == crate::frame::Argument::ShortString(args.exchange_name)
                &&& m.arguments@[3] == crate::frame::Argument::ShortString(args.routing_key)
                &&& m.arguments@[4] == crate::frame::Argument::Bits(bind_bits(args.no_wait))
            }),
    {
        let frame = self.method_frame(queue::bind(args));
        LocalChannelCommand::BindQueue(frame)
    }

    /// The command publishing one message on this channel: the method frame,
    /// the content header announcing the body's full size, and the body —
    /// carried together so the actor queues them with nothing in between.
    pub fn publish(&self, args: basic::PublishArguments, bytes: Vec<u8>) -> (c: LocalChannelCommand)
        ensures
            ({
                &&& c matches LocalChannelCommand::Publish(mf, hf, bf)
                &&& mf.channel == self.channel_id
                &&& mf.payload matches FramePayload::Method(m)
                &&& m.class_id == 60
                &&& m.method_id == 40
                &&& m.arguments@.len() == 4
                &&& m.arguments@[1] == crate::frame::Argument::ShortString(args.exchange_name)
                &&& m.arguments@[2] == crate::frame::Argument::ShortString(args.routing_key)
                &&& m.arguments@[3] == crate::frame::Argument::Bits(
                    publish_bits(args.mandatory, args.immediate),
                )
                &&& is_content_header_frame_on(hf, self.channel_id, 60u16, bytes@.len() as u64)
                &&& is_content_body_frame_on(bf, self.channel_id, bytes@)
            }),
    {
        let body_size = bytes.len() as u64;
        let method_frame = self.method_frame(basic::publish(args));
        let content_header_frame = self.content_header_frame(60, body_size);
        let content_body_frame = self.content_body_frame(bytes);

        LocalChannelCommand::Publish(method_frame, content_header_frame, content_body_frame)
    }

    /// The command starting a consumer on this channel; content-body
    /// fragments arriving afterwards are reported to the caller.
    pub fn consume(&self, args: basic::ConsumeArguments) -> (c: LocalChannelCommand)
        ensures
            ({
                &&& c matches LocalChannelCommand::Consume(f)
                &&& f.channel == self.channel_id
                &&& f.payload matches FramePayload::Method(m)
                &&& m.class_id == 60
                &&& m.method_id == 20
                &&& m.arguments@.len() == 5
                &&& m.arguments@[1] == crate::frame::Argument::ShortString(args.queue_name)
                &&& m.arguments@[2] == crate::frame::Argument::ShortString(args.consumer_tag)
                &&& m.arguments@[3] == crate::frame::Argument::Bits(
                    consume_bits(args.no_local, args.no_ack, args.exclusive, args.no_wait),
                )
            }),
    {
        let frame = self.method_frame(basic::consume(args));
        LocalChannelCommand::Consume(frame)
    }

    /// Wrap a method payload in a frame for this channel.
    fn method_frame(&self, method: MethodPayload) -> (f: Frame)
        ensures
            is_method_frame_on(f, self.channel_id, method),
    {
        Frame { channel: self.channel_id, payload: FramePayload::Method(method) }
    }

    /// The content header frame announcing one body on this channel.
    fn content_header_frame(&self, class_id: u16, body_size: u64) -> (f: Frame)
        ensures
            is_content_header_frame_on(f, self.channel_id, class_id, body_size),
    {
        let payload = ContentHeaderPayload { class_id, body_size, properties: Properties::new() };
        Frame { channel: self.channel_id, payload: FramePayload::ContentHeader(payload) }
    }

    /// The content body frame carrying one fragment on this channel.
    fn content_body_frame(&self, bytes: Vec<u8>) -> (f: Frame)
        ensures
            is_content_body_frame_on(f, self.channel_id, bytes@),
    {
        let payload = ContentBodyPayload { bytes };
        Frame { channel: self.channel_id, payload: FramePayload::ContentBody(payload) }
    }
}

} // verus!
