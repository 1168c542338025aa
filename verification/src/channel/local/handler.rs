//! The channel actor: the state machine owning one AMQP channel. It turns
//! commands into outbound frames, keeps the channel lifecycle, and reacts to
//! the inbound frames the dispatcher routes to it. Because it handles one
//! command at a time, the three frames of a publish are queued back to back:
//! no second publish on the same channel can interleave with them.

use vstd::prelude::*;
use crate::errors::Error;
use crate::frame::{Argument, Frame, FramePayload, MethodPayload};
use crate::channel::open::is_channel_open_frame;
use super::controller::LocalChannelController;

verus! {

/// One channel's lifecycle.
#[derive(Clone, Copy, Debug, PartialEq, Eq, Structural)]
pub enum ChannelState {
    Closed,
    Opening,
    Open,
}

/// What the channel actor's mailbox carries. Frame-carrying commands hold
/// the already-built method frame for this channel.
#[derive(Debug)]
pub enum LocalChannelCommand {
    ArriveFrame(Frame),
    DeclareExchange(Frame),
    DeclareQueue(Frame),
    BindQueue(Frame),
    Publish(Frame, Frame, Frame),
    Consume(Frame),
    OpenChannel,
}

/// What handling one command can report back to the waiting caller.
#[derive(Debug, Clone, PartialEq)]
pub enum LocalEvent {
    /// channel.open-ok arrived: the channel is usable.
    ChannelOpened,
    /// channel.close arrived from the server.
    ChannelClosed,
    /// queue.declare-ok arrived; carries the queue's name.
    QueueDeclared(String),
    /// A content-body fragment arrived for the registered consumer.
    DeliveredData(Vec<u8>),
}

/// The channel actor's state: its id, its lifecycle, and which waiters are
/// registered.
#[derive(Debug)]
pub struct LocalChannel {
    pub channel_id: u16,
    pub state: ChannelState,
    pub open_wait: bool,
    pub declare_queue_wait: bool,
    pub consuming: bool,
}

/// `post` is `pre` except possibly for the lifecycle and waiter fields
/// named by the step cases below.
pub open spec fn keeps_identity(pre: LocalChannel, post: LocalChannel) -> bool {
    post.channel_id == pre.channel_id
}

/// `post` equals `pre` in every field.
pub open spec fn unchanged(pre: LocalChannel, post: LocalChannel) -> bool {
    &&& post.channel_id == pre.channel_id
    &&& post.state == pre.state
    &&& post.open_wait == pre.open_wait
    &&& post.declare_queue_wait == pre.declare_queue_wait
    &&& post.consuming == pre.consuming
}

/// The actor's whole reaction to one inbound method `m` on its channel:
/// how its state moves and what it reports. Inbound methods never queue
/// outbound frames.
pub open spec fn channel_method_step(
    pre: LocalChannel,
    m: MethodPayload,
    post: LocalChannel,
    r: Result<Option<LocalEvent>, Error>,
) -> bool {
    let found = Frame { channel: pre.channel_id, payload: FramePayload::Method(m) };
    &&& keeps_identity(pre, post)
    &&& if m.class_id == 20 && m.method_id == 11 {
        // channel.open-ok resolves the registered open waiter.
        if pre.open_wait {
            &&& r == Result::<Option<LocalEvent>, Error>::Ok(Some(LocalEvent::ChannelOpened))
            &&& post.state == ChannelState::Open
            &&& !post.open_wait
            &&& post.declare_queue_wait == pre.declare_queue_wait
            &&& post.consuming == pre.consuming
        } else {
            &&& r matches Err(e)
            &&& e matches Error::UnexpectedFrame(exp, f)
            &&& exp@ == "PendingOpen"@
            &&& f == found
            &&& unchanged(pre, post)
        }
    } else if m.class_id == 20 && m.method_id == 40 {
        // channel.close from the server.
        &&& r == Result::<Option<LocalEvent>, Error>::Ok(Some(LocalEvent::ChannelClosed))
        &&& post.state == ChannelState::Closed
        &&& post.open_wait == pre.open_wait
        &&& post.declare_queue_wait == pre.declare_queue_wait
        &&& post.consuming == pre.consuming
    } else if m.class_id == 40 && m.method_id == 11 {
        // exchange.declare-ok.
        r == Result::<Option<LocalEvent>, Error>::Ok(None) && unchanged(pre, post)
    } else if m.class_id == 50 && m.method_id == 11 {
        // queue.declare-ok carries the queue name first.
        if m.arguments@.len() > 0 && m.arguments@[0] is ShortString {
            if pre.declare_queue_wait {
                &&& r matches Ok(ev)
                &&& ev matches Some(e)
                &&& e matches LocalEvent::QueueDeclared(name)
                &&& m.arguments@[0] matches Argument::ShortString(n) && name@ == n@
                &&& !post.declare_queue_wait
                &&& post.state == pre.state
                &&& post.open_wait == pre.open_wait
                &&& post.consuming == pre.consuming
            } else {
                &&& r matches Err(e)
                &&& e matches Error::UnexpectedFrame(exp, f)
                &&& exp@ == "PendingDeclareQueue"@
                &&& f == found
                &&& unchanged(pre, post)
            }
        } else {
            &&& r matches Err(e)
            &&& e matches Error::UnexpectedFrame(exp, f)
            &&& exp@ == "DeclareOk"@
            &&& f == found
            &&& unchanged(pre, post)
        }
    } else if m.class_id == 50 && m.method_id == 21 {
        // queue.bind-ok.
        r == Result::<Option<LocalEvent>, Error>::Ok(None) && unchanged(pre, post)
    } else if m.class_id == 60 && m.method_id == 21 {
        // basic.consume-ok.
        r == Result::<Option<LocalEvent>, Error>::Ok(None) && unchanged(pre, post)
    } else if m.class_id == 60 && m.method_id == 60 {
        // basic.deliver; its content frames follow separately.
        r == Result::<Option<LocalEvent>, Error>::Ok(None) && unchanged(pre, post)
    } else {
        &&& r matches Err(e)
        &&& e matches Error::UnexpectedFrame(exp, f)
        &&& exp@ == "ChannelMethod"@
        &&& f == found
        &&& unchanged(pre, post)
    }
}

impl LocalChannel {
    /// Queue one frame for the dispatcher's writer.
    pub fn send_frame(&self, frame: Frame, out: &mut Vec<Frame>)
        ensures
            final(out)@ == old(out)@.push(frame),
    {
        out.push(frame);
    }

    /// Handle one command: an inbound frame for this channel, or a protocol
    /// operation issued by the channel's controller.
    pub fn handle(&mut self, command: LocalChannelCommand, out: &mut Vec<Frame>) -> (r: Result<
        Option<LocalEvent>,
        Error,
    >)
        ensures
            match command {
                LocalChannelCommand::ArriveFrame(f) => final(out)@ == old(out)@
                    && frame_step(*old(self), f, *final(self), r),
                LocalChannelCommand::DeclareExchange(f) => {
                    &&& r == Result::<Option<LocalEvent>, Error>::Ok(None)
                    &&& final(out)@ == old(out)@.push(f)
                    &&& unchanged(*old(self), *final(self))
                },
                LocalChannelCommand::DeclareQueue(f) => {
                    &&& r == Result::<Option<LocalEvent>, Error>::Ok(None)
                    &&& final(out)@ == old(out)@.push(f)
                    &&& final(self).declare_queue_wait
                    &&& keeps_identity(*old(self), *final(self))
                    &&& final(self).state == old(self).state
                    &&& final(self).open_wait == old(self).open_wait
                    &&& final(self).consuming == old(self).consuming
                },
                LocalChannelCommand::BindQueue(f) => {
                    &&& r == Result::<Option<LocalEvent>, Error>::Ok(None)
                    &&& final(out)@ == old(out)@.push(f)
                    &&& unchanged(*old(self), *final(self))
                },
                LocalChannelCommand::Publish(mf, hf, bf) => {
                    &&& r == Result::<Option<LocalEvent>, Error>::Ok(None)
                    &&& final(out)@ == old(out)@.push(mf).push(hf).push(bf)
                    &&& unchanged(*old(self), *final(self))
                },
                LocalChannelCommand::Consume(f) => {
                    &&& r == Result::<Option<LocalEvent>, Error>::Ok(None)
                    &&& final(out)@ == old(out)@.push(f)
                    &&& final(self).consuming
                    &&& keeps_identity(*old(self), *final(self))
                    &&& final(self).state == old(self).state
                    &&& final(self).open_wait == old(self).open_wait
                    &&& final(self).declare_queue_wait == old(self).declare_queue_wait
                },
                LocalChannelCommand::OpenChannel => {
                    &&& r == Result::<Option<LocalEvent>, Error>::Ok(None)
                    &&& final(out)@.len() == old(out)@.len() + 1
                    &&& final(out)@.subrange(0, old(out)@.len() as int) == old(out)@
                    &&& is_channel_open_frame(final(out)@.last(), old(self).channel_id)
                    &&& final(self).open_wait
                    &&& final(self).state == ChannelState::Opening
                    &&& keeps_identity(*old(self), *final(self))
                    &&& final(self).declare_queue_wait == old(self).declare_queue_wait
                    &&& final(self).consuming == old(self).consuming
                },
            },
    {
        match command {
            LocalChannelCommand::ArriveFrame(frame) => self.handle_frame(frame),
            LocalChannelCommand::DeclareExchange(frame) => {
                self.send_frame(frame, out);
                Ok(None)
            },
            LocalChannelCommand::DeclareQueue(frame) => {
                self.send_frame(frame, out);
                self.declare_queue_wait = true;
                Ok(None)
            },
            LocalChannelCommand::BindQueue(frame) => {
                self.send_frame(frame, out);
                Ok(None)
            },
            LocalChannelCommand::Publish(method_frame, header_frame, body_frame) => {
                self.send_frame(method_frame, out);
                self.send_frame(header_frame, out);
                self.send_frame(body_frame, out);
                Ok(None)
            },
            LocalChannelCommand::Consume(frame) => {
                self.consuming = true;
                self.send_frame(frame, out);
                Ok(None)
            },
            LocalChannelCommand::OpenChannel => {
                self.open_channel(out);
                Ok(None)
            },
        }
    }

    /// Dispatch one inbound frame for this channel by its payload kind.
    fn handle_frame(&mut self, frame: Frame) -> (r: Result<Option<LocalEvent>, Error>)
        ensures
            frame_step(*old(self), frame, *final(self), r),
    {
        match frame.payload {
            FramePayload::Method(method) => self.handle_method(method),
            FramePayload::ContentHeader(_) => self.handle_content_header(),
            FramePayload::ContentBody(body) => self.handle_content_body(body.bytes),
            FramePayload::Heartbeat => Err(Error::UnexpectedFrame("Method".to_owned(), frame)),
        }
    }

    /// React to one method on this channel as `channel_method_step`
    /// describes.
    fn handle_method(&mut self, method: MethodPayload) -> (r: Result<Option<LocalEvent>, Error>)
        ensures
            channel_method_step(*old(self), method, *final(self), r),
    {
        if method.class_id == 20 && method.method_id == 11 {
            if self.open_wait {
                self.open_wait = false;
                self.state = ChannelState::Open;
                Ok(Some(LocalEvent::ChannelOpened))
            } else {
                Err(self.unexpected("PendingOpen", method))
            }
        } else if method.class_id == 20 && method.method_id == 40 {
            self.state = ChannelState::Closed;
            Ok(Some(LocalEvent::ChannelClosed))
        } else if method.class_id == 40 && method.method_id == 11 {
            Ok(None)
        } else if method.class_id == 50 && method.method_id == 11 {
            let has_name = method.arguments.len() > 0 && matches!(&method.arguments[0], Argument::ShortString(_));
            if !has_name {
                return Err(self.unexpected("DeclareOk", method));
            }
            if !self.declare_queue_wait {
                return Err(self.unexpected("PendingDeclareQueue", method));
            }
            match &method.arguments[0] {
                Argument::ShortString(name) => {
                    let queue_name = name.clone();
                    self.declare_queue_wait = false;
                    Ok(Some(LocalEvent::QueueDeclared(queue_name)))
                },
                _ => unreached(),
            }
        } else if method.class_id == 50 && method.method_id == 21 {
            Ok(None)
        } else if method.class_id == 60 && method.method_id == 21 {
            Ok(None)
        } else if method.class_id == 60 && method.method_id == 60 {
            Ok(None)
        } else {
            Err(self.unexpected("ChannelMethod", method))
        }
    }

    /// Wrap a method this channel could not accept back into its frame for
    /// the error report.
    fn unexpected(&self, expected: &str, method: MethodPayload) -> (e: Error)
        ensures
            e matches Error::UnexpectedFrame(exp, f) && exp@ == expected@ && f == (Frame {
                channel: self.channel_id,
                payload: FramePayload::Method(method),
            }),
    {
        Error::UnexpectedFrame(
            expected.to_owned(),
            Frame { channel: self.channel_id, payload: FramePayload::Method(method) },
        )
    }

    /// A content header on this channel: metadata for a body the consumer
    /// sink will receive fragment by fragment.
    fn handle_content_header(&mut self) -> (r: Result<Option<LocalEvent>, Error>)
        ensures
            r == Result::<Option<LocalEvent>, Error>::Ok(None),
            unchanged(*old(self), *final(self)),
    {
        Ok(None)
    }

    /// A content-body fragment on this channel belongs to the registered
    /// consumer; without one it is a protocol error.
    fn handle_content_body(&mut self, bytes: Vec<u8>) -> (r: Result<Option<LocalEvent>, Error>)
        ensures
            unchanged(*old(self), *final(self)),
            if old(self).consuming {
                r == Result::<Option<LocalEvent>, Error>::Ok(Some(LocalEvent::DeliveredData(bytes)))
            } else {
                r matches Err(e) && e matches Error::UnexpectedFrame(exp, f) && exp@
                    == "PendingConsume"@ && f == (Frame {
                    channel: old(self).channel_id,
                    payload: FramePayload::ContentBody(crate::frame::ContentBodyPayload { bytes }),
                })
            },
    {
        if self.consuming {
            Ok(Some(LocalEvent::DeliveredData(bytes)))
        } else {
            Err(
                Error::UnexpectedFrame(
                    "PendingConsume".to_owned(),
                    Frame {
                        channel: self.channel_id,
                        payload: FramePayload::ContentBody(crate::frame::ContentBodyPayload { bytes }),
                    },
                ),
            )
        }
    }

    /// Send channel.open for this channel and register the open waiter.
    fn open_channel(&mut self, out: &mut Vec<Frame>)
        ensures
            final(out)@.len() == old(out)@.len() + 1,
            final(out)@.subrange(0, old(out)@.len() as int) == old(out)@,
            is_channel_open_frame(final(out)@.last(), old(self).channel_id),
            final(self).open_wait,
            final(self).state == ChannelState::Opening,
            keeps_identity(*old(self), *final(self)),
            final(self).declare_queue_wait == old(self).declare_queue_wait,
            final(self).consuming == old(self).consuming,
    {
        let open_method = MethodPayload {
            class_id: 20,
            method_id: 10,
            arguments: vec![Argument::ShortString(String::new())],
        };
        let frame = Frame { channel: self.channel_id, payload: FramePayload::Method(open_method) };
        self.send_frame(frame, out);
        self.open_wait = true;
        self.state = ChannelState::Opening;
    }
}

/// The actor's whole reaction to one inbound frame, by payload kind.
pub open spec fn frame_step(
    pre: LocalChannel,
    frame: Frame,
    post: LocalChannel,
    r: Result<Option<LocalEvent>, Error>,
) -> bool {
    match frame.payload {
        FramePayload::Method(m) => channel_method_step(pre, m, post, r),
        FramePayload::ContentHeader(_) => r == Result::<Option<LocalEvent>, Error>::Ok(None)
            && unchanged(pre, post),
        FramePayload::ContentBody(b) => {
            &&& unchanged(pre, post)
            &&& if pre.consuming {
                r == Result::<Option<LocalEvent>, Error>::Ok(Some(LocalEvent::DeliveredData(b.bytes)))
            } else {
                &&& r matches Err(e)
                &&& e matches Error::UnexpectedFrame(exp, f)
                &&& exp@ == "PendingConsume"@
                &&& f == (Frame {
                    channel: pre.channel_id,
                    payload: FramePayload::ContentBody(b),
                })
            }
        },
        FramePayload::Heartbeat => {
            &&& r matches Err(e)
            &&& e matches Error::UnexpectedFrame(exp, f)
            &&& exp@ == "Method"@
            &&& f == frame
            &&& unchanged(pre, post)
        },
    }
}

/// Make the actor for one channel, still closed, together with the handle
/// its callers use to command it. The caller registers the handle with the
/// frame dispatcher.
pub fn create_channel(channel_id: u16) -> (r: (LocalChannelController, LocalChannel))
    ensures
        r.0.channel_id == channel_id,
        r.1.channel_id == channel_id,
        r.1.state == ChannelState::Closed,
        !r.1.open_wait,
        !r.1.declare_queue_wait,
        !r.1.consuming,
{
    let controller = LocalChannelController { channel_id };
    let channel = LocalChannel {
        channel_id,
        state: ChannelState::Closed,
        open_wait: false,
        declare_queue_wait: false,
        consuming: false,
    };
    (controller, channel)
}

} // verus!
