//! The connection actor: channel 0's state machine. It answers the server's
//! connection-class methods during and after the handshake, emits heartbeat
//! frames, and hands out new channel actors. One command — an inbound frame
//! or a request from another task — is handled at a time.

use vstd::prelude::*;
use crate::errors::Error;
use crate::frame::{appends, Frame, FramePayload, MethodPayload};
use crate::methods::connection::open::{is_open_payload, open};
use crate::methods::connection::start_ok::{is_start_ok_payload, start_args_usable, start_ok};
use crate::methods::connection::tune_ok::{tune_args_usable, tune_ok};
use crate::channel::local::controller::LocalChannelController;

verus! {

/// The connection's lifecycle as channel 0 sees it: negotiating, usable,
/// or closed by the server.
#[derive(Clone, Copy, Debug, PartialEq, Eq, Structural)]
pub enum ConnectionState {
    Handshaking,
    Open,
    Closed,
}

/// What the connection actor's mailbox carries.
#[derive(Debug)]
pub enum GlobalChannelCommand {
    ArriveFrame(Frame),
    DeclareLocalChannel(u16),
    SendHeartbeatFrame,
}

/// What handling one command can report back to the surrounding tasks.
#[derive(Debug)]
pub enum GlobalEvent {
    /// connection.open-ok arrived: the connection is established.
    HandshakeFinished,
    /// The server sent connection.close.
    ConnectionClosed,
    /// A channel.open-ok arrived on channel 0.
    ChannelOpenOk,
    /// A channel.close arrived on channel 0.
    ChannelClosed,
    /// A new channel actor was declared; its handle is returned.
    NewChannel(LocalChannelController),
}

/// The connection actor's state.
#[derive(Debug)]
pub struct GlobalChannel {
    pub user: String,
    pub pass: String,
    pub state: ConnectionState,
}

/// A method frame on channel 0.
pub open spec fn is_connection_frame(f: Frame, m: MethodPayload) -> bool {
    f.channel == 0 && f.payload == FramePayload::Method(m)
}

/// A connection.tune-ok on channel 0 echoing the tune's three limits.
pub open spec fn is_tune_ok_echo(f: Frame, tune: MethodPayload) -> bool {
    &&& f.channel == 0
    &&& f.payload matches FramePayload::Method(p)
    &&& p.class_id == 10
    &&& p.method_id == 31
    &&& p.arguments@.len() == 3
    &&& p.arguments@[0] == tune.arguments@[0]
    &&& p.arguments@[1] == tune.arguments@[1]
    &&& p.arguments@[2] == tune.arguments@[2]
}

/// The actor's whole reaction to one connection-class method `m`: which
/// frames it sends, how its state moves, and what it reports.
pub open spec fn connection_method_step(
    pre: GlobalChannel,
    m: MethodPayload,
    post: GlobalChannel,
    out0: Seq<Frame>,
    out1: Seq<Frame>,
    r: Result<Option<GlobalEvent>, Error>,
) -> bool {
    &&& post.user == pre.user
    &&& post.pass == pre.pass
    &&& if m.class_id == 10 && m.method_id == 10 {
        // connection.start: answer start-ok, or fail the handshake.
        if start_args_usable(m.arguments@, "PLAIN"@, "en_US"@) {
            &&& r == Result::<Option<GlobalEvent>, Error>::Ok(None)
            &&& appends(out0, out1, 1)
            &&& out1.last().channel == 0
            &&& out1.last().payload matches FramePayload::Method(p)
                && is_start_ok_payload(p, pre.user@, pre.pass@)
            &&& post.state == pre.state
        } else {
            &&& r == Result::<Option<GlobalEvent>, Error>::Err(Error::HandshakeFailed)
            &&& out1 == out0
            &&& post.state == pre.state
        }
    } else if m.class_id == 10 && m.method_id == 30 {
        // connection.tune: echo tune-ok, then ask to open the virtual host.
        if tune_args_usable(m.arguments@) {
            &&& r == Result::<Option<GlobalEvent>, Error>::Ok(None)
            &&& appends(out0, out1, 2)
            &&& is_tune_ok_echo(out1[out0.len() as int], m)
            &&& out1.last().channel == 0
            &&& out1.last().payload matches FramePayload::Method(p) && is_open_payload(p, "/"@)
            &&& post.state == pre.state
        } else {
            &&& r == Result::<Option<GlobalEvent>, Error>::Err(Error::HandshakeFailed)
            &&& out1 == out0
            &&& post.state == pre.state
        }
    } else if m.class_id == 10 && m.method_id == 41 {
        // connection.open-ok: the connection is established.
        &&& r == Result::<Option<GlobalEvent>, Error>::Ok(Some(GlobalEvent::HandshakeFinished))
        &&& out1 == out0
        &&& post.state == ConnectionState::Open
    } else if m.class_id == 10 && m.method_id == 50 {
        // connection.close from the server.
        &&& r == Result::<Option<GlobalEvent>, Error>::Ok(Some(GlobalEvent::ConnectionClosed))
        &&& out1 == out0
        &&& post.state == ConnectionState::Closed
    } else if m.class_id == 20 && m.method_id == 11 {
        &&& r == Result::<Option<GlobalEvent>, Error>::Ok(Some(GlobalEvent::ChannelOpenOk))
        &&& out1 == out0
        &&& post.state == pre.state
    } else if m.class_id == 20 && m.method_id == 40 {
        &&& r == Result::<Option<GlobalEvent>, Error>::Ok(Some(GlobalEvent::ChannelClosed))
        &&& out1 == out0
        &&& post.state == pre.state
    } else {
        &&& r matches Err(e)
        &&& e matches Error::UnexpectedFrame(exp, found)
        &&& exp@ == "ConnectionMethod"@
        &&& found == (Frame { channel: 0u16, payload: FramePayload::Method(m) })
        &&& out1 == out0
        &&& post.state == pre.state
    }
}

impl GlobalChannel {
    /// Handle one command: an inbound channel-0 frame, a request for a new
    /// channel actor, or a heartbeat tick.
    pub fn handle(&mut self, command: GlobalChannelCommand, out: &mut Vec<Frame>) -> (r: Result<
        Option<GlobalEvent>,
        Error,
    >)
        ensures
            match command {
                GlobalChannelCommand::ArriveFrame(f) => {
                    match f.payload {
                        FramePayload::Method(m) => connection_method_step(
                            *old(self),
                            m,
                            *final(self),
                            old(out)@,
                            final(out)@,
                            r,
                        ),
                        FramePayload::Heartbeat => r == Result::<Option<GlobalEvent>, Error>::Ok(None)
                            && *final(self) == *old(self) && final(out)@ == old(out)@,
                        _ => {
                            &&& r matches Err(e)
                            &&& e matches Error::UnexpectedFrame(exp, found)
                            &&& exp@ == "Method"@
                            &&& found == f
                            &&& *final(self) == *old(self)
                            &&& final(out)@ == old(out)@
                        },
                    }
                },
                GlobalChannelCommand::DeclareLocalChannel(id) => {
                    &&& r matches Ok(ev)
                    &&& ev matches Some(e)
                    &&& e matches GlobalEvent::NewChannel(c)
                    &&& c.channel_id == id
                    &&& *final(self) == *old(self)
                    &&& final(out)@ == old(out)@
                },
                GlobalChannelCommand::SendHeartbeatFrame => {
                    &&& r == Result::<Option<GlobalEvent>, Error>::Ok(None)
                    &&& *final(self) == *old(self)
                    &&& final(out)@ == old(out)@.push(
                        Frame { channel: 0u16, payload: FramePayload::Heartbeat },
                    )
                },
            },
    {
        match command {
            GlobalChannelCommand::ArriveFrame(frame) => self.handle_frame(frame, out),
            GlobalChannelCommand::DeclareLocalChannel(channel_id) => {
                let controller = self.declare_local_channel(channel_id);
                Ok(Some(GlobalEvent::NewChannel(controller)))
            },
            GlobalChannelCommand::SendHeartbeatFrame => {
                self.send_heartbeat_frame(out);
                Ok(None)
            },
        }
    }

    /// Dispatch one inbound channel-0 frame by its payload kind. Content
    /// frames never belong on channel 0.
    fn handle_frame(&mut self, frame: Frame, out: &mut Vec<Frame>) -> (r: Result<
        Option<GlobalEvent>,
        Error,
    >)
        ensures
            match frame.payload {
                FramePayload::Method(m) => connection_method_step(
                    *old(self),
                    m,
                    *final(self),
                    old(out)@,
                    final(out)@,
                    r,
                ),
                FramePayload::Heartbeat => r == Result::<Option<GlobalEvent>, Error>::Ok(None)
                    && *final(self) == *old(self) && final(out)@ == old(out)@,
                _ => {
                    &&& r matches Err(e)
                    &&& e matches Error::UnexpectedFrame(exp, found)
                    &&& exp@ == "Method"@
                    &&& found == frame
                    &&& *final(self) == *old(self)
                    &&& final(out)@ == old(out)@
                },
            },
    {
        match frame.payload {
            FramePayload::Method(method) => self.handle_method(method, out),
            FramePayload::Heartbeat => Ok(None),
            _ => Err(Error::UnexpectedFrame("Method".to_owned(), frame)),
        }
    }

    /// React to one connection-class method as `connection_method_step`
    /// describes.
    fn handle_method(&mut self, method: MethodPayload, out: &mut Vec<Frame>) -> (r: Result<
        Option<GlobalEvent>,
        Error,
    >)
        ensures
            connection_method_step(*old(self), method, *final(self), old(out)@, final(out)@, r),
    {
        if method.class_id == 10 && method.method_id == 10 {
            let reply = match start_ok(&method, self.user.as_str(), self.pass.as_str()) {
                Ok(p) => p,
                Err(e) => {
                    return Err(e);
                },
            };
            self.send_method(reply, out);
            Ok(None)
        } else if method.class_id == 10 && method.method_id == 30 {
            let reply = match tune_ok(&method) {
                Ok(p) => p,
                Err(e) => {
                    return Err(e);
                },
            };
            self.send_method(reply, out);
            self.send_method(open("/"), out);
            Ok(None)
        } else if method.class_id == 10 && method.method_id == 41 {
            self.state = ConnectionState::Open;
            Ok(Some(GlobalEvent::HandshakeFinished))
        } else if method.class_id == 10 && method.method_id == 50 {
            self.state = ConnectionState::Closed;
            Ok(Some(GlobalEvent::ConnectionClosed))
        } else if method.class_id == 20 && method.method_id == 11 {
            Ok(Some(GlobalEvent::ChannelOpenOk))
        } else if method.class_id == 20 && method.method_id == 40 {
            Ok(Some(GlobalEvent::ChannelClosed))
        } else {
            Err(
                Error::UnexpectedFrame(
                    "ConnectionMethod".to_owned(),
                    Frame { channel: 0, payload: FramePayload::Method(method) },
                ),
            )
        }
    }

    /// Queue one method frame on channel 0.
    fn send_method(&self, payload: MethodPayload, out: &mut Vec<Frame>)
        ensures
            final(out)@ == old(out)@.push(
                Frame { channel: 0u16, payload: FramePayload::Method(payload) },
            ),
    {
        let frame = Frame { channel: 0, payload: FramePayload::Method(payload) };
        self.send_frame(frame, out);
    }

    /// Queue one heartbeat frame on channel 0.
    fn send_heartbeat_frame(&self, out: &mut Vec<Frame>)
        ensures
            final(out)@ == old(out)@.push(Frame { channel: 0u16, payload: FramePayload::Heartbeat }),
    {
        let frame = Frame { channel: 0, payload: FramePayload::Heartbeat };
        self.send_frame(frame, out);
    }

    /// Queue one frame for the dispatcher's writer.
    fn send_frame(&self, frame: Frame, out: &mut Vec<Frame>)
        ensures
            final(out)@ == old(out)@.push(frame),
    {
        out.push(frame);
    }

    /// Make the handle for a new channel actor under `channel_id`. The
    /// caller registers it with the frame dispatcher.
    fn declare_local_channel(&mut self, channel_id: u16) -> (c: LocalChannelController)
        ensures
            c.channel_id == channel_id,
            *final(self) == *old(self),
    {
        LocalChannelController { channel_id }
    }
}

/// Make the connection actor for a fresh connection, still handshaking,
/// together with the handle other tasks use to command it.
pub fn global_channel(user: String, pass: String) -> (r: (
    super::controller::GlobalChannelController,
    GlobalChannel,
))
    ensures
        r.1.user == user,
        r.1.pass == pass,
        r.1.state == ConnectionState::Handshaking,
{
    let controller = super::controller::GlobalChannelController;
    let channel = GlobalChannel { user, pass, state: ConnectionState::Handshaking };
    (controller, channel)
}

} // verus!
