//! The connection handshake: a linear negotiation that runs to completion
//! before any channel exists.
//!
//! ```text
//! Client                               AMQP Server
//!    +                                        +
//!    |     Protocol header (not framed)       |
//!    +--------------------------------------> +
//!    |     Start method                       |
//!    | <--------------------------------------+
//!    |     Start-ok method                    |
//!    +--------------------------------------> +
//!    |     Secure method (optional, repeats)  |
//!    | <--------------------------------------+
//!    |     Secure-ok method                   |
//!    +--------------------------------------> +
//!    |     Tune method                        |
//!    | <--------------------------------------+
//!    |     Tune-ok method                     |
//!    +--------------------------------------> +
//!    |     Open method                        |
//!    +--------------------------------------> +
//!    |     Open-ok method                     |
//!    | <--------------------------------------+
//! ```
//!
//! Any frame other than the method a stage expects fails the handshake.

use vstd::prelude::*;
use crate::errors::Error;
use crate::frame::{appends, Frame, FramePayload, MethodPayload};
use crate::methods::connection::open::{is_open_payload, open};
use crate::methods::connection::start_ok::{is_start_ok_payload, start_args_usable, start_ok};
use crate::methods::connection::tune_ok::{channel_max, frame_max, tune_args_usable};
use crate::frame::Argument;

verus! {

/// The unframed protocol header opening every connection: `AMQP` and the
/// protocol version 0-9-1.
pub open spec fn protocol_header_bytes() -> Seq<u8> {
    seq![65u8, 77u8, 81u8, 80u8, 0u8, 0u8, 9u8, 1u8]
}

/// How a handshake strategy answers each server method. The spec functions
/// say, per implementor, when a reply is owed and what it must look like;
/// the exec methods are held to them.
pub trait Handshaker: Sized {
    /// When connection.start can be answered.
    spec fn replies_to_start(&self, start: &MethodPayload) -> bool;

    /// What a start-ok reply to `start` must look like.
    spec fn start_reply_ok(&self, start: &MethodPayload, reply: &MethodPayload) -> bool;

    /// When connection.secure can be answered.
    spec fn replies_to_secure(&self, secure: &MethodPayload) -> bool;

    /// What a secure-ok reply to `secure` must look like.
    spec fn secure_reply_ok(&self, secure: &MethodPayload, reply: &MethodPayload) -> bool;

    /// When connection.tune can be answered.
    spec fn replies_to_tune(&self, tune: &MethodPayload) -> bool;

    /// What a tune-ok reply to `tune` must look like.
    spec fn tune_reply_ok(&self, tune: &MethodPayload, reply: &MethodPayload) -> bool;

    /// What the connection.open request must look like.
    spec fn open_request_ok(&self, open: &MethodPayload) -> bool;

    /// Answer connection.start.
    fn reply_to_start(&self, start: &MethodPayload) -> (r: Result<MethodPayload, Error>)
        ensures
            r is Ok <==> self.replies_to_start(start),
            r matches Ok(m) ==> self.start_reply_ok(start, &m),
    ;

    /// Answer connection.secure.
    fn reply_to_secure(&self, secure: &MethodPayload) -> (r: Result<MethodPayload, Error>)
        ensures
            r is Ok <==> self.replies_to_secure(secure),
            r matches Ok(m) ==> self.secure_reply_ok(secure, &m),
    ;

    /// Answer connection.tune.
    fn reply_to_tune(&self, tune: &MethodPayload) -> (r: Result<MethodPayload, Error>)
        ensures
            r is Ok <==> self.replies_to_tune(tune),
            r matches Ok(m) ==> self.tune_reply_ok(tune, &m),
    ;

    /// Build the connection.open request that follows tune-ok.
    fn create_open(&self) -> (r: MethodPayload)
        ensures
            self.open_request_ok(&r),
    ;

    /// Look at the final connection.open-ok.
    fn inspect_open_ok(&self, open_ok: &MethodPayload);
}

/// The handshake strategy of this crate: authenticate with PLAIN under the
/// given user and password, accept the server's tune limits with a 60
/// second heartbeat, and open the given virtual host.
pub struct SimpleHandshaker {
    pub user: String,
    pub pass: String,
    pub virtual_host: String,
}

impl Handshaker for SimpleHandshaker {
    open spec fn replies_to_start(&self, start: &MethodPayload) -> bool {
        start_args_usable(start.arguments@, "PLAIN"@, "en_US"@)
    }

    open spec fn start_reply_ok(&self, start: &MethodPayload, reply: &MethodPayload) -> bool {
        is_start_ok_payload(*reply, self.user@, self.pass@)
    }

    open spec fn replies_to_secure(&self, secure: &MethodPayload) -> bool {
        // PLAIN authentication is complete in start-ok; a secure challenge
        // is out of place and fails the handshake.
        false
    }

    open spec fn secure_reply_ok(&self, secure: &MethodPayload, reply: &MethodPayload) -> bool {
        false
    }

    open spec fn replies_to_tune(&self, tune: &MethodPayload) -> bool {
        tune_args_usable(tune.arguments@)
    }

    open spec fn tune_reply_ok(&self, tune: &MethodPayload, reply: &MethodPayload) -> bool {
        &&& reply.class_id == 10
        &&& reply.method_id == 31
        &&& reply.arguments@.len() == 3
        &&& reply.arguments@[0] == tune.arguments@[0]
        &&& reply.arguments@[1] == tune.arguments@[1]
        &&& reply.arguments@[2] == Argument::Short(60u16)
    }

    open spec fn open_request_ok(&self, open: &MethodPayload) -> bool {
        is_open_payload(*open, self.virtual_host@)
    }

    fn reply_to_start(&self, start: &MethodPayload) -> (r: Result<MethodPayload, Error>) {
        start_ok(start, self.user.as_str(), self.pass.as_str())
    }

    fn reply_to_secure(&self, _secure: &MethodPayload) -> (r: Result<MethodPayload, Error>) {
        Err(Error::HandshakeFailed)
    }

    fn reply_to_tune(&self, tune: &MethodPayload) -> (r: Result<MethodPayload, Error>) {
        let ch_max = match channel_max(&tune.arguments) {
            Ok(v) => v,
            Err(e) => {
                return Err(e);
            },
        };
        let fr_max = match frame_max(&tune.arguments) {
            Ok(v) => v,
            Err(e) => {
                return Err(e);
            },
        };
        if tune.arguments.len() <= 2 {
            return Err(Error::HandshakeFailed);
        }
        let heartbeat_ok = matches!(&tune.arguments[2], Argument::Short(_));
        if !heartbeat_ok {
            return Err(Error::HandshakeFailed);
        }
        Ok(MethodPayload {
            class_id: 10,
            method_id: 31,
            arguments: vec![
                Argument::Short(ch_max),
                Argument::Long(fr_max),
                Argument::Short(60),
            ],
        })
    }

    fn create_open(&self) -> (r: MethodPayload) {
        open(self.virtual_host.as_str())
    }

    fn inspect_open_ok(&self, _open_ok: &MethodPayload) {
    }
}

/// The stages of one handshake, in their one order.
#[derive(Clone, Copy, Debug, PartialEq, Eq, Structural)]
pub enum HandshakeStage {
    /// The protocol header is still to be written.
    SendingProtoHeader,
    /// connection.start is awaited.
    ReceivingStart,
    /// connection.secure or connection.tune is awaited.
    ReceivingSecureOrTune,
    /// connection.open-ok is awaited.
    ReceivingOpenOk,
    /// The connection is established.
    Open,
}

/// One handshake in progress, driven by its strategy.
pub struct Handshaking<H: Handshaker> {
    pub stage: HandshakeStage,
    pub handshaker: H,
}

/// Begin a handshake with the given strategy. The protocol header must be
/// written first; every later exchange is framed.
pub fn start_handshake<H: Handshaker>(handshaker: H) -> (h: Handshaking<H>)
    ensures
        h.stage == HandshakeStage::SendingProtoHeader,
        h.handshaker == handshaker,
{
    Handshaking { stage: HandshakeStage::SendingProtoHeader, handshaker }
}

impl<H: Handshaker> Handshaking<H> {
    /// Hand out the unframed protocol header, moving to the wait for
    /// connection.start.
    pub fn protocol_header(&mut self) -> (hdr: Vec<u8>)
        requires
            old(self).stage == HandshakeStage::SendingProtoHeader,
        ensures
            hdr@ == protocol_header_bytes(),
            final(self).stage == HandshakeStage::ReceivingStart,
            final(self).handshaker == old(self).handshaker,
    {
        self.stage = HandshakeStage::ReceivingStart;
        let hdr: Vec<u8> = vec![65, 77, 81, 80, 0, 0, 9, 1];
        hdr
    }

    /// Feed one inbound frame to the handshake. `Ok(true)` reports the
    /// connection established. Each receiving stage accepts exactly the
    /// method it awaits — start, then secure (answered in place) or tune,
    /// then open-ok — queues the strategy's replies on `out`, and fails
    /// with `HandshakeFailed` on anything else.
    pub fn on_frame(&mut self, frame: Frame, out: &mut Vec<Frame>) -> (r: Result<bool, Error>)
        requires
            old(self).stage == HandshakeStage::ReceivingStart || old(self).stage
                == HandshakeStage::ReceivingSecureOrTune || old(self).stage
                == HandshakeStage::ReceivingOpenOk,
        ensures
            final(self).handshaker == old(self).handshaker,
            handshake_step(
                old(self).stage,
                &old(self).handshaker,
                frame,
                final(self).stage,
                old(out)@,
                final(out)@,
                r,
            ),
    {
        match self.stage {
            HandshakeStage::ReceivingStart => {
                match frame_method(&frame, 10, 10) {
                    Some(start) => {
                        let reply = match self.handshaker.reply_to_start(start) {
                            Ok(m) => m,
                            Err(e) => {
                                return Err(e);
                            },
                        };
                        out.push(Frame { channel: 0, payload: FramePayload::Method(reply) });
                        self.stage = HandshakeStage::ReceivingSecureOrTune;
                        Ok(false)
                    },
                    None => Err(Error::HandshakeFailed),
                }
            },
            HandshakeStage::ReceivingSecureOrTune => {
                if let Some(secure) = frame_method(&frame, 10, 20) {
                    let reply = match self.handshaker.reply_to_secure(secure) {
                        Ok(m) => m,
                        Err(e) => {
                            return Err(e);
                        },
                    };
                    out.push(Frame { channel: 0, payload: FramePayload::Method(reply) });
                    return Ok(false);
                }
                match frame_method(&frame, 10, 30) {
                    Some(tune) => {
                        let reply = match self.handshaker.reply_to_tune(tune) {
                            Ok(m) => m,
                            Err(e) => {
                                return Err(e);
                            },
                        };
                        out.push(Frame { channel: 0, payload: FramePayload::Method(reply) });
                        let open_request = self.handshaker.create_open();
                        out.push(Frame { channel: 0, payload: FramePayload::Method(open_request) });
                        self.stage = HandshakeStage::ReceivingOpenOk;
                        Ok(false)
                    },
                    None => Err(Error::HandshakeFailed),
                }
            },
            HandshakeStage::ReceivingOpenOk => {
                match frame_method(&frame, 10, 41) {
                    Some(open_ok) => {
                        self.handshaker.inspect_open_ok(open_ok);
                        self.stage = HandshakeStage::Open;
                        Ok(true)
                    },
                    None => Err(Error::HandshakeFailed),
                }
            },
            _ => unreached(),
        }
    }

    /// The connection is established.
    pub fn is_open(&self) -> (b: bool)
        ensures
            b == (self.stage == HandshakeStage::Open),
    {
        match self.stage {
            HandshakeStage::Open => true,
            _ => false,
        }
    }
}

/// A server that sends connection.start, connection.tune and
/// connection.open-ok in order, each answerable by the strategy, drives the
/// handshake to Open: the three steps emit start-ok, then tune-ok and the
/// open request, in that order on channel 0, and end established.
pub proof fn lemma_handshake_completes<H: Handshaker>(
    hs: &H,
    f1: Frame,
    f2: Frame,
    f3: Frame,
    st1: HandshakeStage,
    st2: HandshakeStage,
    st3: HandshakeStage,
    out0: Seq<Frame>,
    out1: Seq<Frame>,
    out2: Seq<Frame>,
    out3: Seq<Frame>,
    r1: Result<bool, Error>,
    r2: Result<bool, Error>,
    r3: Result<bool, Error>,
)
    requires
        f1.is_method_of(10, 10) && hs.replies_to_start(&f1.payload->Method_0),
        f2.is_method_of(10, 30) && hs.replies_to_tune(&f2.payload->Method_0),
        f3.is_method_of(10, 41),
        handshake_step(HandshakeStage::ReceivingStart, hs, f1, st1, out0, out1, r1),
        handshake_step(st1, hs, f2, st2, out1, out2, r2),
        handshake_step(st2, hs, f3, st3, out2, out3, r3),
    ensures
        st3 == HandshakeStage::Open,
        r3 == Result::<bool, Error>::Ok(true),
        appends(out0, out3, 3),
        out3[out0.len() as int].payload matches FramePayload::Method(m)
            && hs.start_reply_ok(&f1.payload->Method_0, &m),
        out3[(out0.len() + 1) as int].payload matches FramePayload::Method(m)
            && hs.tune_reply_ok(&f2.payload->Method_0, &m),
        out3[(out0.len() + 2) as int].payload matches FramePayload::Method(m) && hs.open_request_ok(&m),
{
    assert(f2.is_method_of(10, 20) ==> false);
    assert(out3 == out2);
    assert(out3.subrange(0, out0.len() as int) =~= out0) by {
        assert(out2.subrange(0, out1.len() as int) =~= out1);
        assert(out1.subrange(0, out0.len() as int) =~= out0);
    }
    assert(out3[out0.len() as int] == out1.last()) by {
        assert(out2.subrange(0, out1.len() as int) =~= out1);
    }
    assert(out3[(out0.len() + 1) as int] == out2[out1.len() as int]);
    assert(out3[(out0.len() + 2) as int] == out2.last());
}

/// The method payload of `frame` when it carries the given method of the
/// connection class.
fn frame_method(frame: &Frame, class_id: u16, method_id: u16) -> (r: Option<&MethodPayload>)
    ensures
        match r {
            Some(m) => frame.payload == FramePayload::Method(*m) && m.class_id == class_id
                && m.method_id == method_id,
            None => !frame.is_method_of(class_id, method_id),
        },
{
    match frame.method() {
        Some(m) => {
            if m.class_id == class_id && m.method_id == method_id {
                Some(m)
            } else {
                None
            }
        },
        None => None,
    }
}

/// The handshake's whole reaction to one inbound frame at one receiving
/// stage: which stage it moves to, which replies it queues, and when it
/// fails. All replies go out on channel 0.
pub open spec fn handshake_step<H: Handshaker>(
    pre: HandshakeStage,
    hs: &H,
    frame: Frame,
    post: HandshakeStage,
    out0: Seq<Frame>,
    out1: Seq<Frame>,
    r: Result<bool, Error>,
) -> bool {
    match pre {
        HandshakeStage::ReceivingStart => {
            if frame.is_method_of(10, 10) {
                let start = frame.payload->Method_0;
                if hs.replies_to_start(&start) {
                    &&& r == Result::<bool, Error>::Ok(false)
                    &&& post == HandshakeStage::ReceivingSecureOrTune
                    &&& appends(out0, out1, 1)
                    &&& out1.last().channel == 0
                    &&& out1.last().payload matches FramePayload::Method(m)
                        && hs.start_reply_ok(&start, &m)
                } else {
                    r is Err && post == pre && out1 == out0
                }
            } else {
                &&& r == Result::<bool, Error>::Err(Error::HandshakeFailed)
                &&& post == pre
                &&& out1 == out0
            }
        },
        HandshakeStage::ReceivingSecureOrTune => {
            if frame.is_method_of(10, 20) {
                let secure = frame.payload->Method_0;
                if hs.replies_to_secure(&secure) {
                    &&& r == Result::<bool, Error>::Ok(false)
                    &&& post == pre
                    &&& appends(out0, out1, 1)
                    &&& out1.last().channel == 0
                    &&& out1.last().payload matches FramePayload::Method(m)
                        && hs.secure_reply_ok(&secure, &m)
                } else {
                    r is Err && post == pre && out1 == out0
                }
            } else if frame.is_method_of(10, 30) {
                let tune = frame.payload->Method_0;
                if hs.replies_to_tune(&tune) {
                    &&& r == Result::<bool, Error>::Ok(false)
                    &&& post == HandshakeStage::ReceivingOpenOk
                    &&& appends(out0, out1, 2)
                    &&& out1[out0.len() as int].channel == 0
                    &&& out1[out0.len() as int].payload matches FramePayload::Method(m)
                        && hs.tune_reply_ok(&tune, &m)
                    &&& out1.last().channel == 0
                    &&& out1.last().payload matches FramePayload::Method(m)
                        && hs.open_request_ok(&m)
                } else {
                    r is Err && post == pre && out1 == out0
                }
            } else {
                &&& r == Result::<bool, Error>::Err(Error::HandshakeFailed)
                &&& post == pre
                &&& out1 == out0
            }
        },
        HandshakeStage::ReceivingOpenOk => {
            if frame.is_method_of(10, 41) {
                &&& r == Result::<bool, Error>::Ok(true)
                &&& post == HandshakeStage::Open
                &&& out1 == out0
            } else {
                &&& r == Result::<bool, Error>::Err(Error::HandshakeFailed)
                &&& post == pre
                &&& out1 == out0
            }
        },
        _ => false,
    }
}

} // verus!
