//! Declaring a queue: send queue.declare and, unless no-wait was asked,
//! wait for queue.declare-ok on the same channel and read the declared
//! queue's name out of it.

use vstd::prelude::*;
use crate::errors::Error;
use crate::frame::{appends, Argument, Frame, FramePayload};
use crate::methods::queue::declare::{declare, queue_declare_bits, DeclareArguments};
use crate::wait::{MethodWait, WaitOutcome};

verus! {

/// What a queue declaration asks for.
#[derive(Clone, Debug)]
pub struct DeclareQueueOption {
    pub name: String,
    pub is_passive: bool,
    pub is_durable: bool,
    pub is_exclusive: bool,
    pub is_auto_delete: bool,
    pub is_no_wait: bool,
}

/// What queue.declare-ok reports: the queue's name (the server's, when the
/// declaration left it to the server) and its current counts.
#[derive(Clone, Debug, PartialEq)]
pub struct DeclareOkMethod {
    pub queue: String,
    pub message_count: u32,
    pub consumer_count: u32,
}

/// The completion a waiting declaration resolves with.
pub type DeclareResult = DeclareOkMethod;

/// The queue.declare frame for `channel_id` and `option`.
pub open spec fn is_queue_declare_frame(f: Frame, channel_id: u16, option: DeclareQueueOption) -> bool {
    &&& f.channel == channel_id
    &&& f.payload matches FramePayload::Method(m)
    &&& m.class_id == 50
    &&& m.method_id == 10
    &&& m.arguments@.len() == 4
    &&& m.arguments@[1] == Argument::ShortString(option.name)
    &&& m.arguments@[2] == Argument::Bits(
        queue_declare_bits(
            option.is_passive,
            option.is_durable,
            option.is_exclusive,
            option.is_auto_delete,
            option.is_no_wait,
        ),
    )
}

/// A well-formed queue.declare-ok argument list: name, message count,
/// consumer count.
pub open spec fn declare_ok_args(args: Seq<Argument>) -> bool {
    &&& args.len() == 3
    &&& args[0] is ShortString
    &&& args[1] is Long
    &&& args[2] is Long
}

/// The parse `res` read out of a declare-ok argument list `args`.
pub open spec fn declare_ok_parse(args: Seq<Argument>, res: DeclareOkMethod) -> bool {
    &&& declare_ok_args(args)
    &&& args[0] matches Argument::ShortString(n) && res.queue@ == n@
    &&& args[1] == Argument::Long(res.message_count)
    &&& args[2] == Argument::Long(res.consumer_count)
}

/// Send queue.declare onto the outbound queue. With no-wait the operation
/// is complete at once and reports no name; otherwise it waits for the
/// matching queue.declare-ok on this channel.
pub fn declare_queue(channel_id: u16, option: DeclareQueueOption, out: &mut Vec<Frame>) -> (q: QueueDeclared)
    ensures
        appends(old(out)@, final(out)@, 1),
        is_queue_declare_frame(final(out)@.last(), channel_id, option),
        option.is_no_wait ==> q is Done,
        !option.is_no_wait ==> (q matches QueueDeclared::Receiving(w) && w == (MethodWait {
            channel_id,
            class_id: 50u16,
            method_id: 11u16,
        })),
{
    let no_wait = option.is_no_wait;
    let args = DeclareArguments {
        queue_name: option.name,
        passive: option.is_passive,
        durable: option.is_durable,
        exclusive: option.is_exclusive,
        auto_delete: option.is_auto_delete,
        no_wait: option.is_no_wait,
    };
    let frame = Frame { channel: channel_id, payload: FramePayload::Method(declare(args)) };
    out.push(frame);

    if no_wait {
        QueueDeclared::Done
    } else {
        QueueDeclared::Receiving(MethodWait { channel_id, class_id: 50, method_id: 11 })
    }
}

/// The wait for queue.declare-ok: still receiving, or resolved.
pub enum QueueDeclared {
    Receiving(MethodWait),
    Done,
}

impl QueueDeclared {
    /// Feed one inbound frame to the wait. `Some` carries the declare-ok's
    /// parse: exactly on this channel's well-formed queue.declare-ok. A
    /// frame of another channel leaves the wait untouched; any other frame
    /// on this channel, and a declare-ok whose arguments are malformed,
    /// fail it.
    pub fn on_frame(&mut self, frame: Frame) -> (r: Result<Option<DeclareResult>, Error>)
        requires
            *old(self) matches QueueDeclared::Receiving(w),
        ensures
            ({
                let w = (*old(self))->Receiving_0;
                match r {
                    Ok(Some(res)) => {
                        &&& w.resolves(frame)
                        &&& frame.payload matches FramePayload::Method(m)
                            && declare_ok_parse(m.arguments@, res)
                        &&& *final(self) is Done
                    },
                    Ok(None) => frame.channel != w.channel_id && *final(self) == *old(self),
                    Err(e) => {
                        &&& frame.channel == w.channel_id
                        &&& (frame.is_method_of(w.class_id, w.method_id) ==> (
                            frame.payload matches FramePayload::Method(m)
                                && !declare_ok_args(m.arguments@)))
                        &&& e matches Error::UnexpectedFrame(exp, f) && f == frame && exp@
                            == "DeclareOk"@
                        &&& *final(self) == *old(self)
                    },
                }
            }),
    {
        let outcome = match self {
            QueueDeclared::Receiving(w) => w.observe(frame),
            QueueDeclared::Done => unreached(),
        };
        let channel_id = match self {
            QueueDeclared::Receiving(w) => w.channel_id,
            QueueDeclared::Done => unreached(),
        };
        match outcome {
            WaitOutcome::Matched(declare_ok) => {
                let well_formed = declare_ok.arguments.len() == 3
                    && matches!(&declare_ok.arguments[0], Argument::ShortString(_))
                    && matches!(&declare_ok.arguments[1], Argument::Long(_))
                    && matches!(&declare_ok.arguments[2], Argument::Long(_));
                if !well_formed {
                    return Err(
                        Error::UnexpectedFrame(
                            "DeclareOk".to_owned(),
                            Frame { channel: channel_id, payload: FramePayload::Method(declare_ok) },
                        ),
                    );
                }
                let queue = match &declare_ok.arguments[0] {
                    Argument::ShortString(n) => n.clone(),
                    _ => unreached(),
                };
                let message_count = match &declare_ok.arguments[1] {
                    Argument::Long(c) => *c,
                    _ => unreached(),
                };
                let consumer_count = match &declare_ok.arguments[2] {
                    Argument::Long(c) => *c,
                    _ => unreached(),
                };
                *self = QueueDeclared::Done;
                Ok(Some(DeclareOkMethod { queue, message_count, consumer_count }))
            },
            WaitOutcome::OtherChannel(_f) => Ok(None),
            WaitOutcome::Mismatched(f) => Err(Error::UnexpectedFrame("DeclareOk".to_owned(), f)),
        }
    }
}

} // verus!
