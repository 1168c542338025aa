//! Declaring an exchange: send exchange.declare and, unless no-wait was
//! asked, wait for exchange.declare-ok on the same channel.

use vstd::prelude::*;
use crate::errors::Error;
use crate::frame::{appends, Frame, FramePayload};
use crate::methods::exchange::declare::{declare, exchange_declare_bits, DeclareArguments};
use crate::frame::Argument;
use crate::wait::{MethodWait, WaitOutcome};

verus! {

/// The routing disciplines an exchange can be declared with.
#[derive(Debug, Clone, PartialEq, Eq)]
pub enum ExchangeType {
    Direct,
    Fanout,
    Topic,
    Headers,
}

/// The wire name of each exchange type.
pub open spec fn exchange_type_name(typ: ExchangeType) -> Seq<char> {
    match typ {
        ExchangeType::Direct => "direct"@,
        ExchangeType::Fanout => "fanout"@,
        ExchangeType::Topic => "topic"@,
        ExchangeType::Headers => "headers"@,
    }
}

fn name_of_type(typ: ExchangeType) -> (s: String)
    ensures
        s@ == exchange_type_name(typ),
{
    match typ {
        ExchangeType::Direct => "direct".to_owned(),
        ExchangeType::Fanout => "fanout".to_owned(),
        ExchangeType::Topic => "topic".to_owned(),
        ExchangeType::Headers => "headers".to_owned(),
    }
}

/// What an exchange declaration asks for.
#[derive(Debug, Clone)]
pub struct DeclareExchangeOption {
    pub name: String,
    pub typ: ExchangeType,
    pub is_passive: bool,
    pub is_durable: bool,
    pub is_auto_delete: bool,
    pub is_internal: bool,
    pub is_no_wait: bool,
}

/// The exchange.declare frame for `channel_id` and `option`.
pub open spec fn is_exchange_declare_frame(f: Frame, channel_id: u16, option: DeclareExchangeOption) -> bool {
    &&& f.channel == channel_id
    &&& f.payload matches FramePayload::Method(m)
    &&& m.class_id == 40
    &&& m.method_id == 10
    &&& m.arguments@.len() == 5
    &&& m.arguments@[1] == Argument::ShortString(option.name)
    &&& m.arguments@[2] matches Argument::ShortString(t) && t@ == exchange_type_name(option.typ)
    &&& m.arguments@[3] == Argument::Bits(
        exchange_declare_bits(
            option.is_passive,
            option.is_durable,
            option.is_auto_delete,
            option.is_internal,
            option.is_no_wait,
        ),
    )
}

/// Send exchange.declare onto the outbound queue. With no-wait the
/// operation is complete at once; otherwise it waits for the matching
/// exchange.declare-ok on this channel.
pub fn declare_exchange(channel_id: u16, option: DeclareExchangeOption, out: &mut Vec<Frame>) -> (d: ExchangeDeclared)
    ensures
        appends(old(out)@, final(out)@, 1),
        is_exchange_declare_frame(final(out)@.last(), channel_id, option),
        option.is_no_wait ==> d is Done,
        !option.is_no_wait ==> (d matches ExchangeDeclared::Receiving(w) && w == (MethodWait {
            channel_id,
            class_id: 40u16,
            method_id: 11u16,
        })),
{
    let no_wait = option.is_no_wait;
    let args = DeclareArguments {
        exchange_name: option.name,
        exchange_type: name_of_type(option.typ),
        passive: option.is_passive,
        durable: option.is_durable,
        auto_delete: option.is_auto_delete,
        internal: option.is_internal,
        no_wait: option.is_no_wait,
    };
    let frame = Frame { channel: channel_id, payload: FramePayload::Method(declare(args)) };
    out.push(frame);

    if no_wait {
        ExchangeDeclared::Done
    } else {
        ExchangeDeclared::Receiving(MethodWait { channel_id, class_id: 40, method_id: 11 })
    }
}

/// The wait for exchange.declare-ok: still receiving, or resolved.
pub enum ExchangeDeclared {
    Receiving(MethodWait),
    Done,
}

impl ExchangeDeclared {
    /// Feed one inbound frame to the wait. `Ok(true)` reports the exchange
    /// declared: exactly on this channel's exchange.declare-ok. A frame of
    /// another channel leaves the wait untouched; any other frame on this
    /// channel fails it.
    pub fn on_frame(&mut self, frame: Frame) -> (r: Result<bool, Error>)
        requires
            *old(self) matches ExchangeDeclared::Receiving(w),
        ensures
            ({
                let w = (*old(self))->Receiving_0;
                match r {
                    Ok(true) => w.resolves(frame) && *final(self) is Done,
                    Ok(false) => frame.channel != w.channel_id && *final(self) == *old(self),
                    Err(e) => {
                        &&& frame.channel == w.channel_id
                        &&& !frame.is_method_of(w.class_id, w.method_id)
                        &&& e matches Error::UnexpectedFrame(exp, f) && f == frame && exp@
                            == "DeclareOk"@
                        &&& *final(self) == *old(self)
                    },
                }
            }),
    {
        let outcome = match self {
            ExchangeDeclared::Receiving(w) => w.observe(frame),
            ExchangeDeclared::Done => unreached(),
        };
        match outcome {
            WaitOutcome::Matched(_declare_ok) => {
                *self = ExchangeDeclared::Done;
                Ok(true)
            },
            WaitOutcome::OtherChannel(_f) => Ok(false),
            WaitOutcome::Mismatched(f) => Err(Error::UnexpectedFrame("DeclareOk".to_owned(), f)),
        }
    }
}

} // verus!
