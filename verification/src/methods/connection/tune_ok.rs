//! The connection.tune-ok reply, echoing the limits the server proposed.

use vstd::prelude::*;
use crate::errors::Error;
use crate::frame::{Argument, MethodPayload};

verus! {

/// The argument list of a connection.tune the client can echo: channel-max,
/// frame-max and heartbeat in their wire kinds.
pub open spec fn tune_args_usable(args: Seq<Argument>) -> bool {
    &&& args.len() > 2
    &&& args[0] is Short
    &&& args[1] is Long
    &&& args[2] is Short
}

/// Build connection.tune-ok from the server's connection.tune, echoing its
/// channel-max, frame-max and heartbeat. Fails with `HandshakeFailed` exactly
/// when the tune arguments are missing or of the wrong kind.
pub fn tune_ok(tune: &MethodPayload) -> (r: Result<MethodPayload, Error>)
    ensures
        match r {
            Ok(p) => {
                &&& tune_args_usable(tune.arguments@)
                &&& p.class_id == 10
                &&& p.method_id == 31
                &&& p.arguments@.len() == 3
                &&& p.arguments@[0] == tune.arguments@[0]
                &&& p.arguments@[1] == tune.arguments@[1]
                &&& p.arguments@[2] == tune.arguments@[2]
            },
            Err(e) => {
                &&& e == Error::HandshakeFailed
                &&& !tune_args_usable(tune.arguments@)
            },
        },
{
    let ch_max = match channel_max(&tune.arguments) {
        Ok(v) => v,
        Err(e) => {
            return Err(e);
        },
    };
    let fr_max = match frame_max(&tune.arguments) {
        Ok(v) => v,
        Err(e) => {
            return Err(e);
        },
    };
    let hb = match heartbeat(&tune.arguments) {
        Ok(v) => v,
        Err(e) => {
            return Err(e);
        },
    };

    Ok(MethodPayload {
        class_id: 10,
        method_id: 31,
        arguments: vec![Argument::Short(ch_max), Argument::Long(fr_max), Argument::Short(hb)],
    })
}

/// The channel-max limit at argument 0.
pub(crate) fn channel_max(args: &Vec<Argument>) -> (r: Result<u16, Error>)
    ensures
        match r {
            Ok(v) => args@.len() > 0 && args@[0] == Argument::Short(v),
            Err(e) => e == Error::HandshakeFailed && !(args@.len() > 0 && args@[0] is Short),
        },
{
    if args.len() == 0 {
        return Err(Error::HandshakeFailed);
    }
    match &args[0] {
        Argument::Short(max) => Ok(*max),
        _ => Err(Error::HandshakeFailed),
    }
}

/// The frame-max limit at argument 1.
pub(crate) fn frame_max(args: &Vec<Argument>) -> (r: Result<u32, Error>)
    ensures
        match r {
            Ok(v) => args@.len() > 1 && args@[1] == Argument::Long(v),
            Err(e) => e == Error::HandshakeFailed && !(args@.len() > 1 && args@[1] is Long),
        },
{
    if args.len() <= 1 {
        return Err(Error::HandshakeFailed);
    }
    match &args[1] {
        Argument::Long(max) => Ok(*max),
        _ => Err(Error::HandshakeFailed),
    }
}

/// The heartbeat interval at argument 2.
pub(crate) fn heartbeat(args: &Vec<Argument>) -> (r: Result<u16, Error>)
    ensures
        match r {
            Ok(v) => args@.len() > 2 && args@[2] == Argument::Short(v),
            Err(e) => e == Error::HandshakeFailed && !(args@.len() > 2 && args@[2] is Short),
        },
{
    if args.len() <= 2 {
        return Err(Error::HandshakeFailed);
    }
    match &args[2] {
        Argument::Short(hb) => Ok(*hb),
        _ => Err(Error::HandshakeFailed),
    }
}

} // verus!
