//! The basic.consume method.

use vstd::prelude::*;
use crate::frame::{Argument, FieldTable, MethodPayload};

verus! {

/// What a basic.consume names: the queue, the consumer tag, and the
/// no-local / no-ack / exclusive / no-wait flags.
pub struct ConsumeArguments {
    pub queue_name: String,
    pub consumer_tag: String,
    pub no_local: bool,
    pub no_ack: bool,
    pub exclusive: bool,
    pub no_wait: bool,
}

impl Default for ConsumeArguments {
    /// Empty names, every flag off.
    fn default() -> (d: Self)
        ensures
            d.queue_name@ == Seq::<char>::empty(),
            d.consumer_tag@ == Seq::<char>::empty(),
            !d.no_local,
            !d.no_ack,
            !d.exclusive,
            !d.no_wait,
    {
        ConsumeArguments {
            queue_name: String::new(),
            consumer_tag: String::new(),
            no_local: false,
            no_ack: false,
            exclusive: false,
            no_wait: false,
        }
    }
}

/// The flag bits of basic.consume: no-local, no-ack, exclusive, no-wait in
/// bits 0 to 3.
pub open spec fn consume_bits(no_local: bool, no_ack: bool, exclusive: bool, no_wait: bool) -> u8 {
    ((if no_local { 1u8 } else { 0u8 }) + (if no_ack { 2u8 } else { 0u8 })
        + (if exclusive { 4u8 } else { 0u8 }) + (if no_wait { 8u8 } else { 0u8 })) as u8
}

/// Build basic.consume (class 60, method 20) with the wire argument order:
/// reserved, queue, consumer tag, flag bits, empty table.
pub fn consume(args: ConsumeArguments) -> (p: MethodPayload)
    ensures
        p.class_id == 60,
        p.method_id == 20,
        p.arguments@.len() == 5,
        p.arguments@[0] == Argument::Short(0u16),
        p.arguments@[1] == Argument::ShortString(args.queue_name),
        p.arguments@[2] == Argument::ShortString(args.consumer_tag),
        p.arguments@[3] == Argument::Bits(
            consume_bits(args.no_local, args.no_ack, args.exclusive, args.no_wait),
        ),
        p.arguments@[4] matches Argument::FieldTable(t) && t.0@.len() == 0,
{
    let reserved_1 = Argument::Short(0);
    let bits = Argument::Bits(bits_from_some_arg(&args));
    let queue_name = Argument::ShortString(args.queue_name);
    let consumer_tag = Argument::ShortString(args.consumer_tag);
    let table = Argument::FieldTable(FieldTable(Vec::new()));

    MethodPayload {
        class_id: 60,
        method_id: 20,
        arguments: vec![reserved_1, queue_name, consumer_tag, bits, table],
    }
}

fn bits_from_some_arg(args: &ConsumeArguments) -> (b: u8)
    ensures
        b == consume_bits(args.no_local, args.no_ack, args.exclusive, args.no_wait),
{
    (if args.no_local { 1u8 } else { 0u8 }) + (if args.no_ack { 2u8 } else { 0u8 })
        + (if args.exclusive { 4u8 } else { 0u8 }) + (if args.no_wait { 8u8 } else { 0u8 })
}

} // verus!
