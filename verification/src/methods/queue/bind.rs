//! The queue.bind method.

use vstd::prelude::*;
use crate::frame::{Argument, FieldTable, MethodPayload};

verus! {

/// What a queue.bind names: the queue, the exchange, the routing key, and
/// the no-wait flag.
pub struct BindArguments {
    pub queue_name: String,
    pub exchange_name: String,
    pub routing_key: String,
    pub no_wait: bool,
}

impl Default for BindArguments {
    /// Empty names, waiting for bind-ok.
    fn default() -> (d: Self)
        ensures
            d.queue_name@ == Seq::<char>::empty(),
            d.exchange_name@ == Seq::<char>::empty(),
            d.routing_key@ == Seq::<char>::empty(),
            !d.no_wait,
    {
        BindArguments {
            queue_name: String::new(),
            exchange_name: String::new(),
            routing_key: String::new(),
            no_wait: false,
        }
    }
}

/// The flag bits of queue.bind: no-wait in bit 0.
pub open spec fn bind_bits(no_wait: bool) -> u8 {
    if no_wait { 1u8 } else { 0u8 }
}

/// Build queue.bind (class 50, method 20) with the wire argument order:
/// reserved, queue, exchange, routing key, flag bits, empty table.
pub fn bind(args: BindArguments) -> (p: MethodPayload)
    ensures
        p.class_id == 50,
        p.method_id == 20,
        p.arguments@.len() == 6,
        p.arguments@[0] == Argument::Short(0u16),
        p.arguments@[1] == Argument::ShortString(args.queue_name),
        p.arguments@[2] == Argument::ShortString(args.exchange_name),
        p.arguments@[3] == Argument::ShortString(args.routing_key),
        p.arguments@[4] == Argument::Bits(bind_bits(args.no_wait)),
        p.arguments@[5] matches Argument::FieldTable(t) && t.0@.len() == 0,
{
    let reserved_1 = Argument::Short(0);
    let bits = Argument::Bits(if args.no_wait { 1u8 } else { 0u8 });
    let queue_name = Argument::ShortString(args.queue_name);
    let exchange_name = Argument::ShortString(args.exchange_name);
    let routing_key = Argument::ShortString(args.routing_key);
    let table = Argument::FieldTable(FieldTable(Vec::new()));

    MethodPayload {
        class_id: 50,
        method_id: 20,
        arguments: vec![reserved_1, queue_name, exchange_name, routing_key, bits, table],
    }
}

} // verus!
