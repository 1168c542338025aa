//! The queue.declare method.

use vstd::prelude::*;
use crate::frame::{Argument, FieldTable, MethodPayload};

verus! {

/// What a queue.declare names: the queue and the passive / durable /
/// exclusive / auto-delete / no-wait flags.
pub struct DeclareArguments {
    pub queue_name: String,
    pub passive: bool,
    pub durable: bool,
    pub exclusive: bool,
    pub auto_delete: bool,
    pub no_wait: bool,
}

impl Default for DeclareArguments {
    /// A server-named queue with every flag off.
    fn default() -> (d: Self)
        ensures
            d.queue_name@ == Seq::<char>::empty(),
            !d.passive,
            !d.durable,
            !d.exclusive,
            !d.auto_delete,
            !d.no_wait,
    {
        DeclareArguments {
            queue_name: String::new(),
            passive: false,
            durable: false,
            exclusive: false,
            auto_delete: false,
            no_wait: false,
        }
    }
}

/// The flag bits of queue.declare: passive, durable, exclusive, auto-delete,
/// no-wait in bits 0 to 4.
pub open spec fn queue_declare_bits(
    passive: bool,
    durable: bool,
    exclusive: bool,
    auto_delete: bool,
    no_wait: bool,
) -> u8 {
    ((if passive { 1u8 } else { 0u8 }) + (if durable { 2u8 } else { 0u8 })
        + (if exclusive { 4u8 } else { 0u8 }) + (if auto_delete { 8u8 } else { 0u8 })
        + (if no_wait { 16u8 } else { 0u8 })) as u8
}

/// Build queue.declare (class 50, method 10) with the wire argument order:
/// reserved, queue, flag bits, empty table.
pub fn declare(args: DeclareArguments) -> (p: MethodPayload)
    ensures
        p.class_id == 50,
        p.method_id == 10,
        p.arguments@.len() == 4,
        p.arguments@[0] == Argument::Short(0u16),
        p.arguments@[1] == Argument::ShortString(args.queue_name),
        p.arguments@[2] == Argument::Bits(
            queue_declare_bits(args.passive, args.durable, args.exclusive, args.auto_delete, args.no_wait),
        ),
        p.arguments@[3] matches Argument::FieldTable(t) && t.0@.len() == 0,
{
    let reserved_1 = Argument::Short(0);
    let bits = Argument::Bits(bits_from_some_arg(&args));
    let queue_name = Argument::ShortString(args.queue_name);
    let table = Argument::FieldTable(FieldTable(Vec::new()));

    MethodPayload {
        class_id: 50,
        method_id: 10,
        arguments: vec![reserved_1, queue_name, bits, table],
    }
}

fn bits_from_some_arg(args: &DeclareArguments) -> (b: u8)
    ensures
        b == queue_declare_bits(args.passive, args.durable, args.exclusive, args.auto_delete, args.no_wait),
{
    (if args.passive { 1u8 } else { 0u8 }) + (if args.durable { 2u8 } else { 0u8 })
        + (if args.exclusive { 4u8 } else { 0u8 }) + (if args.auto_delete { 8u8 } else { 0u8 })
        + (if args.no_wait { 16u8 } else { 0u8 })
}

} // verus!
