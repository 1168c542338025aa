//! The exchange.declare method.

use vstd::prelude::*;
use crate::frame::{Argument, FieldTable, MethodPayload};

verus! {

/// What an exchange.declare names: the exchange, its type, and the
/// passive / durable / auto-delete / internal / no-wait flags.
#[derive(Debug, Clone)]
pub struct DeclareArguments {
    pub exchange_name: String,
    pub exchange_type: String,
    pub passive: bool,
    pub durable: bool,
    pub auto_delete: bool,
    pub internal: bool,
    pub no_wait: bool,
}

impl Default for DeclareArguments {
    /// An unnamed fanout exchange with every flag off.
    fn default() -> (d: Self)
        ensures
            d.exchange_name@ == Seq::<char>::empty(),
            d.exchange_type@ == "fanout"@,
            !d.passive,
            !d.durable,
            !d.auto_delete,
            !d.internal,
            !d.no_wait,
    {
        DeclareArguments {
            exchange_name: String::new(),
            exchange_type: "fanout".to_owned(),
            passive: false,
            durable: false,
            auto_delete: false,
            internal: false,
            no_wait: false,
        }
    }
}

/// The flag bits of exchange.declare: passive, durable, auto-delete,
/// internal, no-wait in bits 0 to 4.
pub open spec fn exchange_declare_bits(
    passive: bool,
    durable: bool,
    auto_delete: bool,
    internal: bool,
    no_wait: bool,
) -> u8 {
    ((if passive { 1u8 } else { 0u8 }) + (if durable { 2u8 } else { 0u8 })
        + (if auto_delete { 4u8 } else { 0u8 }) + (if internal { 8u8 } else { 0u8 })
        + (if no_wait { 16u8 } else { 0u8 })) as u8
}

/// Build exchange.declare (class 40, method 10) with the wire argument
/// order: reserved, exchange, type, flag bits, empty table.
pub fn declare(args: DeclareArguments) -> (p: MethodPayload)
    ensures
        p.class_id == 40,
        p.method_id == 10,
        p.arguments@.len() == 5,
        p.arguments@[0] == Argument::Short(0u16),
        p.arguments@[1] == Argument::ShortString(args.exchange_name),
        p.arguments@[2] == Argument::ShortString(args.exchange_type),
        p.arguments@[3] == Argument::Bits(
            exchange_declare_bits(args.passive, args.durable, args.auto_delete, args.internal, args.no_wait),
        ),
        p.arguments@[4] matches Argument::FieldTable(t) && t.0@.len() == 0,
{
    let reserved_1 = Argument::Short(0);
    let bits = Argument::Bits(
        bits_from_some_arg(args.passive, args.durable, args.auto_delete, args.internal, args.no_wait),
    );
    let exchange_name_arg = Argument::ShortString(args.exchange_name);
    let exchange_type_arg = Argument::ShortString(args.exchange_type);
    let table = Argument::FieldTable(FieldTable(Vec::new()));

    MethodPayload {
        class_id: 40,
        method_id: 10,
        arguments: vec![reserved_1, exchange_name_arg, exchange_type_arg, bits, table],
    }
}

fn bits_from_some_arg(
    passive: bool,
    durable: bool,
    auto_delete: bool,
    internal: bool,
    no_wait: bool,
) -> (b: u8)
    ensures
        b == exchange_declare_bits(passive, durable, auto_delete, internal, no_wait),
{
    (if passive { 1u8 } else { 0u8 }) + (if durable { 2u8 } else { 0u8 })
        + (if auto_delete { 4u8 } else { 0u8 }) + (if internal { 8u8 } else { 0u8 })
        + (if no_wait { 16u8 } else { 0u8 })
}

} // verus!
