//! The basic.publish method.

use vstd::prelude::*;
use crate::frame::{Argument, FieldTable, MethodPayload};

verus! {

/// What a basic.publish names: the target exchange, the routing key, and
/// the mandatory / immediate delivery flags.
#[derive(Debug, Clone)]
pub struct PublishArguments {
    pub exchange_name: String,
    pub routing_key: String,
    pub mandatory: bool,
    pub immediate: bool,
}

impl Default for PublishArguments {
    /// Empty names, neither mandatory nor immediate.
    fn default() -> (d: Self)
        ensures
            d.exchange_name@ == Seq::<char>::empty(),
            d.routing_key@ == Seq::<char>::empty(),
            !d.mandatory,
            !d.immediate,
    {
        PublishArguments {
            exchange_name: String::new(),
            routing_key: String::new(),
            mandatory: false,
            immediate: false,
        }
    }
}

/// The flag bits of basic.publish: mandatory in bit 0, immediate in bit 1.
pub open spec fn publish_bits(mandatory: bool, immediate: bool) -> u8 {
    ((if mandatory { 1u8 } else { 0u8 }) + (if immediate { 2u8 } else { 0u8 })) as u8
}

/// Build basic.publish (class 60, method 40) with the wire argument order:
/// reserved, exchange, routing key, flag bits.
pub fn publish(args: PublishArguments) -> (p: MethodPayload)
    ensures
        p.class_id == 60,
        p.method_id == 40,
        p.arguments@.len() == 4,
        p.arguments@[0] == Argument::Short(0u16),
        p.arguments@[1] == Argument::ShortString(args.exchange_name),
        p.arguments@[2] == Argument::ShortString(args.routing_key),
        p.arguments@[3] == Argument::Bits(publish_bits(args.mandatory, args.immediate)),
{
    let reserved_1 = Argument::Short(0);
    let bits = Argument::Bits(bits_from_some_arg(&args));
    let exchange_name = Argument::ShortString(args.exchange_name);
    let routing_key = Argument::ShortString(args.routing_key);

    MethodPayload {
        class_id: 60,
        method_id: 40,
        arguments: vec![reserved_1, exchange_name, routing_key, bits],
    }
}

fn bits_from_some_arg(args: &PublishArguments) -> (b: u8)
    ensures
        b == publish_bits(args.mandatory, args.immediate),
{
    (if args.mandatory { 1u8 } else { 0u8 }) + (if args.immediate { 2u8 } else { 0u8 })
}

} // verus!
