//! The connection.open method, asking the server for a virtual host.

use vstd::prelude::*;
use crate::frame::{Argument, MethodPayload};

verus! {

/// The connection.open payload asking for virtual host `vhost`.
pub open spec fn is_open_payload(p: MethodPayload, vhost: Seq<char>) -> bool {
    &&& p.class_id == 10
    &&& p.method_id == 40
    &&& p.arguments@.len() == 3
    &&& p.arguments@[0] matches Argument::ShortString(v) && v@ == vhost
    &&& p.arguments@[1] matches Argument::ShortString(r1) && r1@ == Seq::<char>::empty()
    &&& p.arguments@[2] == Argument::Bits(1u8)
}

/// Build connection.open for the given virtual host.
pub fn open(vhost: &str) -> (p: MethodPayload)
    ensures
        is_open_payload(p, vhost@),
{
    let virtual_host_arg = Argument::ShortString(virtual_host(vhost));
    let reserved_1 = Argument::ShortString(String::new());
    let reserved_2 = Argument::Bits(1);

    MethodPayload {
        class_id: 10,
        method_id: 40,
        arguments: vec![virtual_host_arg, reserved_1, reserved_2],
    }
}

fn virtual_host(vhost: &str) -> (s: String)
    ensures
        s@ == vhost@,
{
    vhost.to_owned()
}

} // verus!
